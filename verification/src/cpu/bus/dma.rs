pub mod dma_channel;
pub mod dma_channel_control_register;
pub mod dma_control_register;
pub mod dma_interrupt_register;
pub mod transfers;

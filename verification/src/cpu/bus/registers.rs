pub mod delay_register;
pub mod interrupt_register;

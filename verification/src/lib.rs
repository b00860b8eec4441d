pub mod bits;
pub mod cpu;
pub mod memory;

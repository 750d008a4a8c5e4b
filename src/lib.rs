//! Memory-mapped I/O devices of a small RISC-V system-on-chip model: the address
//! routing bus, RAM, the platform-level interrupt controller, a 16550A-style serial
//! port, an auxiliary device for clock, framebuffer, keyboard and poweroff, and the
//! blocking channels that connect device streams to host threads.

pub mod utils;
pub mod memory;
pub mod plic;
pub mod irq;
pub mod channel;
pub mod uart;
pub mod ysyx;
pub mod bus;
pub mod keymap;

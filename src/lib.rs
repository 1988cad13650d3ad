//! Fault and interrupt layer of a small x86-64 kernel: descriptor tables,
//! the interrupt vector table and its handlers, and the driver of the
//! cascaded interrupt controllers.
pub mod util;
pub mod addr;
pub mod frame;
pub mod report;
pub mod gdt;
pub mod pic;
pub mod boot;
pub mod interrupts;
pub mod keyboard;
pub mod vga;
pub mod qemu;

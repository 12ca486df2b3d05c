//! A small 32-bit x86 kernel's logic: 4 KiB paging structures and the
//! mapping of virtual to physical pages, the VGA text-mode frame buffer,
//! the interrupt descriptor table and the 8259 PIC protocol.

pub mod port;
pub mod drivers;
pub mod interrupts;
pub mod mem;

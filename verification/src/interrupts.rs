pub mod idt;
pub mod pic;

use vstd::prelude::*;
use crate::interrupts::idt::{Idt, Igd, IDT_ENTRIES};
use crate::interrupts::pic::HardwareInterrupts;

verus! {

/// Vector offset of the master PIC's interrupt lines in the IDT.
pub const PICM_OFFSET: u8 = 0x20;

/// Vector offset of the slave PIC's interrupt lines in the IDT.
pub const PICS_OFFSET: u8 = 0x28;

/// Interrupt masks set on the master PIC at start-up: only the timer (line 0)
/// and the keyboard (line 1) are let through. Line 2, where the slave is
/// cascaded, stays masked, so everything on the slave is masked too.
pub const PICM_MASKS: u8 = 0b11111100;

/// Interrupt masks set on the slave PIC at start-up.
pub const PICS_MASKS: u8 = 0b10001111;

/// The addresses of the kernel's interrupt handlers.
#[derive(Clone, Copy, Debug, PartialEq, Eq, Structural)]
pub struct KernelHandlers {
    pub divide_by_zero: u32,
    pub breakpoint: u32,
    pub double_fault: u32,
    pub gpf: u32,
    pub page_fault: u32,
    pub sys_timer: u32,
    pub keyboard: u32,
}

/// The vector of each kernel handler: divide error, breakpoint, double fault,
/// general protection fault, page fault, and the timer and keyboard lines of
/// the master PIC.
pub open spec fn kernel_vector_handler(h: KernelHandlers, v: int) -> Option<u32> {
    if v == 0x00 {
        Some(h.divide_by_zero)
    } else if v == 0x03 {
        Some(h.breakpoint)
    } else if v == 0x08 {
        Some(h.double_fault)
    } else if v == 0x0d {
        Some(h.gpf)
    } else if v == 0x0e {
        Some(h.page_fault)
    } else if v == PICM_OFFSET {
        Some(h.sys_timer)
    } else if v == PICM_OFFSET + 1 {
        Some(h.keyboard)
    } else {
        None
    }
}

/// The kernel's interrupt descriptor table: an interrupt gate at level 0 in
/// the code segment `code_selector` for each kernel handler, at its vector;
/// every other vector missing.
pub fn kernel_idt(handlers: &KernelHandlers, code_selector: u16) -> (r: Idt)
    ensures
        forall|v: int|
            0 <= v < IDT_ENTRIES ==> #[trigger] r.0@[v] == match kernel_vector_handler(*handlers, v) {
                Some(h) => Igd::gate_spec(code_selector, h),
                None => Igd::missing_spec(),
            },
{
    let mut idt = Idt::new();

    idt.set_handler(0x0, handlers.divide_by_zero, code_selector);
    idt.set_handler(0x3, handlers.breakpoint, code_selector);
    idt.set_handler(0x8, handlers.double_fault, code_selector);
    idt.set_handler(0x0d, handlers.gpf, code_selector);
    idt.set_handler(0x0e, handlers.page_fault, code_selector).disable_interrupts(true);
    idt.set_handler(HardwareInterrupts::Timer.as_u8(), handlers.sys_timer, code_selector)
        .disable_interrupts(true);
    idt.set_handler(HardwareInterrupts::Keyboard.as_u8(), handlers.keyboard, code_selector)
        .disable_interrupts(true);
    proof {
        assert(0x8eu8 & 0xfe == 0x8e) by (bit_vector);
    }
    idt
}

} // verus!

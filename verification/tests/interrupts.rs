use diegos::interrupts::idt::{Idt, Igd, TypeAttributes, IDT_ENTRIES};
use diegos::interrupts::pic::{send_eoi, HardwareInterrupts, MasterSlavePic, Pic};
use diegos::interrupts::{kernel_idt, KernelHandlers, PICM_OFFSET, PICS_OFFSET};
use diegos::port::PortWrite;

#[test]
fn type_attributes() {
    let mut t = TypeAttributes::default();
    assert_eq!(t.0, 0b1111);
    t.set_present();
    assert_eq!(t.0, 0x8F);
    t.disable_interrupts(true);
    assert_eq!(t.0, 0x8E);
    t.disable_interrupts(false);
    assert_eq!(t.0, 0x8E);
    t.set_privilege_level(0);
    assert_eq!(t.0, 0x8E);
    t.set_privilege_level(3);
    assert_eq!(t.0, 0xEE);
    t.set_privilege_level(1);
    assert_eq!(t.0, 0xAE);
    let mut z = TypeAttributes(0);
    z.set_privilege_level(0x13);
    assert_eq!(z.0, 0x60);
}

#[test]
fn gate_descriptor_for_handler() {
    let g = Igd::new(0x08, 0x1234_5678);
    assert_eq!(g.offset_low, 0x5678);
    assert_eq!(g.offset_high, 0x1234);
    assert_eq!(g.gdt_selector, 0x08);
    assert_eq!(g.reserved_zero, 0);
    assert_eq!(g.type_attr.0, 0x8E);
    assert_eq!(g.descriptor(), 0x1234_8E00_0008_5678);
}

#[test]
fn missing_gate() {
    let g = Igd::missing();
    assert_eq!(g.offset_low, 0);
    assert_eq!(g.offset_high, 0);
    assert_eq!(g.gdt_selector, 0);
    assert_eq!(g.type_attr.0, 0b1111);
    assert_eq!(g.descriptor(), 0x0000_0F00_0000_0000);
}

#[test]
fn idt_set_handler() {
    let mut idt = Idt::new();
    for g in idt.0.iter() {
        assert_eq!(*g, Igd::missing());
    }
    idt.set_handler(0x0e, 0xC010_2030, 0x10).disable_interrupts(true);
    assert_eq!(idt.0[0x0e].type_attr.0, 0x8E);
    assert_eq!(idt.0[0x0e].offset_low, 0x2030);
    assert_eq!(idt.0[0x0e].offset_high, 0xC010);
    assert_eq!(idt.0[0x0e].gdt_selector, 0x10);
    idt.set_handler(3, 0x100, 0x10);
    assert_eq!(idt.0[3].type_attr.0, 0x8E);
    assert_eq!(idt.0[2], Igd::missing());
    assert_eq!(idt.0.len(), IDT_ENTRIES);
    idt.set_handler(0xff, 0x200, 0x10);
    assert_eq!(idt.0[0xff].offset_low, 0x200);
}

#[test]
fn kernel_idt_layout() {
    let h = KernelHandlers {
        divide_by_zero: 0x1000,
        breakpoint: 0x1100,
        double_fault: 0x1200,
        gpf: 0x1300,
        page_fault: 0x1400,
        sys_timer: 0x0012_1500,
        keyboard: 0x1600,
    };
    let idt = kernel_idt(&h, 0x08);
    let expect = [
        (0x00usize, 0x1000u32),
        (0x03, 0x1100),
        (0x08, 0x1200),
        (0x0d, 0x1300),
        (0x0e, 0x1400),
        (0x20, 0x0012_1500),
        (0x21, 0x1600),
    ];
    for (v, handler) in expect {
        assert_eq!(idt.0[v], Igd::new(0x08, handler));
        assert_eq!(idt.0[v].type_attr.0, 0x8E);
    }
    assert_eq!(idt.0[0x01], Igd::missing());
    assert_eq!(idt.0[0x22], Igd::missing());
    assert_eq!(idt.0[0x28], Igd::missing());
}

#[test]
fn hardware_interrupt_vectors() {
    assert_eq!(HardwareInterrupts::Timer.as_u8(), 0x20);
    assert_eq!(HardwareInterrupts::Keyboard.as_u8(), 0x21);
}

#[test]
fn pic_lines() {
    let pics = MasterSlavePic::new(PICM_OFFSET, PICS_OFFSET);
    assert_eq!(pics.master, Pic::new(0x20, 0x20, 0x21));
    assert_eq!(pics.slave, Pic::new(0x28, 0xA0, 0xA1));
    assert!(pics.master.does_handle(0x20));
    assert!(pics.master.does_handle(0x27));
    assert!(!pics.master.does_handle(0x28));
    assert!(!pics.master.does_handle(0x1f));
    assert!(pics.slave.does_handle(0x2f));
    assert!(!pics.slave.does_handle(0x30));
    assert_eq!(pics.master.set_masks(0b1111_1100), PortWrite::new(0x21, 0b1111_1100));
    assert_eq!(pics.slave.set_masks(0b1000_1111), PortWrite::new(0xA1, 0b1000_1111));
}

#[test]
fn pic_initialization_sequence() {
    let pics = MasterSlavePic::new(PICM_OFFSET, PICS_OFFSET);
    let w = pics.init_pics(0xFC, 0x8F);
    let wait = PortWrite::new(0x80, 0);
    let expected = vec![
        PortWrite::new(0x20, 0x11),
        wait,
        PortWrite::new(0xA0, 0x11),
        wait,
        PortWrite::new(0x21, 0x20),
        wait,
        PortWrite::new(0xA1, 0x28),
        wait,
        PortWrite::new(0x21, 0x04),
        wait,
        PortWrite::new(0xA1, 0x02),
        wait,
        PortWrite::new(0x21, 0x01),
        wait,
        PortWrite::new(0xA1, 0x01),
        wait,
        PortWrite::new(0x21, 0xFC),
        PortWrite::new(0xA1, 0x8F),
    ];
    assert_eq!(w, expected);
}

#[test]
fn end_of_interrupt() {
    assert_eq!(send_eoi(0x20), Some(vec![PortWrite::new(0x20, 0x20)]));
    assert_eq!(send_eoi(0x21), Some(vec![PortWrite::new(0x20, 0x20)]));
    assert_eq!(send_eoi(0x2c), Some(vec![PortWrite::new(0x20, 0x20), PortWrite::new(0xA0, 0x20)]));
    assert_eq!(send_eoi(0x1f), None);
    assert_eq!(send_eoi(0x30), None);
    assert_eq!(send_eoi(0x00), None);
}

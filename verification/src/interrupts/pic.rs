//! The protocol of the 8259 Programmable Interrupt Controller pair
//! (master and slave, cascaded on the master's line 2).
//!
//! The functions here decide which bytes go to which ports; the code that
//! owns the machine performs the writes in order.

use vstd::prelude::*;
use crate::interrupts::{PICM_OFFSET, PICS_OFFSET};
use crate::port::PortWrite;

verus! {

pub const PICM: u16 = 0x20;
pub const PICS: u16 = 0xA0;
pub const PICM_COMMAND: u16 = PICM;
pub const PICM_DATA: u16 = PICM + 1;
pub const PICS_COMMAND: u16 = PICS;
pub const PICS_DATA: u16 = PICS + 1;

/// Port written to wait for the PIC between initialization words.
pub const WAIT_PORT: u16 = 0x80;

/// First initialization command word: ICW4 present, cascade mode, edge
/// triggered.
pub const ICW1: u8 = 0x11;

/// Operation mode: 8086 mode, no fully nested mode, no buffering, normal EOI.
pub const OP_MODE: u8 = 0x01;

/// End of interrupt command.
pub const EOI: u8 = 0x20;

/// Hardware interrupt lines and the vectors they are raised on.
pub enum HardwareInterrupts {
    Timer,
    Keyboard,
}

impl HardwareInterrupts {
    pub open spec fn vector(self) -> u8 {
        match self {
            HardwareInterrupts::Timer => PICM_OFFSET,
            HardwareInterrupts::Keyboard => (PICM_OFFSET + 1) as u8,
        }
    }

    pub fn as_u8(self) -> (r: u8)
        ensures
            r == self.vector(),
    {
        match self {
            HardwareInterrupts::Timer => PICM_OFFSET,
            HardwareInterrupts::Keyboard => PICM_OFFSET + 1,
        }
    }
}

/// One PIC: the vector of its first line and its two ports.
#[derive(Clone, Copy, Debug, PartialEq, Eq, Structural)]
pub struct Pic {
    pub offset: u8,
    pub command_port: u16,
    pub data_port: u16,
}

impl Pic {
    pub fn new(offset: u8, command_port: u16, data_port: u16) -> (r: Self)
        ensures
            r == (Pic { offset, command_port, data_port }),
    {
        Pic { offset, command_port, data_port }
    }

    /// The vector is one of this PIC's eight lines.
    pub fn does_handle(&self, irq_line: u8) -> (r: bool)
        requires
            self.offset + 8 <= u8::MAX,
        ensures
            r == (self.offset <= irq_line < self.offset + 8),
    {
        irq_line >= self.offset && irq_line < self.offset + 8
    }

    /// The write that sets the PIC's interrupt masks.
    pub fn set_masks(&self, masks: u8) -> (r: PortWrite)
        ensures
            r == (PortWrite { port: self.data_port, value: masks }),
    {
        PortWrite { port: self.data_port, value: masks }
    }
}

/// The master and the slave PIC.
#[derive(Clone, Copy, Debug, PartialEq, Eq, Structural)]
pub struct MasterSlavePic {
    pub master: Pic,
    pub slave: Pic,
}

/// The write that lets the PIC settle between initialization words.
pub open spec fn wait_write() -> PortWrite {
    PortWrite { port: WAIT_PORT, value: 0 }
}

/// The initialization protocol: ICW1 to both command ports, the vector
/// offsets, the cascade wiring (slave on master line 2, slave identity 2),
/// the operation mode, each followed by a wait; then the masks that were in
/// force before are written back.
pub open spec fn init_sequence(pics: MasterSlavePic, masks_m: u8, masks_s: u8) -> Seq<PortWrite> {
    let m = pics.master;
    let s = pics.slave;
    seq![
        PortWrite { port: m.command_port, value: ICW1 },
        wait_write(),
        PortWrite { port: s.command_port, value: ICW1 },
        wait_write(),
        PortWrite { port: m.data_port, value: m.offset },
        wait_write(),
        PortWrite { port: s.data_port, value: s.offset },
        wait_write(),
        PortWrite { port: m.data_port, value: 0x04 },
        wait_write(),
        PortWrite { port: s.data_port, value: 0x02 },
        wait_write(),
        PortWrite { port: m.data_port, value: OP_MODE },
        wait_write(),
        PortWrite { port: s.data_port, value: OP_MODE },
        wait_write(),
        PortWrite { port: m.data_port, value: masks_m },
        PortWrite { port: s.data_port, value: masks_s },
    ]
}

/// Initialization ends by writing back the masks it was given, the master's
/// to the master's data port and then the slave's to the slave's; the masks
/// change nothing else in the sequence.
pub proof fn lemma_init_restores_masks(pics: MasterSlavePic, masks_m: u8, masks_s: u8, other_m: u8, other_s: u8)
    ensures
        init_sequence(pics, masks_m, masks_s).len() == 18,
        init_sequence(pics, masks_m, masks_s)[16] == (PortWrite { port: pics.master.data_port, value: masks_m }),
        init_sequence(pics, masks_m, masks_s)[17] == (PortWrite { port: pics.slave.data_port, value: masks_s }),
        init_sequence(pics, masks_m, masks_s).subrange(0, 16) == init_sequence(pics, other_m, other_s).subrange(0, 16),
{
    assert(init_sequence(pics, masks_m, masks_s).subrange(0, 16) =~= init_sequence(pics, other_m, other_s).subrange(0, 16));
}

impl MasterSlavePic {
    pub fn new(offset_master: u8, offset_slave: u8) -> (r: Self)
        ensures
            r.master == (Pic { offset: offset_master, command_port: PICM_COMMAND, data_port: PICM_DATA }),
            r.slave == (Pic { offset: offset_slave, command_port: PICS_COMMAND, data_port: PICS_DATA }),
    {
        Self {
            master: Pic::new(offset_master, PICM_COMMAND, PICM_DATA),
            slave: Pic::new(offset_slave, PICS_COMMAND, PICS_DATA),
        }
    }

    /// The writes that initialize both PICs, given the masks read from them
    /// before (`masks_m` from the master, `masks_s` from the slave).
    pub fn init_pics(&self, masks_m: u8, masks_s: u8) -> (r: Vec<PortWrite>)
        ensures
            r@ == init_sequence(*self, masks_m, masks_s),
            r@.len() == 18,
            r@[16] == (PortWrite { port: self.master.data_port, value: masks_m }),
            r@[17] == (PortWrite { port: self.slave.data_port, value: masks_s }),
    {
        let wait_op = PortWrite { port: WAIT_PORT, value: 0 };
        let mut writes: Vec<PortWrite> = Vec::new();

        writes.push(PortWrite { port: self.master.command_port, value: ICW1 });
        writes.push(wait_op);
        writes.push(PortWrite { port: self.slave.command_port, value: ICW1 });
        writes.push(wait_op);

        writes.push(PortWrite { port: self.master.data_port, value: self.master.offset });
        writes.push(wait_op);
        writes.push(PortWrite { port: self.slave.data_port, value: self.slave.offset });
        writes.push(wait_op);

        // Slave PIC is on master's IRQ2.
        writes.push(PortWrite { port: self.master.data_port, value: 0x04 });
        writes.push(wait_op);
        writes.push(PortWrite { port: self.slave.data_port, value: 0x02 });
        writes.push(wait_op);

        writes.push(PortWrite { port: self.master.data_port, value: OP_MODE });
        writes.push(wait_op);
        writes.push(PortWrite { port: self.slave.data_port, value: OP_MODE });
        writes.push(wait_op);

        // Rewriting masks after initialization.
        writes.push(self.master.set_masks(masks_m));
        writes.push(self.slave.set_masks(masks_s));
        assert(writes@ =~= init_sequence(*self, masks_m, masks_s));
        writes
    }
}

/// The end-of-interrupt writes for `n`: the master's command port for the
/// master's lines; the master's and then the slave's for the slave's lines;
/// none for a vector that neither PIC raises.
pub open spec fn eoi_sequence(n: u8) -> Option<Seq<PortWrite>> {
    if PICM_OFFSET <= n < PICM_OFFSET + 8 {
        Some(seq![PortWrite { port: PICM_COMMAND, value: EOI }])
    } else if PICS_OFFSET <= n < PICS_OFFSET + 8 {
        Some(
            seq![
                PortWrite { port: PICM_COMMAND, value: EOI },
                PortWrite { port: PICS_COMMAND, value: EOI },
            ],
        )
    } else {
        None
    }
}

/// The writes that acknowledge the end of interrupt `interrupt_number`, or
/// `None` when the vector is out of both PICs' bounds.
pub fn send_eoi(interrupt_number: u8) -> (r: Option<Vec<PortWrite>>)
    ensures
        r is None <==> eoi_sequence(interrupt_number) is None,
        r matches Some(w) ==> eoi_sequence(interrupt_number) == Some(w@),
{
    let pics = MasterSlavePic::new(PICM_OFFSET, PICS_OFFSET);
    let mut writes: Vec<PortWrite> = Vec::new();
    match (pics.master.does_handle(interrupt_number), pics.slave.does_handle(interrupt_number)) {
        (true, false) => {
            writes.push(PortWrite { port: pics.master.command_port, value: EOI });
        },
        (false, true) => {
            writes.push(PortWrite { port: pics.master.command_port, value: EOI });
            writes.push(PortWrite { port: pics.slave.command_port, value: EOI });
        },
        _ => {
            return None;
        },
    }
    assert(writes@ =~= seq![PortWrite { port: PICM_COMMAND, value: EOI }] || writes@ =~= seq![
        PortWrite { port: PICM_COMMAND, value: EOI },
        PortWrite { port: PICS_COMMAND, value: EOI },
    ]);
    Some(writes)
}

} // verus!

//! The interrupt descriptor table: one gate descriptor for each of the 256
//! vectors.
//!
//! The code that owns the machine lays the descriptors out in memory with
//! `Igd::descriptor` and loads the table.

use vstd::prelude::*;

verus! {

/// Number of gate descriptors in the table.
pub const IDT_ENTRIES: usize = 256;

/// The type and attributes byte of a gate: present (bit 7), privilege level
/// (bits 6:5), gate type (bits 3:0; 0xE for an interrupt gate, 0xF for a
/// trap gate).
#[derive(Clone, Copy, Debug, PartialEq, Eq, Structural)]
pub struct TypeAttributes(pub u8);

/// An interrupt gate descriptor.
#[derive(Clone, Copy, Debug, PartialEq, Eq, Structural)]
pub struct Igd {
    pub offset_low: u16,
    pub gdt_selector: u16,
    pub reserved_zero: u8,
    pub type_attr: TypeAttributes,
    pub offset_high: u16,
}

/// The interrupt descriptor table.
pub struct Idt(pub [Igd; IDT_ENTRIES]);

/// The selector of entry `index` of the GDT at privilege level 0, as the x86
/// crate builds it: the index shifted left by three, the requested
/// privilege level in the low two bits.
#[verifier::external_body]
fn ring0_selector(index: u16) -> (r: u16)
    ensures
        r == ((index as int * 8) % 0x10000) as u16,
{
    x86::segmentation::SegmentSelector::new(index, x86::Ring::Ring0).bits()
}

/// The privilege level of ring 0 in the x86 crate's `Ring`.
#[verifier::external_body]
fn ring0_level() -> (r: u8)
    ensures
        r == 0,
{
    x86::Ring::Ring0 as u8
}

impl Default for TypeAttributes {
    /// Trap type with P and DPL 0: not yet valid, as P must be set for the
    /// descriptor to take effect.
    fn default() -> (r: TypeAttributes)
        ensures
            r.0 == 0b1111,
    {
        TypeAttributes(0b1111)
    }
}

impl TypeAttributes {
    /// Sets the present bit.
    pub fn set_present(&mut self)
        ensures
            final(self).0 == old(self).0 | 0x80,
    {
        assert((1u8 << 7u8) == 0x80u8) by (bit_vector);
        self.0 = self.0 | (0b1 << 7);
    }

    /// Clears bit 0 when `disable` holds (interrupt gate instead of trap
    /// gate); keeps the byte otherwise.
    pub fn disable_interrupts(&mut self, disable: bool)
        ensures
            final(self).0 == if disable {
                old(self).0 & 0xfe
            } else {
                old(self).0
            },
    {
        let keep: u8 = if disable {
            0
        } else {
            1
        };
        let a = self.0;
        assert((a & (0b11111110u8 | 1u8)) == a && (a & (0b11111110u8 | 0u8)) == a & 0xfe)
            by (bit_vector);
        self.0 = self.0 & (0b11111110 | keep);
    }

    /// Sets the descriptor privilege level (bits 6:5) to `dpl`, which keeps
    /// its low two bits; the other bits stay.
    pub fn set_privilege_level(&mut self, dpl: u8)
        ensures
            final(self).0 == (old(self).0 & 0b1001_1111) | (((dpl % 4) * 32) as u8),
            final(self).0 & 0b1001_1111 == old(self).0 & 0b1001_1111,
            (final(self).0 >> 5u8) & 0b11 == dpl % 4,
    {
        let a = self.0;
        assert(((a & 0b1001_1111u8) | ((dpl & 0b11u8) << 5u8)) == (a & 0b1001_1111u8) | (((dpl % 4)
            * 32) as u8) && ((a & 0b1001_1111u8) | ((dpl & 0b11u8) << 5u8)) & 0b1001_1111u8 == a
            & 0b1001_1111u8 && (((a & 0b1001_1111u8) | ((dpl & 0b11u8) << 5u8)) >> 5u8) & 0b11u8
            == dpl % 4) by (bit_vector);
        self.0 = (self.0 & 0b1001_1111) | ((dpl & 0b11) << 5);
    }
}

impl Igd {
    /// A present interrupt gate at privilege level 0 for the handler at
    /// address `handler` in the code segment `gdt_selector`.
    pub fn new(gdt_selector: u16, handler: u32) -> (r: Igd)
        ensures
            r.offset_low == handler % 0x10000,
            r.offset_high == handler / 0x10000,
            r.gdt_selector == gdt_selector,
            r.reserved_zero == 0,
            r.type_attr.0 == 0x8e,
            r.handler() == handler,
    {
        let handler_ptr: u32 = handler;
        let mut type_attr = TypeAttributes::default();
        type_attr.set_present();
        type_attr.disable_interrupts(true);
        type_attr.set_privilege_level(ring0_level());
        assert((((0b1111u8 | 0x80u8) & 0xfeu8) & 0b1001_1111u8) | 0u8 == 0x8eu8) by (bit_vector);
        assert((handler_ptr as u16) == handler_ptr % 0x10000 && ((handler_ptr >> 16u32) as u16)
            == handler_ptr / 0x10000) by (bit_vector);
        Igd {
            offset_low: handler_ptr as u16,
            gdt_selector,
            reserved_zero: 0,
            type_attr,
            offset_high: (handler_ptr >> 16) as u16,
        }
    }

    /// The descriptor of a vector with no handler.
    pub fn missing() -> (r: Igd)
        ensures
            r == (Igd {
                offset_low: 0,
                gdt_selector: 0,
                reserved_zero: 0,
                type_attr: TypeAttributes(0b1111),
                offset_high: 0,
            }),
    {
        Igd {
            offset_low: 0,
            gdt_selector: ring0_selector(0),
            reserved_zero: 0,
            type_attr: TypeAttributes::default(),
            offset_high: 0,
        }
    }

    /// The handler address held in the two offset fields.
    pub open spec fn handler(self) -> int {
        self.offset_high * 0x10000 + self.offset_low
    }

    /// The 64-bit descriptor as the processor reads it: offset bits 15:0,
    /// segment selector, a zero byte, type and attributes, offset bits 31:16.
    pub open spec fn spec_descriptor(self) -> int {
        self.offset_low + self.gdt_selector * 0x10000 + self.reserved_zero * 0x1_0000_0000
            + self.type_attr.0 * 0x100_0000_0000 + self.offset_high * 0x1_0000_0000_0000
    }

    pub fn descriptor(&self) -> (r: u64)
        ensures
            r == self.spec_descriptor(),
    {
        let (a, b, c, d, e) = (
            self.offset_low as u64,
            self.gdt_selector as u64,
            self.reserved_zero as u64,
            self.type_attr.0 as u64,
            self.offset_high as u64,
        );
        assert(a | (b << 16u64) | (c << 32u64) | (d << 40u64) | (e << 48u64) == a + b * 0x10000 + c
            * 0x1_0000_0000 + d * 0x100_0000_0000 + e * 0x1_0000_0000_0000) by (bit_vector)
            requires
                a < 0x10000,
                b < 0x10000,
                c < 0x100,
                d < 0x100,
                e < 0x10000,
        ;
        a | (b << 16) | (c << 32) | (d << 40) | (e << 48)
    }
}

impl Idt {
    /// A table with every vector missing.
    pub fn new() -> (r: Idt)
        ensures
            forall|i: int| 0 <= i < IDT_ENTRIES ==> #[trigger] r.0@[i] == Igd::missing_spec(),
    {
        Idt([Igd::missing();IDT_ENTRIES])
    }

    /// Installs a present interrupt gate at level 0 for the handler at
    /// address `handler` in the code segment `code_selector` at `index`, and
    /// hands out its type and attributes for adjustment.
    pub fn set_handler(&mut self, index: u8, handler: u32, code_selector: u16) -> (r:
        &mut TypeAttributes)
        ensures
            r.0 == 0x8e,
            final(self).0@ == old(self).0@.update(
                index as int,
                Igd {
                    offset_low: (handler % 0x10000) as u16,
                    gdt_selector: code_selector,
                    reserved_zero: 0,
                    type_attr: *final(r),
                    offset_high: (handler / 0x10000) as u16,
                },
            ),
    {
        let casted_handler = handler;
        self.0[index as usize] = Igd::new(code_selector, casted_handler);
        &mut self.0[index as usize].type_attr
    }
}

impl Igd {
    /// The descriptor `Igd::new` builds.
    pub open spec fn gate_spec(gdt_selector: u16, handler: u32) -> Igd {
        Igd {
            offset_low: (handler % 0x10000) as u16,
            gdt_selector,
            reserved_zero: 0,
            type_attr: TypeAttributes(0x8e),
            offset_high: (handler / 0x10000) as u16,
        }
    }

    pub open spec fn missing_spec() -> Igd {
        Igd {
            offset_low: 0,
            gdt_selector: 0,
            reserved_zero: 0,
            type_attr: TypeAttributes(0b1111),
            offset_high: 0,
        }
    }
}

} // verus!

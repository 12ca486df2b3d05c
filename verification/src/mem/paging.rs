//! 32-bit paging with 4 KiB pages (IA-32, CR4.PAE = 0, CR4.PSE = 0).
//!
//! A page directory of 1024 entries points at page tables of 1024 entries,
//! each of which maps one 4 KiB page frame. The directory lives at
//! `PDT_ADDR` and the page tables follow it, one `TABLE_SIZE` apart, from
//! `PTS_ADDR` on. `PagingMemory` holds the directory, the page tables and
//! the count of tables handed out so far; the code that owns the machine
//! copies it to those physical addresses before paging is enabled.

use vstd::prelude::*;

verus! {

/// Number of page tables reserved after the page directory.
pub const NUM_PTS: usize = 9;

/// Physical address of the page directory.
pub const PDT_ADDR: u32 = 0x76000;

/// Size in bytes of the directory and of every page table.
pub const TABLE_SIZE: u32 = 4096;

/// Physical address of the first page table.
pub const PTS_ADDR: u32 = PDT_ADDR + TABLE_SIZE;

/// A page directory entry as the hardware stores it.
#[derive(Clone, Copy, Debug, PartialEq, Eq, Structural)]
pub struct PDEMemRep(pub u32);

/// A page table entry as the hardware stores it.
#[derive(Clone, Copy, Debug, PartialEq, Eq, Structural)]
pub struct PageFrameMemRep(pub u32);

/// The page directory: 1024 entries, one per 4 MiB of virtual memory.
pub struct PageDirectoryTable {
    pub pde: [PDEMemRep; 1024],
}

/// A page table: 1024 entries, one per 4 KiB page.
#[derive(Clone, Copy)]
pub struct PageTable {
    pub page_frames: [PageFrameMemRep; 1024],
}

/// The decoded fields of a page directory entry.
#[derive(Clone, Copy, Debug, PartialEq, Eq, Structural)]
pub struct PageDirectoryEntry {
    /// Physical address of the page table referenced, bits 31:12.
    pub address: u32,
    /// Free for the kernel, bits 11:8.
    pub avl: u8,
    /// Page size; 0 for 4 KiB pages, bit 7.
    pub ps: bool,
    /// Free for the kernel, bit 6.
    pub avl2: bool,
    /// Set when the page table has been used, bit 5.
    pub accessed: bool,
    /// Page-level cache disable, bit 4.
    pub cannot_cache: bool,
    /// Write-through caching when set, else write-back, bit 3.
    pub pwt: bool,
    /// User mode access allowed when set, bit 2.
    pub u_s: bool,
    /// Writes allowed when set, bit 1.
    pub r_w: bool,
    /// Present, bit 0.
    pub p: bool,
}

/// The decoded fields of a page table entry.
#[derive(Clone, Copy, Debug, PartialEq, Eq, Structural)]
pub struct PageFrame {
    /// Physical address of the 4 KiB page referenced, bits 31:12.
    pub address: u32,
    /// Ignored by the hardware, bits 11:9.
    pub avl: u8,
    /// Global translation, bit 8.
    pub g: bool,
    /// Page attribute table, bit 7.
    pub pat: bool,
    /// Set when the page has been written to, bit 6.
    pub dirty: bool,
    /// Set when the page has been accessed, bit 5.
    pub accessed: bool,
    /// Page-level cache disable, bit 4.
    pub pcd: bool,
    /// Page-level write-through, bit 3.
    pub pwt: bool,
    /// User mode access allowed when set, bit 2.
    pub u_s: bool,
    /// Writes allowed when set, bit 1.
    pub r_w: bool,
    /// Present, bit 0.
    pub p: bool,
}

/// A 32-bit virtual address: directory index (bits 31:22), table index
/// (bits 21:12) and offset within the page (bits 11:0).
#[derive(Clone, Copy, Debug)]
pub struct VirtAddress(pub u32);

/// Marker for the location of the page tables.
pub struct PageTableLocator(pub ());

// ---------------------------------------------------------------------------
// The bit layouts.

/// The bit that a flag occupies when it is set.
pub open spec fn flag(b: bool, mask: u32) -> u32 {
    if b {
        mask
    } else {
        0
    }
}

impl PageDirectoryEntry {
    /// The 32-bit word that encodes this entry.
    pub open spec fn spec_bits(self) -> u32 {
        self.address | ((self.avl as u32) << 8u32) | flag(self.ps, 0x80) | flag(self.avl2, 0x40)
            | flag(self.accessed, 0x20) | flag(self.cannot_cache, 0x10) | flag(self.pwt, 0x8)
            | flag(self.u_s, 0x4) | flag(self.r_w, 0x2) | flag(self.p, 0x1)
    }

    /// The address keeps to bits 31:12 and `avl` to its four bits, so that
    /// no field spills into another one's bits.
    pub open spec fn well_formed(self) -> bool {
        &&& self.address & 0xfff == 0
        &&& self.avl < 16
    }
}

/// The entry that a directory word encodes.
pub open spec fn pde_from_bits(x: u32) -> PageDirectoryEntry {
    PageDirectoryEntry {
        address: x & 0xfffff000,
        avl: ((x & 0xf00) >> 8u32) as u8,
        ps: x & 0x80 != 0,
        avl2: x & 0x40 != 0,
        accessed: x & 0x20 != 0,
        cannot_cache: x & 0x10 != 0,
        pwt: x & 0x8 != 0,
        u_s: x & 0x4 != 0,
        r_w: x & 0x2 != 0,
        p: x & 0x1 != 0,
    }
}

impl PageFrame {
    /// The 32-bit word that encodes this entry.
    pub open spec fn spec_bits(self) -> u32 {
        self.address | ((self.avl as u32) << 9u32) | flag(self.g, 0x100) | flag(self.pat, 0x80)
            | flag(self.dirty, 0x40) | flag(self.accessed, 0x20) | flag(self.pcd, 0x10)
            | flag(self.pwt, 0x8) | flag(self.u_s, 0x4) | flag(self.r_w, 0x2) | flag(self.p, 0x1)
    }

    /// The address keeps to bits 31:12 and `avl` to its three bits.
    pub open spec fn well_formed(self) -> bool {
        &&& self.address & 0xfff == 0
        &&& self.avl < 8
    }
}

/// The entry that a page table word encodes.
pub open spec fn frame_from_bits(x: u32) -> PageFrame {
    PageFrame {
        address: x & 0xfffff000,
        avl: ((x & 0xe00) >> 9u32) as u8,
        g: x & 0x100 != 0,
        pat: x & 0x80 != 0,
        dirty: x & 0x40 != 0,
        accessed: x & 0x20 != 0,
        pcd: x & 0x10 != 0,
        pwt: x & 0x8 != 0,
        u_s: x & 0x4 != 0,
        r_w: x & 0x2 != 0,
        p: x & 0x1 != 0,
    }
}

/// Decoding a well-formed directory entry's word gives the entry back.
pub proof fn lemma_pde_decode_encode(e: PageDirectoryEntry)
    requires
        e.well_formed(),
    ensures
        pde_from_bits(e.spec_bits()) == e,
{
    let a = e.address;
    let v = e.avl as u32;
    let (ps, avl2, acc, cc, pwt, us, rw, p) = (
        e.ps,
        e.avl2,
        e.accessed,
        e.cannot_cache,
        e.pwt,
        e.u_s,
        e.r_w,
        e.p,
    );
    let x = e.spec_bits();
    assert({
        &&& x & 0xfffff000 == a
        &&& (x & 0xf00) >> 8u32 == v
        &&& (x & 0x80 != 0) == ps
        &&& (x & 0x40 != 0) == avl2
        &&& (x & 0x20 != 0) == acc
        &&& (x & 0x10 != 0) == cc
        &&& (x & 0x8 != 0) == pwt
        &&& (x & 0x4 != 0) == us
        &&& (x & 0x2 != 0) == rw
        &&& (x & 0x1 != 0) == p
    }) by (bit_vector)
        requires
            a & 0xfff == 0,
            v < 16,
            x == a | (v << 8u32) | (if ps { 0x80u32 } else { 0 }) | (if avl2 { 0x40u32 } else { 0 })
                | (if acc { 0x20u32 } else { 0 }) | (if cc { 0x10u32 } else { 0 }) | (if pwt {
                0x8u32
            } else {
                0
            }) | (if us { 0x4u32 } else { 0 }) | (if rw { 0x2u32 } else { 0 }) | (if p {
                0x1u32
            } else {
                0
            }),
    ;
}

/// Every directory word is the encoding of the well-formed entry it decodes to.
pub proof fn lemma_pde_encode_decode(x: u32)
    ensures
        pde_from_bits(x).well_formed(),
        pde_from_bits(x).spec_bits() == x,
{
    let v = (x & 0xf00) >> 8u32;
    assert(v < 16 && v == ((v as u8) as u32)) by (bit_vector)
        requires
            v == (x & 0xf00) >> 8u32,
    ;
    assert(((x & 0xfffff000) & 0xfff == 0) && x == (x & 0xfffff000) | (v << 8u32) | (if x & 0x80
        != 0 { 0x80u32 } else { 0 }) | (if x & 0x40 != 0 { 0x40u32 } else { 0 }) | (if x & 0x20 != 0 {
        0x20u32
    } else {
        0
    }) | (if x & 0x10 != 0 { 0x10u32 } else { 0 }) | (if x & 0x8 != 0 { 0x8u32 } else { 0 }) | (if x
        & 0x4 != 0 { 0x4u32 } else { 0 }) | (if x & 0x2 != 0 { 0x2u32 } else { 0 }) | (if x & 0x1
        != 0 { 0x1u32 } else { 0 })) by (bit_vector)
        requires
            v == (x & 0xf00) >> 8u32,
    ;
}

/// Decoding a well-formed page table entry's word gives the entry back.
pub proof fn lemma_frame_decode_encode(e: PageFrame)
    requires
        e.well_formed(),
    ensures
        frame_from_bits(e.spec_bits()) == e,
{
    let a = e.address;
    let v = e.avl as u32;
    let (g, pat, dirty, acc, pcd, pwt, us, rw, p) = (
        e.g,
        e.pat,
        e.dirty,
        e.accessed,
        e.pcd,
        e.pwt,
        e.u_s,
        e.r_w,
        e.p,
    );
    let x = e.spec_bits();
    assert({
        &&& x & 0xfffff000 == a
        &&& (x & 0xe00) >> 9u32 == v
        &&& (x & 0x100 != 0) == g
        &&& (x & 0x80 != 0) == pat
        &&& (x & 0x40 != 0) == dirty
        &&& (x & 0x20 != 0) == acc
        &&& (x & 0x10 != 0) == pcd
        &&& (x & 0x8 != 0) == pwt
        &&& (x & 0x4 != 0) == us
        &&& (x & 0x2 != 0) == rw
        &&& (x & 0x1 != 0) == p
    }) by (bit_vector)
        requires
            a & 0xfff == 0,
            v < 8,
            x == a | (v << 9u32) | (if g { 0x100u32 } else { 0 }) | (if pat { 0x80u32 } else { 0 })
                | (if dirty { 0x40u32 } else { 0 }) | (if acc { 0x20u32 } else { 0 }) | (if pcd {
                0x10u32
            } else {
                0
            }) | (if pwt { 0x8u32 } else { 0 }) | (if us { 0x4u32 } else { 0 }) | (if rw {
                0x2u32
            } else {
                0
            }) | (if p { 0x1u32 } else { 0 }),
    ;
}

/// Where each field of a well-formed directory entry sits in its word, as
/// the processor reads it: present at bit 0, writable at bit 1, user at
/// bit 2, write-through at bit 3, cache disable at bit 4, accessed at bit 5,
/// bit 6 free, page size at bit 7, `avl` in bits 11:8, the page table's
/// address in bits 31:12.
pub proof fn lemma_pde_bit_layout(e: PageDirectoryEntry)
    requires
        e.well_formed(),
    ensures
        e.spec_bits() & 0x1 == (if e.p { 0x1u32 } else { 0 }),
        e.spec_bits() & 0x2 == (if e.r_w { 0x2u32 } else { 0 }),
        e.spec_bits() & 0x4 == (if e.u_s { 0x4u32 } else { 0 }),
        e.spec_bits() & 0x8 == (if e.pwt { 0x8u32 } else { 0 }),
        e.spec_bits() & 0x10 == (if e.cannot_cache { 0x10u32 } else { 0 }),
        e.spec_bits() & 0x20 == (if e.accessed { 0x20u32 } else { 0 }),
        e.spec_bits() & 0x40 == (if e.avl2 { 0x40u32 } else { 0 }),
        e.spec_bits() & 0x80 == (if e.ps { 0x80u32 } else { 0 }),
        e.spec_bits() & 0xf00 == (e.avl as u32) * 0x100,
        e.spec_bits() & 0xfffff000 == e.address,
{
    let a = e.address;
    let v = e.avl as u32;
    let (ps, avl2, acc, cc, pwt, us, rw, p) = (
        e.ps,
        e.avl2,
        e.accessed,
        e.cannot_cache,
        e.pwt,
        e.u_s,
        e.r_w,
        e.p,
    );
    let x = e.spec_bits();
    assert({
        &&& x & 0x1 == (if p { 0x1u32 } else { 0 })
        &&& x & 0x2 == (if rw { 0x2u32 } else { 0 })
        &&& x & 0x4 == (if us { 0x4u32 } else { 0 })
        &&& x & 0x8 == (if pwt { 0x8u32 } else { 0 })
        &&& x & 0x10 == (if cc { 0x10u32 } else { 0 })
        &&& x & 0x20 == (if acc { 0x20u32 } else { 0 })
        &&& x & 0x40 == (if avl2 { 0x40u32 } else { 0 })
        &&& x & 0x80 == (if ps { 0x80u32 } else { 0 })
        &&& x & 0xf00 == v * 0x100
        &&& x & 0xfffff000 == a
    }) by (bit_vector)
        requires
            a & 0xfff == 0,
            v < 16,
            x == a | (v << 8u32) | (if ps { 0x80u32 } else { 0 }) | (if avl2 { 0x40u32 } else { 0 })
                | (if acc { 0x20u32 } else { 0 }) | (if cc { 0x10u32 } else { 0 }) | (if pwt {
                0x8u32
            } else {
                0
            }) | (if us { 0x4u32 } else { 0 }) | (if rw { 0x2u32 } else { 0 }) | (if p {
                0x1u32
            } else {
                0
            }),
    ;
}

/// Where each field of a well-formed page table entry sits in its word, as
/// the processor reads it: present at bit 0, writable at bit 1, user at
/// bit 2, write-through at bit 3, cache disable at bit 4, accessed at bit 5,
/// dirty at bit 6, PAT at bit 7, global at bit 8, `avl` in bits 11:9, the
/// page's address in bits 31:12.
pub proof fn lemma_frame_bit_layout(e: PageFrame)
    requires
        e.well_formed(),
    ensures
        e.spec_bits() & 0x1 == (if e.p { 0x1u32 } else { 0 }),
        e.spec_bits() & 0x2 == (if e.r_w { 0x2u32 } else { 0 }),
        e.spec_bits() & 0x4 == (if e.u_s { 0x4u32 } else { 0 }),
        e.spec_bits() & 0x8 == (if e.pwt { 0x8u32 } else { 0 }),
        e.spec_bits() & 0x10 == (if e.pcd { 0x10u32 } else { 0 }),
        e.spec_bits() & 0x20 == (if e.accessed { 0x20u32 } else { 0 }),
        e.spec_bits() & 0x40 == (if e.dirty { 0x40u32 } else { 0 }),
        e.spec_bits() & 0x80 == (if e.pat { 0x80u32 } else { 0 }),
        e.spec_bits() & 0x100 == (if e.g { 0x100u32 } else { 0 }),
        e.spec_bits() & 0xe00 == (e.avl as u32) * 0x200,
        e.spec_bits() & 0xfffff000 == e.address,
{
    let a = e.address;
    let v = e.avl as u32;
    let (g, pat, dirty, acc, pcd, pwt, us, rw, p) = (
        e.g,
        e.pat,
        e.dirty,
        e.accessed,
        e.pcd,
        e.pwt,
        e.u_s,
        e.r_w,
        e.p,
    );
    let x = e.spec_bits();
    assert({
        &&& x & 0x1 == (if p { 0x1u32 } else { 0 })
        &&& x & 0x2 == (if rw { 0x2u32 } else { 0 })
        &&& x & 0x4 == (if us { 0x4u32 } else { 0 })
        &&& x & 0x8 == (if pwt { 0x8u32 } else { 0 })
        &&& x & 0x10 == (if pcd { 0x10u32 } else { 0 })
        &&& x & 0x20 == (if acc { 0x20u32 } else { 0 })
        &&& x & 0x40 == (if dirty { 0x40u32 } else { 0 })
        &&& x & 0x80 == (if pat { 0x80u32 } else { 0 })
        &&& x & 0x100 == (if g { 0x100u32 } else { 0 })
        &&& x & 0xe00 == v * 0x200
        &&& x & 0xfffff000 == a
    }) by (bit_vector)
        requires
            a & 0xfff == 0,
            v < 8,
            x == a | (v << 9u32) | (if g { 0x100u32 } else { 0 }) | (if pat { 0x80u32 } else { 0 })
                | (if dirty { 0x40u32 } else { 0 }) | (if acc { 0x20u32 } else { 0 }) | (if pcd {
                0x10u32
            } else {
                0
            }) | (if pwt { 0x8u32 } else { 0 }) | (if us { 0x4u32 } else { 0 }) | (if rw {
                0x2u32
            } else {
                0
            }) | (if p { 0x1u32 } else { 0 }),
    ;
}

/// Decoding reads each field of a word from its bit: a directory word's
/// present flag from bit 0, writable from bit 1, user from bit 2; a page
/// table word's likewise, and its global flag from bit 8.
pub proof fn lemma_word_flag_positions(x: u32)
    ensures
        pde_from_bits(x).p == (x & 0x1 == 0x1),
        pde_from_bits(x).r_w == (x & 0x2 == 0x2),
        pde_from_bits(x).u_s == (x & 0x4 == 0x4),
        pde_from_bits(x).address == x & 0xfffff000,
        frame_from_bits(x).p == (x & 0x1 == 0x1),
        frame_from_bits(x).r_w == (x & 0x2 == 0x2),
        frame_from_bits(x).u_s == (x & 0x4 == 0x4),
        frame_from_bits(x).g == (x & 0x100 == 0x100),
        frame_from_bits(x).address == x & 0xfffff000,
{
    assert((x & 0x1 != 0) == (x & 0x1 == 0x1) && (x & 0x2 != 0) == (x & 0x2 == 0x2) && (x & 0x4
        != 0) == (x & 0x4 == 0x4) && (x & 0x100 != 0) == (x & 0x100 == 0x100)) by (bit_vector);
}

/// Every page table word is the encoding of the well-formed entry it decodes to.
pub proof fn lemma_frame_encode_decode(x: u32)
    ensures
        frame_from_bits(x).well_formed(),
        frame_from_bits(x).spec_bits() == x,
{
    let v = (x & 0xe00) >> 9u32;
    assert(v < 8 && v == ((v as u8) as u32)) by (bit_vector)
        requires
            v == (x & 0xe00) >> 9u32,
    ;
    assert(((x & 0xfffff000) & 0xfff == 0) && x == (x & 0xfffff000) | (v << 9u32) | (if x & 0x100
        != 0 { 0x100u32 } else { 0 }) | (if x & 0x80 != 0 { 0x80u32 } else { 0 }) | (if x & 0x40
        != 0 { 0x40u32 } else { 0 }) | (if x & 0x20 != 0 { 0x20u32 } else { 0 }) | (if x & 0x10 != 0 {
        0x10u32
    } else {
        0
    }) | (if x & 0x8 != 0 { 0x8u32 } else { 0 }) | (if x & 0x4 != 0 { 0x4u32 } else { 0 }) | (if x
        & 0x2 != 0 { 0x2u32 } else { 0 }) | (if x & 0x1 != 0 { 0x1u32 } else { 0 })) by (bit_vector)
        requires
            v == (x & 0xe00) >> 9u32,
    ;
}

// ---------------------------------------------------------------------------
// Virtual addresses.

/// The directory index of an address: bits 31:22.
pub open spec fn dir_of(v: int) -> int {
    v / 4096 / 1024
}

/// The page table index of an address: bits 21:12.
pub open spec fn slot_of(v: int) -> int {
    v / 4096 % 1024
}

/// The number of the 4 KiB page that holds an address.
pub open spec fn page_of(v: int) -> int {
    v / 4096
}

proof fn lemma_address_bits(x: u32)
    ensures
        x >> 22u32 == x / 4096 / 1024,
        (x & 0x3ff000) >> 12u32 == x / 4096 % 1024,
        x & 0xfff == x % 4096,
{
    assert(x >> 22u32 == x / 4096 / 1024 && (x & 0x3ff000) >> 12u32 == x / 4096 % 1024 && x & 0xfff
        == x % 4096) by (bit_vector);
}

impl VirtAddress {
    /// Index of the directory entry for this address (10 bits).
    pub fn dir_offset(&self) -> (r: usize)
        ensures
            r == dir_of(self.0 as int),
            r < 1024,
    {
        proof {
            lemma_address_bits(self.0);
        }
        (self.0 >> 22) as usize
    }

    /// Index of the page table entry for this address (10 bits).
    pub fn frame_index(&self) -> (r: usize)
        ensures
            r == slot_of(self.0 as int),
            r < 1024,
    {
        proof {
            lemma_address_bits(self.0);
        }
        let res = ((self.0 & 0b0000000000_1111111111_000000000000) >> 12) as usize;
        res
    }

    /// Offset within the page (12 bits).
    pub fn offset(&self) -> (r: u32)
        ensures
            r == self.0 % 4096,
    {
        proof {
            lemma_address_bits(self.0);
        }
        self.0 & 0b0000000000_0000000000_111111111111
    }
}

/// An address is its directory index, its table index and its offset put
/// back together.
pub proof fn lemma_virt_address_parts(v: VirtAddress)
    ensures
        v.0 == dir_of(v.0 as int) * 0x400000 + slot_of(v.0 as int) * 4096 + v.0 % 4096,
        0 <= dir_of(v.0 as int) < 1024,
        0 <= slot_of(v.0 as int) < 1024,
{
}

// ---------------------------------------------------------------------------
// Entries.

impl PageDirectoryEntry {
    /// The entry that maps nothing.
    pub fn null() -> (r: Self)
        ensures
            r == (PageDirectoryEntry {
                address: 0,
                avl: 0,
                ps: false,
                avl2: false,
                accessed: false,
                cannot_cache: false,
                pwt: true,
                u_s: false,
                r_w: false,
                p: false,
            }),
    {
        Self {
            address: 0,
            avl: 0,
            ps: false,
            avl2: false,
            accessed: false,
            cannot_cache: false,
            pwt: true,
            u_s: false,
            r_w: false,
            p: false,
        }
    }

    pub fn is_present(&self) -> (r: bool)
        ensures
            r == self.p,
    {
        self.p
    }
}

impl PageFrame {
    /// The entry that maps nothing.
    pub fn null() -> (r: PageFrame)
        ensures
            r == (PageFrame {
                address: 0,
                avl: 0,
                g: false,
                pat: false,
                dirty: false,
                accessed: false,
                pcd: false,
                pwt: true,
                u_s: false,
                r_w: false,
                p: false,
            }),
    {
        PageFrame {
            address: 0,
            avl: 0,
            g: false,
            pat: false,
            dirty: false,
            accessed: false,
            pcd: false,
            pwt: true,
            u_s: false,
            r_w: false,
            p: false,
        }
    }
}

fn bit(b: bool, mask: u32) -> (r: u32)
    ensures
        r == flag(b, mask),
{
    if b {
        mask
    } else {
        0
    }
}

impl core::ops::Deref for PDEMemRep {
    type Target = u32;

    fn deref(&self) -> (r: &u32)
        ensures
            *r == self.0,
    {
        &self.0
    }
}

impl From<u32> for PDEMemRep {
    fn from(val: u32) -> (r: Self) {
        PDEMemRep(val)
    }
}

impl vstd::std_specs::convert::FromSpecImpl<u32> for PDEMemRep {
    open spec fn obeys_from_spec() -> bool {
        true
    }

    open spec fn from_spec(v: u32) -> Self {
        PDEMemRep(v)
    }
}

impl From<PageDirectoryEntry> for PDEMemRep {
    fn from(val: PageDirectoryEntry) -> (r: Self) {
        PDEMemRep(
            (val.address) | ((val.avl as u32) << 8) | bit(val.ps, 0x80) | bit(val.avl2, 0x40) | bit(
                val.accessed,
                0x20,
            ) | bit(val.cannot_cache, 0x10) | bit(val.pwt, 0x8) | bit(val.u_s, 0x4) | bit(
                val.r_w,
                0x2,
            ) | bit(val.p, 0x1),
        )
    }
}

impl vstd::std_specs::convert::FromSpecImpl<PageDirectoryEntry> for PDEMemRep {
    open spec fn obeys_from_spec() -> bool {
        true
    }

    open spec fn from_spec(v: PageDirectoryEntry) -> Self {
        PDEMemRep(v.spec_bits())
    }
}

impl From<PageDirectoryEntry> for u32 {
    fn from(val: PageDirectoryEntry) -> (r: Self) {
        PDEMemRep::from(val).0
    }
}

impl vstd::std_specs::convert::FromSpecImpl<PageDirectoryEntry> for u32 {
    open spec fn obeys_from_spec() -> bool {
        true
    }

    open spec fn from_spec(v: PageDirectoryEntry) -> Self {
        v.spec_bits()
    }
}

impl From<PDEMemRep> for PageDirectoryEntry {
    fn from(mem_rep: PDEMemRep) -> (r: Self) {
        PageDirectoryEntry {
            address: *mem_rep & 0b11111111111111111111000000000000,
            avl: ((*mem_rep & 0xf00) >> 8) as u8,
            ps: *mem_rep & 0b10000000 != 0,
            avl2: *mem_rep & 0b01000000 != 0,
            accessed: *mem_rep & 0b00100000 != 0,
            cannot_cache: *mem_rep & 0b00010000 != 0,
            pwt: *mem_rep & 0b00001000 != 0,
            u_s: *mem_rep & 0b00000100 != 0,
            r_w: *mem_rep & 0b00000010 != 0,
            p: *mem_rep & 0b00000001 != 0,
        }
    }
}

impl vstd::std_specs::convert::FromSpecImpl<PDEMemRep> for PageDirectoryEntry {
    open spec fn obeys_from_spec() -> bool {
        true
    }

    open spec fn from_spec(v: PDEMemRep) -> Self {
        pde_from_bits(v.0)
    }
}

impl core::ops::Deref for PageFrameMemRep {
    type Target = u32;

    fn deref(&self) -> (r: &u32)
        ensures
            *r == self.0,
    {
        &self.0
    }
}

impl From<PageFrame> for PageFrameMemRep {
    fn from(val: PageFrame) -> (r: Self) {
        PageFrameMemRep(
            (val.address) | ((val.avl as u32) << 9) | bit(val.g, 0x100) | bit(val.pat, 0x80) | bit(
                val.dirty,
                0x40,
            ) | bit(val.accessed, 0x20) | bit(val.pcd, 0x10) | bit(val.pwt, 0x8) | bit(
                val.u_s,
                0x4,
            ) | bit(val.r_w, 0x2) | bit(val.p, 0x1),
        )
    }
}

impl vstd::std_specs::convert::FromSpecImpl<PageFrame> for PageFrameMemRep {
    open spec fn obeys_from_spec() -> bool {
        true
    }

    open spec fn from_spec(v: PageFrame) -> Self {
        PageFrameMemRep(v.spec_bits())
    }
}

impl From<PageFrameMemRep> for PageFrame {
    fn from(mem_rep: PageFrameMemRep) -> (r: Self) {
        PageFrame {
            address: *mem_rep & 0b11111111111111111111000000000000,
            avl: ((*mem_rep & 0b111000000000) >> 9) as u8,
            g: *mem_rep & 0b100000000 != 0,
            pat: *mem_rep & 0b10000000 != 0,
            dirty: *mem_rep & 0b01000000 != 0,
            accessed: *mem_rep & 0b00100000 != 0,
            pcd: *mem_rep & 0b00010000 != 0,
            pwt: *mem_rep & 0b00001000 != 0,
            u_s: *mem_rep & 0b00000100 != 0,
            r_w: *mem_rep & 0b00000010 != 0,
            p: *mem_rep & 0b00000001 != 0,
        }
    }
}

impl vstd::std_specs::convert::FromSpecImpl<PageFrameMemRep> for PageFrame {
    open spec fn obeys_from_spec() -> bool {
        true
    }

    open spec fn from_spec(v: PageFrameMemRep) -> Self {
        frame_from_bits(v.0)
    }
}

// ---------------------------------------------------------------------------
// The tables in memory.

/// The page directory, the page tables after it, and how many of the page
/// tables have been handed out.
pub struct PagingMemory {
    pub directory: PageDirectoryTable,
    pub tables: [PageTable; NUM_PTS],
    pub loaded_page_tables: u32,
}

impl PageDirectoryTable {
    /// A directory whose words are all zero.
    pub fn zeroed() -> (r: PageDirectoryTable)
        ensures
            forall|i: int| 0 <= i < 1024 ==> #[trigger] r.pde@[i] == PDEMemRep(0),
    {
        PageDirectoryTable { pde: [PDEMemRep(0);1024] }
    }
}

impl PageTable {
    /// A page table whose words are all zero.
    pub fn zeroed() -> (r: PageTable)
        ensures
            forall|i: int| 0 <= i < 1024 ==> #[trigger] r.page_frames@[i] == PageFrameMemRep(0),
    {
        PageTable { page_frames: [PageFrameMemRep(0);1024] }
    }
}

impl PagingMemory {
    /// All tables zero, none handed out.
    pub fn new() -> (r: PagingMemory)
        ensures
            r.loaded_page_tables == 0,
            forall|i: int| 0 <= i < 1024 ==> #[trigger] r.directory.pde@[i] == PDEMemRep(0),
            forall|k: int, i: int|
                0 <= k < NUM_PTS && 0 <= i < 1024 ==> #[trigger] r.tables@[k].page_frames@[i]
                    == PageFrameMemRep(0),
    {
        let t = PageTable::zeroed();
        PagingMemory {
            directory: PageDirectoryTable::zeroed(),
            tables: [t;NUM_PTS],
            loaded_page_tables: 0,
        }
    }

    /// The directory entry for `v`, decoded.
    pub open spec fn dir_entry(self, v: u32) -> PageDirectoryEntry {
        pde_from_bits(self.directory.pde@[dir_of(v as int)].0)
    }

    /// Which of the page tables the directory entry for `v` points at.
    pub open spec fn table_of(self, v: u32) -> int {
        (self.dir_entry(v).address - PTS_ADDR) / (TABLE_SIZE as int)
    }

    /// The address in the directory entry for `v` is that of one of the page
    /// tables (whether or not the entry is present).
    pub open spec fn walk_reaches_table(self, v: u32) -> bool {
        let a = self.dir_entry(v).address as int;
        &&& PTS_ADDR <= a
        &&& (a - PTS_ADDR) % (TABLE_SIZE as int) == 0
        &&& self.table_of(v) < NUM_PTS
    }

    /// The page table entry for `v`, decoded.
    pub open spec fn frame_entry(self, v: u32) -> PageFrame {
        frame_from_bits(self.tables@[self.table_of(v)].page_frames@[slot_of(v as int)].0)
    }

    /// The physical address that a walk from the directory entry for `v`
    /// through its page table entry gives, present bits aside.
    pub open spec fn walk_address(self, v: u32) -> int {
        self.frame_entry(v).address + v % 4096
    }
}

impl VirtAddress {
    /// Walks the directory and the page table to the physical address.
    pub fn to_physical(&self, memory: &PagingMemory) -> (r: u32)
        requires
            memory.walk_reaches_table(self.0),
        ensures
            r == memory.walk_address(self.0),
    {
        let entry = PageDirectoryEntry::from(memory.directory.pde[self.dir_offset()]);
        let table = ((entry.address - PTS_ADDR) / TABLE_SIZE) as usize;
        let frame = PageFrame::from(memory.tables[table].page_frames[self.frame_index()]);
        proof {
            let x = memory.tables@[table as int].page_frames@[slot_of(self.0 as int)].0;
            assert((x & 0xfffff000) & 0xfff == 0 && (x & 0xfffff000) <= 0xfffff000) by (bit_vector);
        }
        frame.address + self.offset()
    }
}

/// The page table entry that `map_pages` writes for a page at `address`.
pub open spec fn mapped_frame(address: u32) -> PageFrame {
    PageFrame {
        address,
        avl: 0x0,
        g: true,
        pat: false,
        dirty: false,
        accessed: false,
        pcd: false,
        pwt: true,
        u_s: true,
        r_w: true,
        p: true,
    }
}

/// The directory entry that `map_pages` writes for a page table at `address`.
pub open spec fn table_directory_entry(address: u32) -> PageDirectoryEntry {
    PageDirectoryEntry {
        address,
        avl: 0xf,
        ps: false,
        avl2: false,
        accessed: false,
        cannot_cache: false,
        pwt: true,
        u_s: true,
        r_w: true,
        p: true,
    }
}

/// Physical address of page table `k`.
pub open spec fn table_address(k: int) -> u32 {
    (PTS_ADDR + k * TABLE_SIZE) as u32
}

/// How many page tables the pages from `start` to `end` take.
pub open spec fn tables_needed(start: u32, end: u32) -> int {
    dir_of(end as int) - dir_of(start as int) + 1
}

/// The page whose entry sits in slot `i` of table `k`, when the tables
/// from `loaded` on hold the pages from `start` on.
pub open spec fn slot_page(start: u32, loaded: int, k: int, i: int) -> int {
    (dir_of(start as int) + k - loaded) * 1024 + i
}

/// Slot `i` of table `k` holds one of the pages from `start` up to page
/// number `last`.
pub open spec fn slot_mapped(start: u32, last: int, loaded: int, k: int, i: int) -> bool {
    &&& loaded <= k
    &&& 0 <= i < 1024
    &&& page_of(start as int) <= slot_page(start, loaded, k, i) <= last
}

/// What `map_pages` needs: the pages are 4 KiB aligned and in order, the
/// addresses do not run past 4 GiB, and enough page tables are left.
pub open spec fn map_pages_requires(loaded: u32, start: u32, end: u32, phys_start: u32) -> bool {
    &&& start % 4096 == 0
    &&& end % 4096 == 0
    &&& start <= end
    &&& end + 4096 <= u32::MAX
    &&& phys_start + (end - start) + 4096 <= u32::MAX
    &&& loaded + tables_needed(start, end) <= NUM_PTS
}

/// What `map_pages` does: the pages from `start` to `end` go, in order,
/// to the frames from `phys_start` on, in the page tables from the first
/// free one on, and the directory entries for those pages point at these
/// tables. Nothing else changes.
pub open spec fn map_pages_ensures(
    before: PagingMemory,
    after: PagingMemory,
    start: u32,
    end: u32,
    phys_start: u32,
) -> bool {
    let loaded = before.loaded_page_tables as int;
    let n = tables_needed(start, end);
    let d0 = dir_of(start as int);
    &&& after.loaded_page_tables == loaded + n
    &&& forall|d: int|
        0 <= d < 1024 ==> #[trigger] after.directory.pde@[d] == if d0 <= d < d0 + n {
            PDEMemRep(table_directory_entry(table_address(loaded + d - d0)).spec_bits())
        } else {
            before.directory.pde@[d]
        }
    &&& forall|k: int, i: int|
        0 <= k < NUM_PTS && 0 <= i < 1024 ==> #[trigger] after.tables@[k].page_frames@[i] == if slot_mapped(
            start,
            page_of(end as int),
            loaded,
            k,
            i,
        ) {
            PageFrameMemRep(
                mapped_frame(
                    (phys_start + 4096 * (slot_page(start, loaded, k, i) - page_of(
                        start as int,
                    ))) as u32,
                ).spec_bits(),
            )
        } else {
            before.tables@[k].page_frames@[i]
        }
}


/// Maps the pages `start, start + 4 KiB, ..., end` to the frames
/// `phys_start, phys_start + 4 KiB, ...`. Their entries go to the page
/// tables from the first free one on, and the directory entries for those
/// pages are pointed at these tables. `start` and `end` are 4 KiB aligned;
/// `end` is the address of the last page to map.
pub fn map_pages(mem: &mut PagingMemory, start: VirtAddress, end: VirtAddress, phys_start: u32)
    requires
        map_pages_requires(old(mem).loaded_page_tables, start.0, end.0, phys_start),
    ensures
        map_pages_ensures(*old(mem), *final(mem), start.0, end.0, phys_start),
{
    let ghost before = *mem;
    let ghost loaded = mem.loaded_page_tables as int;
    let ghost s0 = page_of(start.0 as int);
    let ghost d0 = dir_of(start.0 as int);
    let ghost n = tables_needed(start.0, end.0);
    let mut current_virtual = start;
    let mut current_phys: u32 = phys_start;
    let first_table = mem.loaded_page_tables as usize;
    let start_dir = start.dir_offset();

    while current_virtual.0 <= end.0
        invariant
            map_pages_requires(before.loaded_page_tables, start.0, end.0, phys_start),
            loaded == before.loaded_page_tables,
            s0 == page_of(start.0 as int),
            d0 == dir_of(start.0 as int),
            n == tables_needed(start.0, end.0),
            first_table == loaded,
            start_dir == d0,
            start.0 <= current_virtual.0 <= end.0 + 4096,
            current_virtual.0 % 4096 == 0,
            current_phys == phys_start + (current_virtual.0 - start.0),
            mem.loaded_page_tables == before.loaded_page_tables,
            mem.directory.pde@ == before.directory.pde@,
            forall|k: int, i: int|
                0 <= k < NUM_PTS && 0 <= i < 1024 ==> #[trigger] mem.tables@[k].page_frames@[i]
                    == if slot_mapped(start.0, page_of(current_virtual.0 as int) - 1, loaded, k, i) {
                    PageFrameMemRep(
                        mapped_frame((phys_start + 4096 * (slot_page(start.0, loaded, k, i) - s0)) as u32).spec_bits(),
                    )
                } else {
                    before.tables@[k].page_frames@[i]
                },
        decreases end.0 + 4096 - current_virtual.0,
    {
        let ghost c = current_virtual.0 as int;
        let dir = current_virtual.dir_offset();
        proof {
            vstd::arithmetic::div_mod::lemma_div_is_ordered(c / 4096, end.0 as int / 4096, 1024);
            vstd::arithmetic::div_mod::lemma_div_is_ordered(s0, c / 4096, 1024);
            vstd::arithmetic::div_mod::lemma_div_is_ordered(start.0 as int, c, 4096);
            vstd::arithmetic::div_mod::lemma_div_is_ordered(c, end.0 as int, 4096);
        }
        let current_table = first_table + (dir - start_dir);
        let slot = current_virtual.frame_index();
        let entry = PageFrameMemRep::from(
            PageFrame {
                address: current_phys,
                avl: 0x0,
                g: true,
                pat: false,
                dirty: false,
                accessed: false,
                pcd: false,
                pwt: true,
                u_s: true,
                r_w: true,
                p: true,
            },
        );
        let ghost prev = *mem;
        mem.tables[current_table].page_frames[slot] = entry;
        proof {
            assert(slot_page(start.0, loaded, current_table as int, slot as int) == c / 4096);
            assert forall|k: int, i: int|
                0 <= k < NUM_PTS && 0 <= i < 1024 implies #[trigger] mem.tables@[k].page_frames@[i]
                    == if slot_mapped(start.0, page_of(c + 4096) - 1, loaded, k, i) {
                    PageFrameMemRep(
                        mapped_frame((phys_start + 4096 * (slot_page(start.0, loaded, k, i) - s0)) as u32).spec_bits(),
                    )
                } else {
                    before.tables@[k].page_frames@[i]
                } by {
                if k == current_table && i == slot {
                } else {
                    assert(prev.tables@[k].page_frames@[i] == mem.tables@[k].page_frames@[i]);
                    assert(slot_page(start.0, loaded, k, i) != c / 4096);
                }
            }
        }
        current_virtual.0 = current_virtual.0 + 4096;
        current_phys = current_phys + 4096;
    }

    current_virtual.0 = current_virtual.0 - 4096;
    let tables_to_load = current_virtual.dir_offset() - start.dir_offset() + 1;
    let ghost tables_after_frames = mem.tables;
    for i in 0..tables_to_load
        invariant
            map_pages_requires(before.loaded_page_tables, start.0, end.0, phys_start),
            loaded == before.loaded_page_tables,
            d0 == dir_of(start.0 as int),
            n == tables_needed(start.0, end.0),
            tables_to_load == n,
            mem.loaded_page_tables == before.loaded_page_tables,
            mem.tables == tables_after_frames,
            forall|d: int|
                0 <= d < 1024 ==> #[trigger] mem.directory.pde@[d] == if d0 <= d < d0 + i {
                    PDEMemRep(table_directory_entry(table_address(loaded + d - d0)).spec_bits())
                } else {
                    before.directory.pde@[d]
                },
    {
        proof {
            vstd::arithmetic::div_mod::lemma_fundamental_div_mod(start.0 as int, 0x400000);
        }
        let address = VirtAddress(start.0 + 4 * 1024 * 1024 * i as u32);
        let table_addr: u32 = PTS_ADDR + ((mem.loaded_page_tables + i as u32) * TABLE_SIZE);
        let d = address.dir_offset();
        mem.directory.pde[d] = PDEMemRep::from(
            PageDirectoryEntry {
                address: table_addr,
                avl: 0xf,
                ps: false,
                avl2: false,
                accessed: false,
                cannot_cache: false,
                pwt: true,
                u_s: true,
                r_w: true,
                p: true,
            },
        );
    }
    mem.loaded_page_tables = mem.loaded_page_tables + tables_to_load as u32;
}


/// Every address in the mapped range translates to the same offset from
/// `phys_start` as it has from `start`.
pub proof fn lemma_map_pages_translation(
    before: PagingMemory,
    after: PagingMemory,
    start: u32,
    end: u32,
    phys_start: u32,
    v: u32,
)
    requires
        map_pages_requires(before.loaded_page_tables, start, end, phys_start),
        map_pages_ensures(before, after, start, end, phys_start),
        phys_start % 4096 == 0,
        start <= v < end + 4096,
    ensures
        after.walk_reaches_table(v),
        after.table_of(v) == before.loaded_page_tables + dir_of(v as int) - dir_of(start as int),
        after.dir_entry(v) == table_directory_entry(table_address(after.table_of(v))),
        after.frame_entry(v) == mapped_frame((phys_start + (page_of(v as int) - page_of(start as int)) * 4096) as u32),
        after.walk_address(v) == phys_start + (v - start),
{
    let loaded = before.loaded_page_tables as int;
    let d0 = dir_of(start as int);
    let d = dir_of(v as int);
    vstd::arithmetic::div_mod::lemma_div_is_ordered(start as int, v as int, 4096);
    vstd::arithmetic::div_mod::lemma_div_is_ordered(v as int, end as int + 4095, 4096);
    vstd::arithmetic::div_mod::lemma_div_is_ordered(v as int / 4096, end as int / 4096, 1024);
    vstd::arithmetic::div_mod::lemma_div_is_ordered(start as int / 4096, v as int / 4096, 1024);
    let k = loaded + d - d0;
    let ta = table_address(k);
    assert(ta == PTS_ADDR + k * 4096);
    assert(after.directory.pde@[d] == PDEMemRep(table_directory_entry(ta).spec_bits()));
    assert(ta & 0xfff == 0) by (bit_vector)
        requires
            ta % 4096 == 0,
    ;
    lemma_pde_decode_encode(table_directory_entry(ta));
    assert(after.dir_entry(v).address == ta);
    assert(after.table_of(v) == k);
    let i = slot_of(v as int);
    assert(slot_mapped(start, page_of(end as int), loaded, k, i));
    let fa = (phys_start + 4096 * (slot_page(start, loaded, k, i) - page_of(start as int))) as u32;
    assert(fa as int == phys_start + 4096 * (v as int / 4096 - start as int / 4096));
    assert(fa & 0xfff == 0) by (bit_vector)
        requires
            fa % 4096 == 0,
    ;
    lemma_frame_decode_encode(mapped_frame(fa));
}

/// Addresses outside the directory entries that `map_pages` fills, and
/// whose page table was handed out before, translate as they did before.
pub proof fn lemma_map_pages_preserves(
    before: PagingMemory,
    after: PagingMemory,
    start: u32,
    end: u32,
    phys_start: u32,
    v: u32,
)
    requires
        map_pages_requires(before.loaded_page_tables, start, end, phys_start),
        map_pages_ensures(before, after, start, end, phys_start),
        before.walk_reaches_table(v),
        before.table_of(v) < before.loaded_page_tables,
        !(dir_of(start as int) <= dir_of(v as int) < dir_of(start as int) + tables_needed(start, end)),
    ensures
        after.walk_reaches_table(v),
        after.table_of(v) == before.table_of(v),
        after.dir_entry(v) == before.dir_entry(v),
        after.frame_entry(v) == before.frame_entry(v),
        after.walk_address(v) == before.walk_address(v),
{
    let d = dir_of(v as int);
    assert(after.directory.pde@[d] == before.directory.pde@[d]);
    let k = before.table_of(v);
    let i = slot_of(v as int);
    assert(after.tables@[k].page_frames@[i] == before.tables@[k].page_frames@[i]);
}

/// Identity-maps the first MiB and maps the physical range
/// 0x100000 - 0xEFFFFF to the virtual range 0xC0100000 - 0xC0EFFFFF, with
/// the next five free page tables. Each mapped page gets a present,
/// writable, user, global entry (`mapped_frame`) and each directory entry
/// used a present, writable, user entry pointing at its table
/// (`table_directory_entry`). Directory entries other than the first and
/// 0x300 - 0x303, and the other page tables, stay as they were.
pub fn init(mem: &mut PagingMemory)
    requires
        old(mem).loaded_page_tables + 5 <= NUM_PTS,
    ensures
        final(mem).loaded_page_tables == old(mem).loaded_page_tables + 5,
        forall|v: u32|
            v < 0x100000 ==> {
                &&& #[trigger] final(mem).walk_reaches_table(v)
                &&& final(mem).dir_entry(v) == table_directory_entry(
                    table_address(old(mem).loaded_page_tables as int),
                )
                &&& final(mem).frame_entry(v) == mapped_frame((page_of(v as int) * 4096) as u32)
                &&& final(mem).walk_address(v) == v
            },
        forall|v: u32|
            0xC0100000 <= v < 0xC0F00000 ==> {
                &&& #[trigger] final(mem).walk_reaches_table(v)
                &&& final(mem).dir_entry(v) == table_directory_entry(
                    table_address(old(mem).loaded_page_tables + 1 + dir_of(v as int) - 0x300),
                )
                &&& final(mem).frame_entry(v) == mapped_frame(
                    (page_of(v as int) * 4096 - 0xC0000000) as u32,
                )
                &&& final(mem).walk_address(v) == v - 0xC0000000
            },
        forall|d: int|
            0 <= d < 1024 && d != 0 && !(0x300 <= d < 0x304) ==> #[trigger] final(mem).directory.pde@[d]
                == old(mem).directory.pde@[d],
        forall|k: int|
            0 <= k < NUM_PTS && !(old(mem).loaded_page_tables <= k < old(mem).loaded_page_tables
                + 5) ==> #[trigger] final(mem).tables@[k].page_frames@
                == old(mem).tables@[k].page_frames@,
        // The only page table slots written are those of the 256 pages of the
        // first MiB, in the first free table, and those of the pages from
        // 0xC0100000 to 0xC0EFF000, in the four tables after it.
        forall|k: int, i: int|
            0 <= k < NUM_PTS && 0 <= i < 1024 && !(k == old(mem).loaded_page_tables && i < 256)
                && !(old(mem).loaded_page_tables + 1 <= k < old(mem).loaded_page_tables + 5
                && 0xC0100 <= (0x300 + k - old(mem).loaded_page_tables - 1) * 1024 + i < 0xC0F00)
                ==> #[trigger] final(mem).tables@[k].page_frames@[i]
                == old(mem).tables@[k].page_frames@[i],
{
    let ghost m0 = *mem;
    // We are identity mapping the first MiB, that is, 256 page frames.
    let ident_start_frame = VirtAddress(0x0);
    let ident_end_frame = VirtAddress(255 * 4096);
    map_pages(mem, ident_start_frame, ident_end_frame, 0x0);
    let ghost m1 = *mem;

    // Map physical addresses 0x100000 - 0xEFFFFF
    // to virtual 0xC0100000 - 0xC0EFFFFF.
    let start_addr = VirtAddress(0xC0100000);
    let final_addr = VirtAddress(0xC0EFF000);
    map_pages(mem, start_addr, final_addr, 0x00100000);
    proof {
        assert forall|v: u32| v < 0x100000 implies {
            &&& #[trigger] mem.walk_reaches_table(v)
            &&& mem.dir_entry(v) == table_directory_entry(table_address(m0.loaded_page_tables as int))
            &&& mem.frame_entry(v) == mapped_frame((page_of(v as int) * 4096) as u32)
            &&& mem.walk_address(v) == v
        } by {
            lemma_map_pages_translation(m0, m1, 0, 0xFF000, 0, v);
            lemma_map_pages_preserves(m1, *mem, 0xC0100000, 0xC0EFF000, 0x00100000, v);
        }
        assert forall|v: u32| 0xC0100000 <= v < 0xC0F00000 implies {
            &&& #[trigger] mem.walk_reaches_table(v)
            &&& mem.dir_entry(v) == table_directory_entry(
                table_address(m0.loaded_page_tables + 1 + dir_of(v as int) - 0x300),
            )
            &&& mem.frame_entry(v) == mapped_frame((page_of(v as int) * 4096 - 0xC0000000) as u32)
            &&& mem.walk_address(v) == v - 0xC0000000
        } by {
            lemma_map_pages_translation(m1, *mem, 0xC0100000, 0xC0EFF000, 0x00100000, v);
        }
        assert forall|k: int, i: int|
            0 <= k < NUM_PTS && 0 <= i < 1024 && !(k == m0.loaded_page_tables && i < 256) && !(
            m0.loaded_page_tables + 1 <= k < m0.loaded_page_tables + 5 && 0xC0100 <= (0x300 + k
                - m0.loaded_page_tables - 1) * 1024 + i < 0xC0F00) implies #[trigger] mem.tables@[k].page_frames@[i]
            == m0.tables@[k].page_frames@[i] by {
            assert(m1.tables@[k].page_frames@[i] == m0.tables@[k].page_frames@[i]);
        }
        assert forall|k: int|
            0 <= k < NUM_PTS && !(m0.loaded_page_tables <= k < m0.loaded_page_tables + 5) implies #[trigger] mem.tables@[k].page_frames@ == m0.tables@[k].page_frames@ by {
            assert(mem.tables@[k].page_frames@ =~= m0.tables@[k].page_frames@);
        }
    }
}

/// The control register values that turn on 32-bit paging with 4 KiB
/// pages, from the current `cr0`, `cr3` and `cr4` and the page directory's
/// physical address:
/// - CR0: PG (bit 31), WP (bit 16) and PE (bit 0) set;
/// - CR3: the directory's address, page-level write-through (bit 3), and
///   the current low twelve bits kept;
/// - CR4: PGE (bit 7) set, PSE (bit 4) and PAE (bit 5) cleared.
pub fn paging_control_registers(cr0: u32, cr3: u32, cr4: u32, pdt_addr: u32) -> (r: (u32, u32, u32))
    ensures
        r.0 == cr0 | 0x8001_0001,
        r.1 == (cr3 & 0xFFF) | pdt_addr | 0x8,
        r.2 == (cr4 | 0x80) & 0xFFFF_FFCF,
        r.0 & 0x8001_0001 == 0x8001_0001,
        r.0 & !0x8001_0001u32 == cr0 & !0x8001_0001u32,
        pdt_addr & 0xFFF == 0 ==> r.1 & 0xFFFF_F000 == pdt_addr,
        r.1 & 0x8 == 0x8,
        r.2 & 0x80 == 0x80,
        r.2 & 0x30 == 0,
        r.2 & !0xB0u32 == cr4 & !0xB0u32,
{
    let new_cr0 = cr0 | 0b10000000000000010000000000000001;
    let new_cr3 = ((cr3 & 0x00000FFF) | pdt_addr) | 0b1000;
    let new_cr4 = (cr4 | 0b10000000) & 0b11111111111111111111111111001111;
    assert(new_cr0 & 0x8001_0001 == 0x8001_0001 && new_cr0 & !0x8001_0001u32 == cr0
        & !0x8001_0001u32 && new_cr3 & 0x8 == 0x8 && (pdt_addr & 0xFFF == 0 ==> new_cr3
        & 0xFFFF_F000 == pdt_addr) && new_cr4 & 0x80 == 0x80 && new_cr4 & 0x30 == 0 && new_cr4
        & !0xB0u32 == cr4 & !0xB0u32) by (bit_vector)
        requires
            new_cr0 == cr0 | 0x8001_0001,
            new_cr3 == ((cr3 & 0xFFF) | pdt_addr) | 0x8,
            new_cr4 == (cr4 | 0x80) & 0xFFFF_FFCF,
    ;
    (new_cr0, new_cr3, new_cr4)
}

// maps a full table
// 4 MiB = 1024 page frames * 4 KiB per page frame
fn _map_table(mem: &mut PagingMemory, start: VirtAddress, phys_start: u32)
    requires
        start.0 + 1023 * 4096 <= u32::MAX,
        map_pages_requires(
            old(mem).loaded_page_tables,
            start.0,
            (start.0 + 1023 * 4096) as u32,
            phys_start,
        ),
    ensures
        map_pages_ensures(*old(mem), *final(mem), start.0, (start.0 + 1023 * 4096) as u32, phys_start),
{
    map_pages(mem, start, VirtAddress(start.0 + (1023 * 4096) as u32), phys_start);
}

} // verus!

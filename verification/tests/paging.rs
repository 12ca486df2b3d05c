use diegos::mem::paging::{
    init, map_pages, paging_control_registers, PDEMemRep, PageDirectoryEntry, PageFrame, PageFrameMemRep, PagingMemory,
    VirtAddress, NUM_PTS, PTS_ADDR,
};

#[test]
fn virt_address_parts() {
    let v = VirtAddress(0xC010_0123);
    assert_eq!(v.dir_offset(), 0x300);
    assert_eq!(v.frame_index(), 0x100);
    assert_eq!(v.offset(), 0x123);
    let w = VirtAddress(0xFFFF_FFFF);
    assert_eq!(w.dir_offset(), 1023);
    assert_eq!(w.frame_index(), 1023);
    assert_eq!(w.offset(), 0xFFF);
}

#[test]
fn directory_entry_encoding() {
    let e = PageDirectoryEntry {
        address: 0x77000,
        avl: 0xf,
        ps: false,
        avl2: false,
        accessed: false,
        cannot_cache: false,
        pwt: true,
        u_s: true,
        r_w: true,
        p: true,
    };
    assert_eq!(u32::from(e), 0x77F0F);
    assert_eq!(PDEMemRep::from(e).0, 0x77F0F);
    assert_eq!(PageDirectoryEntry::from(PDEMemRep::from(e)), e);
}

#[test]
fn directory_entry_decoding() {
    let e = PageDirectoryEntry::from(PDEMemRep::from(0xABCD_E5A5u32));
    assert_eq!(e.address, 0xABCD_E000);
    assert_eq!(e.avl, 0x5);
    assert!(e.ps);
    assert!(!e.avl2);
    assert!(e.accessed);
    assert!(!e.cannot_cache);
    assert!(!e.pwt);
    assert!(e.u_s);
    assert!(!e.r_w);
    assert!(e.p);
    assert!(e.is_present());
    for x in [0u32, 1, 0xFFFF_FFFF, 0x1234_5678, 0x8000_0F80] {
        assert_eq!(PDEMemRep::from(PageDirectoryEntry::from(PDEMemRep::from(x))).0, x);
    }
}

#[test]
fn page_frame_round_trip() {
    let f = PageFrame {
        address: 0x0010_0000,
        avl: 0x5,
        g: true,
        pat: false,
        dirty: true,
        accessed: false,
        pcd: true,
        pwt: false,
        u_s: true,
        r_w: false,
        p: true,
    };
    let bits = PageFrameMemRep::from(f);
    assert_eq!(bits.0, 0x0010_0B55);
    assert_eq!(*bits, 0x0010_0B55);
    assert_eq!(PageFrame::from(bits), f);
    for x in [0u32, 1, 0xFFFF_FFFF, 0x1234_5678] {
        assert_eq!(PageFrameMemRep::from(PageFrame::from(PageFrameMemRep(x))).0, x);
    }
}

#[test]
fn null_entries() {
    let d = PageDirectoryEntry::null();
    assert!(!d.is_present());
    assert_eq!(u32::from(d), 0x8);
    let f = PageFrame::null();
    assert!(!f.p);
    assert_eq!(PageFrameMemRep::from(f).0, 0x8);
}

#[test]
fn map_pages_identity_first_mib() {
    let mut mem = PagingMemory::new();
    map_pages(&mut mem, VirtAddress(0), VirtAddress(255 * 4096), 0);
    assert_eq!(mem.loaded_page_tables, 1);
    assert_eq!(mem.directory.pde[0].0, PTS_ADDR | 0xF0F);
    assert_eq!(mem.directory.pde[1].0, 0);
    assert_eq!(mem.tables[0].page_frames[1].0, 0x110F);
    assert_eq!(mem.tables[0].page_frames[255].0, 0xFF10F);
    assert_eq!(mem.tables[0].page_frames[256].0, 0);
    assert_eq!(VirtAddress(0x1234).to_physical(&mem), 0x1234);
    assert_eq!(VirtAddress(0xFFFFF).to_physical(&mem), 0xFFFFF);
}

#[test]
fn map_pages_uses_the_next_free_tables() {
    let mut mem = PagingMemory::new();
    map_pages(&mut mem, VirtAddress(0), VirtAddress(0), 0x5000);
    map_pages(&mut mem, VirtAddress(0x0040_0000), VirtAddress(0x0080_1000), 0x0020_0000);
    assert_eq!(mem.loaded_page_tables, 3);
    assert_eq!(mem.directory.pde[1].0, (PTS_ADDR + 4096) | 0xF0F);
    assert_eq!(mem.directory.pde[2].0, (PTS_ADDR + 2 * 4096) | 0xF0F);
    assert_eq!(mem.directory.pde[3].0, 0);
    // The first table still holds the first mapping.
    assert_eq!(mem.tables[0].page_frames[0].0, 0x510F);
    assert_eq!(VirtAddress(0x0000_0ABC).to_physical(&mem), 0x5ABC);
    assert_eq!(VirtAddress(0x0040_0000).to_physical(&mem), 0x0020_0000);
    assert_eq!(VirtAddress(0x0080_1FFF).to_physical(&mem), 0x0060_1FFF);
    assert_eq!(mem.tables[2].page_frames[1].0, 0x0060_110F);
    assert_eq!(mem.tables[2].page_frames[2].0, 0);
}

#[test]
fn init_maps_first_mib_and_higher_half() {
    let mut mem = PagingMemory::new();
    init(&mut mem);
    assert_eq!(mem.loaded_page_tables, 5);
    assert!(5 <= NUM_PTS);
    for v in [0u32, 0x1000, 0x7_FFFF, 0xF_FFFF] {
        assert_eq!(VirtAddress(v).to_physical(&mem), v);
    }
    for v in [0xC010_0000u32, 0xC010_0ABC, 0xC03F_FFFF, 0xC040_0000, 0xC0CF_FFFF, 0xC0EF_FFFF] {
        assert_eq!(VirtAddress(v).to_physical(&mem), v - 0xC000_0000);
    }
    assert_eq!(mem.directory.pde[0x304].0, 0);
    assert_eq!(mem.directory.pde[0].0, PTS_ADDR | 0xF0F);
    assert_eq!(mem.directory.pde[0x300].0, (PTS_ADDR + 4096) | 0xF0F);
    assert_eq!(mem.directory.pde[0x303].0, (PTS_ADDR + 4 * 4096) | 0xF0F);
    let f = PageFrame::from(mem.tables[1].page_frames[0x100]);
    assert!(f.p && f.r_w && f.u_s && f.g);
    assert_eq!(f.address, 0x0010_0000);
    assert_eq!(mem.tables[5].page_frames[0].0, 0);
}

#[test]
fn control_registers_for_paging() {
    let (cr0, cr3, cr4) = paging_control_registers(0x0000_0011, 0x1234_5678, 0x0000_0230, 0x76000);
    assert_eq!(cr0, 0x8001_0011);
    assert_eq!(cr3, 0x0007_6678);
    assert_eq!(cr4, 0x0000_0280);
}

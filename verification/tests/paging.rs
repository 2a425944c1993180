use yomi_kernel::memory::address::{Page, PhysAddr, PhysFrame, VirtAddr};
use yomi_kernel::memory::paging::{
    FrameStore, PageTable, PageTableEntry, PageTableFlags, PageTableManager, PagingError,
    TableLevel, TlbOp,
};

#[test]
fn test_page_table_entry() {
    let mut entry = PageTableEntry::new();
    assert!(entry.is_unused());

    let frame = PhysFrame::containing_address(PhysAddr::new(0x1000));
    let flags = PageTableFlags::present() | PageTableFlags::writable();
    entry.set_frame(frame, flags);

    assert!(!entry.is_unused());
    assert!(entry.flags().contains(PageTableFlags::present()));
    assert!(entry.flags().contains(PageTableFlags::writable()));
    assert_eq!(entry.frame(), Some(frame));
}

#[test]
fn test_page_table_indexing() {
    let mut table = PageTable::new();
    assert!(table[0].is_unused());

    let frame = PhysFrame::containing_address(PhysAddr::new(0x1000));
    table.entry_mut(0).set_frame(frame, PageTableFlags::present());
    assert!(!table[0].is_unused());
}

#[test]
fn test_page_table_flags() {
    let flags = PageTableFlags::present()
        | PageTableFlags::writable()
        | PageTableFlags::user_accessible();

    assert!(flags.contains(PageTableFlags::present()));
    assert!(flags.contains(PageTableFlags::writable()));
    assert!(flags.contains(PageTableFlags::user_accessible()));
    assert!(!flags.contains(PageTableFlags::no_execute()));
}

#[test]
fn flag_bits_are_those_of_the_architecture() {
    assert_eq!(PageTableFlags::present().bits(), 1 << 0);
    assert_eq!(PageTableFlags::writable().bits(), 1 << 1);
    assert_eq!(PageTableFlags::user_accessible().bits(), 1 << 2);
    assert_eq!(PageTableFlags::write_through().bits(), 1 << 3);
    assert_eq!(PageTableFlags::no_cache().bits(), 1 << 4);
    assert_eq!(PageTableFlags::accessed().bits(), 1 << 5);
    assert_eq!(PageTableFlags::dirty().bits(), 1 << 6);
    assert_eq!(PageTableFlags::huge_page().bits(), 1 << 7);
    assert_eq!(PageTableFlags::global().bits(), 1 << 8);
    assert_eq!(PageTableFlags::no_execute().bits(), 1 << 63);
    assert_eq!(PageTableFlags::empty().bits(), 0);
    assert_eq!(PageTableFlags::from_bits_truncate(u64::MAX).bits(), 0x8000_0000_0000_01FF);
    assert_eq!(PageTableFlags::from_bits_truncate(0xF003).bits(), 0x3);
}

#[test]
fn set_frame_forces_present() {
    let mut entry = PageTableEntry::new();
    let frame = PhysFrame::containing_address(PhysAddr::new(0x000F_FFFF_FFFF_F000));
    entry.set_frame(frame, PageTableFlags::no_execute());
    assert_eq!(entry.frame(), Some(frame));
    assert_eq!(entry.flags().bits(), 0x8000_0000_0000_0001);
    entry.set_flags(PageTableFlags::writable());
    assert_eq!(entry.frame(), None);
    assert!(!entry.is_unused());
    entry.set_flags(PageTableFlags::present() | PageTableFlags::dirty());
    assert_eq!(entry.frame(), Some(frame));
    entry.set_unused();
    assert!(entry.is_unused());
    assert_eq!(entry.frame(), None);
}

#[test]
fn table_zero_and_iter() {
    let mut table = PageTable::new();
    assert_eq!(table.iter().count(), 512);
    let frame = PhysFrame::containing_address(PhysAddr::new(0x7000));
    table.entry_mut(511).set_frame(frame, PageTableFlags::empty());
    assert_eq!(table.iter().filter(|e| !e.is_unused()).count(), 1);
    assert_eq!(table.entry(511).frame(), Some(frame));
    table.zero();
    assert!(table.iter().all(|e| e.is_unused()));
}

fn linked_space(va: u64) -> (PageTableManager, PhysFrame) {
    let base = PhysFrame::containing_address(PhysAddr::new(0x10_0000));
    let mut frames = FrameStore::new(base);
    let p4 = frames.add_table().unwrap();
    let p3 = frames.add_table().unwrap();
    let p2 = frames.add_table().unwrap();
    let p1 = frames.add_table().unwrap();
    assert_eq!(p4.start_address().as_u64(), 0x10_0000);
    assert_eq!(p1.start_address().as_u64(), 0x10_3000);
    assert_eq!(frames.len(), 4);
    let addr = VirtAddr::new(va);
    let link = PageTableFlags::present() | PageTableFlags::writable();
    frames.table_mut(p4).unwrap().entry_mut(addr.p4_index()).set_frame(p3, link);
    frames.table_mut(p3).unwrap().entry_mut(addr.p3_index()).set_frame(p2, link);
    frames.table_mut(p2).unwrap().entry_mut(addr.p2_index()).set_frame(p1, link);
    (PageTableManager::from_p4_table(frames, p4).unwrap(), p1)
}

#[test]
fn map_then_unmap_returns_the_frame() {
    let va = 0xFFFF_FFFF_8000_1000;
    let (mut manager, p1) = linked_space(va);
    let page = Page::containing_address(VirtAddr::new(va + 0x234));
    let frame = PhysFrame::containing_address(PhysAddr::new(0xAB_C000));
    let flags = PageTableFlags::present() | PageTableFlags::writable();

    assert_eq!(manager.translate_addr(VirtAddr::new(va + 0x234)), None);
    assert_eq!(manager.map_page(page, frame, flags), Ok(()));
    let entry = *manager.frame_store().table(p1).unwrap().entry(1);
    assert_eq!(entry.frame(), Some(frame));
    assert_eq!(entry.flags(), flags);
    assert_eq!(
        manager.translate_addr(VirtAddr::new(va + 0x234)),
        Some(PhysAddr::new(0xAB_C234))
    );
    assert_eq!(manager.map_page(page, frame, flags), Err(PagingError::PageAlreadyMapped));
    assert_eq!(manager.unmap_page(page), Ok(frame));
    assert_eq!(manager.unmap_page(page), Err(PagingError::PageNotMapped));
    assert_eq!(manager.translate_addr(VirtAddr::new(va)), None);
    assert_eq!(
        manager.take_tlb_ops(),
        vec![
            TlbOp::InvalidatePage(page.start_address()),
            TlbOp::InvalidatePage(page.start_address())
        ]
    );
    assert!(manager.take_tlb_ops().is_empty());
}

#[test]
fn map_page_forces_present() {
    let va = 0x4000_0000;
    let (mut manager, _) = linked_space(va);
    let page = Page::containing_address(VirtAddr::new(va));
    let frame = PhysFrame::containing_address(PhysAddr::new(0x5000));
    assert_eq!(manager.map_page(page, frame, PageTableFlags::no_cache()), Ok(()));
    assert_eq!(manager.translate_addr(VirtAddr::new(va + 0xFFF)), Some(PhysAddr::new(0x5FFF)));
    assert_eq!(manager.unmap_page(page), Ok(frame));
}

#[test]
fn map_page_without_tables_needs_an_allocator() {
    let base = PhysFrame::containing_address(PhysAddr::new(0x20_0000));
    let mut frames = FrameStore::new(base);
    let p4 = frames.add_table().unwrap();
    let mut manager = PageTableManager::from_p4_table(frames, p4).unwrap();
    let page = Page::containing_address(VirtAddr::new(0x1000));
    let frame = PhysFrame::containing_address(PhysAddr::new(0x9000));
    assert_eq!(
        manager.map_page(page, frame, PageTableFlags::present()),
        Err(PagingError::FrameAllocationUnavailable)
    );
    assert_eq!(
        manager.unmap_page(page),
        Err(PagingError::TableNotPresent(TableLevel::Three))
    );
    assert_eq!(manager.translate_addr(VirtAddr::new(0x1000)), None);
    assert!(manager.take_tlb_ops().is_empty());
    manager.flush_tlb_all();
    assert_eq!(manager.take_tlb_ops(), vec![TlbOp::FlushAll]);
}

#[test]
fn walk_stops_at_each_level() {
    let va = 0x0000_0080_4020_1000u64;
    let addr = VirtAddr::new(va);
    let base = PhysFrame::containing_address(PhysAddr::new(0x30_0000));
    let mut frames = FrameStore::new(base);
    let p4 = frames.add_table().unwrap();
    let p3 = frames.add_table().unwrap();
    let p2 = frames.add_table().unwrap();
    let outside = PhysFrame::containing_address(PhysAddr::new(0x90_0000));
    let link = PageTableFlags::present();
    frames.table_mut(p4).unwrap().entry_mut(addr.p4_index()).set_frame(p3, link);
    let page = Page::containing_address(addr);
    let frame = PhysFrame::containing_address(PhysAddr::new(0x9000));
    {
        let mut manager = PageTableManager::from_p4_table(
            {
                let mut f = FrameStore::new(base);
                let q4 = f.add_table().unwrap();
                let q3 = f.add_table().unwrap();
                f.table_mut(q4).unwrap().entry_mut(addr.p4_index()).set_frame(q3, link);
                f
            },
            p4,
        )
        .unwrap();
        assert_eq!(
            manager.unmap_page(page),
            Err(PagingError::TableNotPresent(TableLevel::Two))
        );
    }
    frames.table_mut(p3).unwrap().entry_mut(addr.p3_index()).set_frame(p2, link);
    frames.table_mut(p2).unwrap().entry_mut(addr.p2_index()).set_frame(outside, link);
    let mut manager = PageTableManager::from_p4_table(frames, p4).unwrap();
    assert_eq!(
        manager.unmap_page(page),
        Err(PagingError::TableNotPresent(TableLevel::One))
    );
    assert_eq!(
        manager.map_page(page, frame, link),
        Err(PagingError::NextTableUnavailable)
    );
}

#[test]
fn unmap_of_an_entry_that_is_not_present() {
    let va = 0x7000;
    let base = PhysFrame::containing_address(PhysAddr::new(0x10_0000));
    let mut frames = FrameStore::new(base);
    let p4 = frames.add_table().unwrap();
    let p3 = frames.add_table().unwrap();
    let p2 = frames.add_table().unwrap();
    let p1 = frames.add_table().unwrap();
    let addr = VirtAddr::new(va);
    let link = PageTableFlags::present();
    frames.table_mut(p4).unwrap().entry_mut(addr.p4_index()).set_frame(p3, link);
    frames.table_mut(p3).unwrap().entry_mut(addr.p3_index()).set_frame(p2, link);
    frames.table_mut(p2).unwrap().entry_mut(addr.p2_index()).set_frame(p1, link);
    frames.table_mut(p1).unwrap().entry_mut(addr.p1_index()).set_flags(PageTableFlags::writable());
    let mut manager = PageTableManager::from_p4_table(frames, p4).unwrap();
    let page = Page::containing_address(addr);
    assert_eq!(manager.unmap_page(page), Err(PagingError::EntryNotPresent));
    let frame = PhysFrame::containing_address(PhysAddr::new(0x9000));
    assert_eq!(
        manager.map_page(page, frame, PageTableFlags::present()),
        Err(PagingError::PageAlreadyMapped)
    );
    assert_eq!(manager.translate_addr(addr), None);
}

#[test]
fn manager_needs_its_root_in_the_store() {
    let base = PhysFrame::containing_address(PhysAddr::new(0x10_0000));
    let mut frames = FrameStore::new(base);
    frames.add_table().unwrap();
    let elsewhere = PhysFrame::containing_address(PhysAddr::new(0x10_1000));
    assert!(!frames.contains(elsewhere));
    assert!(frames.table(elsewhere).is_none());
    assert!(PageTableManager::from_p4_table(frames, elsewhere).is_none());

    let mut frames = FrameStore::new(base);
    frames.add_table().unwrap();
    let manager = PageTableManager::current(frames, 0x10_0018).unwrap();
    assert_eq!(manager.p4_frame().start_address().as_u64(), 0x10_0000);
}

#[test]
fn frame_store_ends_at_the_physical_limit() {
    let base = PhysFrame::containing_address(PhysAddr::new(0x000F_FFFF_FFFF_F000));
    let mut frames = FrameStore::new(base);
    assert_eq!(frames.add_table(), Some(base));
    assert_eq!(frames.add_table(), None);
    assert_eq!(frames.len(), 1);
}

#[test]
fn paging_error_texts() {
    assert_eq!(PagingError::PageAlreadyMapped.as_str(), "Page already mapped");
    assert_eq!(PagingError::PageNotMapped.as_str(), "Page not mapped");
    assert_eq!(PagingError::EntryNotPresent.as_str(), "Entry not present");
    assert_eq!(PagingError::TableNotPresent(TableLevel::Three).as_str(), "P3 table not present");
    assert_eq!(PagingError::TableNotPresent(TableLevel::Two).as_str(), "P2 table not present");
    assert_eq!(PagingError::TableNotPresent(TableLevel::One).as_str(), "P1 table not present");
    assert_eq!(
        PagingError::FrameAllocationUnavailable.as_str(),
        "Frame allocation not implemented"
    );
    assert_eq!(PagingError::NextTableUnavailable.as_str(), "Failed to get next table");
}

#[test]
fn entry_words_round_trip() {
    let entry = PageTableEntry::from_bits(0x8000_0000_00AB_C003);
    assert_eq!(entry.bits(), 0x8000_0000_00AB_C003);
    assert_eq!(
        entry.frame(),
        Some(PhysFrame::containing_address(PhysAddr::new(0xAB_C000)))
    );
    assert_eq!(entry.flags().bits(), 0x8000_0000_0000_0003);
    assert!(PageTableEntry::from_bits(0).is_unused());
}

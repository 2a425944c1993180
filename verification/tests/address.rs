use yomi_kernel::memory::address::{Page, PhysAddr, PhysFrame, VirtAddr};

#[test]
fn test_virt_addr_indices() {
    let addr = VirtAddr::new(0xFFFF_FFFF_8000_1234);
    assert_eq!(addr.p4_index(), 511);
    assert_eq!(addr.p3_index(), 510);
    assert_eq!(addr.p2_index(), 0);
    assert_eq!(addr.p1_index(), 1);
    assert_eq!(addr.page_offset(), 0x234);
}

#[test]
fn test_page_containing_address() {
    let addr = VirtAddr::new(0x1234);
    let page = Page::containing_address(addr);
    assert_eq!(page.start_address().as_u64(), 0x1000);
}

#[test]
fn test_frame_containing_address() {
    let addr = PhysAddr::new(0x5678);
    let frame = PhysFrame::containing_address(addr);
    assert_eq!(frame.start_address().as_u64(), 0x5000);
}

#[test]
fn test_address_alignment() {
    let addr = PhysAddr::new(0x1234);
    assert!(!addr.is_aligned(4096));
    assert_eq!(addr.align_down(4096).as_u64(), 0x1000);
    assert_eq!(addr.align_up(4096).as_u64(), 0x2000);
}

#[test]
fn virt_addr_new_sign_extends_bit_47() {
    assert_eq!(VirtAddr::new(0x0000_8000_0000_0000).as_u64(), 0xFFFF_8000_0000_0000);
    assert_eq!(VirtAddr::new(0x1234_7FFF_FFFF_FFFF).as_u64(), 0x0000_7FFF_FFFF_FFFF);
    assert_eq!(VirtAddr::new(0xFFFF_8000_0000_0000).as_u64(), 0xFFFF_8000_0000_0000);
    assert_eq!(VirtAddr::new(0).as_u64(), 0);
}

#[test]
fn aligned_address_is_its_own_rounding() {
    let addr = PhysAddr::new(0x3000);
    assert!(addr.is_aligned(4096));
    assert_eq!(addr.align_down(4096).as_u64(), 0x3000);
    assert_eq!(addr.align_up(4096).as_u64(), 0x3000);
    assert_eq!(PhysAddr::new(0x1235).align_down(1).as_u64(), 0x1235);
    assert_eq!(PhysAddr::new(0x1235).align_up(2).as_u64(), 0x1236);
}

#[test]
fn align_up_reaches_the_last_boundary() {
    let addr = PhysAddr::new(0xFFFF_FFFF_FFFF_F000);
    assert_eq!(addr.align_up(4096).as_u64(), 0xFFFF_FFFF_FFFF_F000);
    let below = PhysAddr::new(0xFFFF_FFFF_FFFF_E001);
    assert_eq!(below.align_up(4096).as_u64(), 0xFFFF_FFFF_FFFF_F000);
}

#[test]
fn virt_addr_alignment_stays_canonical() {
    let addr = VirtAddr::new(0xFFFF_8000_0000_1234);
    assert_eq!(addr.align_down(4096).as_u64(), 0xFFFF_8000_0000_1000);
    assert_eq!(addr.align_up(4096).as_u64(), 0xFFFF_8000_0000_2000);
    assert_eq!(addr.align_down(1 << 48).as_u64(), 0);
    assert!(!addr.is_aligned(4096));
}

#[test]
fn address_arithmetic() {
    assert_eq!((PhysAddr::new(0x1000) + 0x234).as_u64(), 0x1234);
    assert_eq!((PhysAddr::new(0x1234) - 0x234).as_u64(), 0x1000);
    assert_eq!((VirtAddr::new(0x0000_7FFF_FFFF_F000) + 0x1000).as_u64(), 0xFFFF_8000_0000_0000);
    assert_eq!((VirtAddr::new(0x2000) - 0x1000).as_u64(), 0x1000);
}

#[test]
fn page_indices_and_steps() {
    let page = Page::containing_address(VirtAddr::new(0xFFFF_FFFF_8000_1234));
    assert_eq!(page.start_address().as_u64(), 0xFFFF_FFFF_8000_1000);
    assert_eq!(page.p4_index(), 511);
    assert_eq!(page.p3_index(), 510);
    assert_eq!(page.p2_index(), 0);
    assert_eq!(page.p1_index(), 1);
    let next = page + 2;
    assert_eq!(next.start_address().as_u64(), 0xFFFF_FFFF_8000_3000);
    assert_eq!(next.p1_index(), 3);
    let frame = PhysFrame::from_start_address(PhysAddr::new(0x5000)) + 3;
    assert_eq!(frame.start_address().as_u64(), 0x8000);
    let same = Page::from_start_address(VirtAddr::new(0x4000));
    assert_eq!(same, Page::containing_address(VirtAddr::new(0x4FFF)));
}

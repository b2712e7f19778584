use rinux::memory::allocator::{heap_page_flags, heap_pages, HEAP_SIZE, HEAP_START};
use rinux::memory::handler::{malloc_page, MapFrameError};

#[test]
fn heap_pages_cover_heap() {
    let pages = heap_pages();
    assert_eq!(pages.len(), 125);
    assert_eq!(pages[0], 0x100000);
    assert_eq!(pages[124], 0x17c000);
    assert_eq!(pages.len() * 4096, HEAP_SIZE);
    for (i, p) in pages.iter().enumerate() {
        assert_eq!(*p, (HEAP_START + 4096 * i) as u64);
    }
}

#[test]
fn heap_flags_present_writable() {
    assert_eq!(heap_page_flags(), 3);
}

#[test]
fn malloc_page_maps_identity() {
    assert_eq!(malloc_page(0x20_0000), Some(0x20_0000));
    assert_eq!(malloc_page(0x1234), None);
}

#[test]
fn malloc_page_sign_extends() {
    assert_eq!(malloc_page(0x8000_0000_0000), Some(0xffff_8000_0000_0000));
}

#[test]
fn map_frame_error_variant() {
    assert_eq!(MapFrameError::CantAllocateFrame, MapFrameError::CantAllocateFrame);
}

#[test]
fn locked_gives_access_to_value() {
    let l = rinux::memory::allocator::Locked::new(5u32);
    *l.lock() += 1;
    assert_eq!(*l.lock(), 6);
}

#[test]
fn dummy_refuses_every_allocation() {
    let d = rinux::memory::allocator::Dummy;
    assert_eq!(d.allocate(16, 8), None);
    assert_eq!(d.allocate(0, 1), None);
    assert_eq!(d.allocate(4096, 4096), None);
}

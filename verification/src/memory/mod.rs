//! Virtual memory: canonical addresses, 4 KiB pages, and the plan of the
//! kernel heap.

pub mod allocator;
pub mod handler;

use vstd::prelude::*;
use x86_64::structures::paging::{Page, PageTableFlags, Size4KiB};
use x86_64::VirtAddr;

verus! {

/// Size of a base page.
pub const PAGE_SIZE: u64 = 4096;

/// `VirtAddr::new` accepts `addr`: bits 48 to 63 are either all clear or a
/// sign extension of bit 47.
pub open spec fn virt_addr_accepted(addr: u64) -> bool {
    addr < 0x1_0000_0000_0000 || addr >= 0xffff_8000_0000_0000
}

/// `addr` is canonical: bits 47 to 63 are all equal.
pub open spec fn canonical(addr: u64) -> bool {
    addr < 0x8000_0000_0000 || addr >= 0xffff_8000_0000_0000
}

/// The canonical address that `VirtAddr::new` makes of an accepted `addr`:
/// bit 47 is copied into bits 48 to 63.
pub open spec fn sign_extended(addr: u64) -> u64 {
    if 0x8000_0000_0000 <= addr < 0x1_0000_0000_0000 {
        (addr + 0xffff_0000_0000_0000) as u64
    } else {
        addr
    }
}

/// Start of the 4 KiB page that contains `addr`.
pub open spec fn page_start(addr: u64) -> u64 {
    (addr - addr % PAGE_SIZE) as u64
}

/// The start addresses of the pages from `start` to `end`, both included.
pub open spec fn page_range(start: u64, end: u64) -> Seq<u64> {
    if start <= end {
        Seq::new(
            ((end - start) / (PAGE_SIZE as int) + 1) as nat,
            |i: int| (start + (PAGE_SIZE as int) * i) as u64,
        )
    } else {
        Seq::empty()
    }
}

/// `VirtAddr::new` from the `x86_64` crate: builds a virtual address,
/// sign-extending bit 47 when bits 48 to 63 are clear; it panics when these
/// bits hold anything else, which `requires` rules out.
#[verifier::external_body]
fn virt_addr_new(addr: u64) -> (r: u64)
    requires
        virt_addr_accepted(addr),
    ensures
        r == sign_extended(addr),
{
    VirtAddr::new(addr).as_u64()
}

/// `VirtAddr + u64` from the `x86_64` crate: `VirtAddr::new(addr + rhs)`.
/// The sum must not overflow and must be accepted by `VirtAddr::new`, else
/// the outside code panics.
#[verifier::external_body]
fn virt_addr_add(addr: u64, rhs: u64) -> (r: u64)
    requires
        canonical(addr),
        addr + rhs <= u64::MAX,
        virt_addr_accepted((addr + rhs) as u64),
    ensures
        r == sign_extended((addr + rhs) as u64),
{
    (VirtAddr::new(addr) + rhs).as_u64()
}

/// `VirtAddr - u64` from the `x86_64` crate:
/// `VirtAddr::new(addr.checked_sub(rhs).unwrap())`.
#[verifier::external_body]
fn virt_addr_sub(addr: u64, rhs: u64) -> (r: u64)
    requires
        canonical(addr),
        rhs <= addr,
        virt_addr_accepted((addr - rhs) as u64),
    ensures
        r == sign_extended((addr - rhs) as u64),
{
    (VirtAddr::new(addr) - rhs).as_u64()
}

/// `Page::<Size4KiB>::containing_address` from the `x86_64` crate: the page
/// starts at the address aligned down to 4096.
#[verifier::external_body]
fn page_containing_address(addr: u64) -> (start: u64)
    requires
        canonical(addr),
    ensures
        start == page_start(addr),
{
    Page::<Size4KiB>::containing_address(VirtAddr::new(addr)).start_address().as_u64()
}

/// `Page::<Size4KiB>::from_start_address` from the `x86_64` crate: a page
/// exists exactly when the address is 4096-aligned.
#[verifier::external_body]
fn page_from_start_address(addr: u64) -> (page: Option<u64>)
    requires
        canonical(addr),
    ensures
        addr % PAGE_SIZE == 0 ==> page == Some(addr),
        addr % PAGE_SIZE != 0 ==> page is None,
{
    match Page::<Size4KiB>::from_start_address(VirtAddr::new(addr)) {
        Ok(p) => Some(p.start_address().as_u64()),
        Err(_) => None,
    }
}

/// `Page::<Size4KiB>::range_inclusive` from the `x86_64` crate, walked to
/// its end: the pages from `start` to `end` in ascending order. Both are
/// page starts in the lower half of the address space.
#[verifier::external_body]
fn page_range_inclusive(start: u64, end: u64) -> (pages: Vec<u64>)
    requires
        start % PAGE_SIZE == 0,
        end % PAGE_SIZE == 0,
        start < 0x8000_0000_0000,
        end < 0x8000_0000_0000,
    ensures
        pages@ == page_range(start, end),
{
    let first = Page::<Size4KiB>::containing_address(VirtAddr::new(start));
    let last = Page::<Size4KiB>::containing_address(VirtAddr::new(end));
    let mut pages = Vec::new();
    for page in Page::range_inclusive(first, last) {
        pages.push(page.start_address().as_u64());
    }
    pages
}

/// `PageTableFlags::PRESENT | PageTableFlags::WRITABLE` from the `x86_64`
/// crate, as raw bits: bit 0 (present) and bit 1 (writable).
#[verifier::external_body]
fn present_writable_flags() -> (bits: u64)
    ensures
        bits == 3,
{
    (PageTableFlags::PRESENT | PageTableFlags::WRITABLE).bits()
}

} // verus!

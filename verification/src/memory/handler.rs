//! Mapping pages to frames: the choices the memory handler makes around
//! the frame allocator and the page tables.

use vstd::prelude::*;
use super::{page_from_start_address, sign_extended, virt_addr_accepted, virt_addr_new, PAGE_SIZE};

verus! {

/// Why a frame could not be mapped.
#[derive(Debug, Clone, Copy, PartialEq, Eq)]
pub enum MapFrameError {
    CantAllocateFrame,
}

/// The page at which `malloc` maps a freshly allocated frame that starts at
/// physical address `frame_start`: the page whose virtual address equals
/// that physical address (sign-extended into a canonical address). There is
/// none when that address is not page-aligned. `VirtAddr::new` panics on
/// an address it refuses, which `requires` rules out.
pub fn malloc_page(frame_start: u64) -> (page: Option<u64>)
    requires
        virt_addr_accepted(frame_start),
    ensures
        page == (if sign_extended(frame_start) % PAGE_SIZE == 0 {
            Some(sign_extended(frame_start))
        } else {
            None::<u64>
        }),
{
    let virt_addr = virt_addr_new(frame_start);
    page_from_start_address(virt_addr)
}

} // verus!

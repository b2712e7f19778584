//! The kernel heap: where it lies and which pages it needs.

use vstd::prelude::*;
use super::{
    page_containing_address, page_range_inclusive, present_writable_flags, virt_addr_add,
    virt_addr_new, virt_addr_sub, PAGE_SIZE,
};

verus! {

/// First virtual address of the kernel heap.
pub const HEAP_START: usize = 0x100000;

/// Size in bytes of the kernel heap.
pub const HEAP_SIZE: usize = 100 * 1024 * 5;

/// The allocator that answers every request with failure; it stands in
/// while no heap is set up.
pub struct Dummy;

impl Dummy {
    /// Answers a request for `size` bytes aligned to `align`. The dummy
    /// allocator owns no memory, so it refuses every request.
    pub fn allocate(&self, _size: usize, _align: usize) -> (block: Option<usize>)
        ensures
            block is None,
    {
        None
    }
}

/// Declares `spin::Mutex` from the `spin` crate to Verus, as an opaque type.
#[verifier::external_type_specification]
#[verifier::external_body]
#[verifier::reject_recursive_types(T)]
#[verifier::reject_recursive_types(R)]
pub struct ExSpinMutex<T: ?Sized, R>(spin::mutex::Mutex<T, R>);

/// Declares `spin::relax::Spin`, the default relax strategy of a spin lock,
/// from the `spin` crate to Verus, as an opaque type.
#[verifier::external_type_specification]
#[verifier::external_body]
pub struct ExSpinRelax(spin::relax::Spin);

/// Declares `spin::MutexGuard` from the `spin` crate to Verus, as an opaque
/// type.
#[verifier::external_type_specification]
#[verifier::external_body]
#[verifier::reject_recursive_types(T)]
pub struct ExSpinMutexGuard<'a, T: 'a + ?Sized>(spin::mutex::MutexGuard<'a, T>);

/// `spin::Mutex::new` from the `spin` crate: a spin lock that holds
/// `value`. What the lock holds is left unstated: it is of a generic type,
/// which no name here can speak of.
#[verifier::external_body]
fn spin_mutex_new<A>(value: A) -> spin::Mutex<A> {
    spin::Mutex::new(value)
}

/// `spin::Mutex::lock` from the `spin` crate: spins until the lock is free
/// and returns the guard that gives access to the value. Nothing is stated
/// of the guard.
#[verifier::external_body]
fn spin_mutex_lock<A>(m: &spin::Mutex<A>) -> spin::MutexGuard<'_, A> {
    m.lock()
}

/// A wrapper around a spin lock that lets the global allocator trait be
/// implemented for the value it guards.
#[verifier::reject_recursive_types(A)]
pub struct Locked<A> {
    inner: spin::Mutex<A>,
}

impl<A> Locked<A> {
    /// A lock over `inner`.
    pub fn new(inner: A) -> Self {
        Locked { inner: spin_mutex_new(inner) }
    }

    /// Takes the lock.
    pub fn lock(&self) -> spin::MutexGuard<'_, A> {
        spin_mutex_lock(&self.inner)
    }
}

/// The start addresses of the pages that the heap occupies, in order.
pub open spec fn heap_page_starts() -> Seq<u64> {
    Seq::new(
        (HEAP_SIZE / (PAGE_SIZE as usize)) as nat,
        |i: int| (HEAP_START + (PAGE_SIZE as int) * i) as u64,
    )
}

/// The pages to map before the heap allocator is handed the region
/// `HEAP_START .. HEAP_START + HEAP_SIZE`: every 4 KiB page from the one
/// that holds the first heap byte to the one that holds the last.
pub fn heap_pages() -> (pages: Vec<u64>)
    ensures
        pages@ == heap_page_starts(),
{
    let heap_start = virt_addr_new(HEAP_START as u64);
    let heap_end = virt_addr_sub(virt_addr_add(heap_start, HEAP_SIZE as u64), 1);
    let heap_start_page = page_containing_address(heap_start);
    let heap_end_page = page_containing_address(heap_end);
    assert(heap_start == 0x100000);
    assert(heap_end == 0x17cfff);
    assert(0x100000u64 % 4096 == 0);
    assert(0x17cfffu64 % 4096 == 0xfff);
    assert(heap_start_page == 0x100000);
    assert(heap_end_page == 0x17c000);
    let pages = page_range_inclusive(heap_start_page, heap_end_page);
    assert(pages@.len() == 125);
    assert(HEAP_SIZE == 512000);
    assert(512000usize / 4096usize == 125) by (nonlinear_arith);
    assert(heap_page_starts().len() == 125);
    assert forall|i: int| 0 <= i < 125 implies pages@[i] == heap_page_starts()[i] by {
        assert(pages@[i] == (0x100000 + 4096 * i) as u64);
    }
    assert(pages@ =~= heap_page_starts());
    pages
}

/// The flags that heap pages are mapped with: present and writable.
pub fn heap_page_flags() -> (flags: u64)
    ensures
        flags == 3,
{
    present_writable_flags()
}

/// The heap pages tile the heap: each is 4 KiB-aligned and lies inside the
/// heap, and every heap address lies in the page of index
/// `(addr - HEAP_START) / PAGE_SIZE`.
pub proof fn lemma_heap_pages_tile_heap(addr: int)
    requires
        HEAP_START <= addr < HEAP_START + HEAP_SIZE,
    ensures
        heap_page_starts().len() * PAGE_SIZE == HEAP_SIZE,
        forall|i: int|
            0 <= i < heap_page_starts().len() ==> {
                &&& #[trigger] heap_page_starts()[i] % PAGE_SIZE == 0
                &&& HEAP_START <= heap_page_starts()[i]
                &&& heap_page_starts()[i] + PAGE_SIZE <= HEAP_START + HEAP_SIZE
            },
        ({
            let i = (addr - HEAP_START) / (PAGE_SIZE as int);
            &&& 0 <= i < heap_page_starts().len()
            &&& heap_page_starts()[i] <= addr < heap_page_starts()[i] + PAGE_SIZE
        }),
{
    assert forall|i: int| 0 <= i < heap_page_starts().len() implies {
        &&& #[trigger] heap_page_starts()[i] % PAGE_SIZE == 0
        &&& HEAP_START <= heap_page_starts()[i]
        &&& heap_page_starts()[i] + PAGE_SIZE <= HEAP_START + HEAP_SIZE
    } by {
        assert((0x100000 + 4096 * i) % 4096 == 0) by (nonlinear_arith)
            requires
                0 <= i,
        ;
    }
}

} // verus!

//! Page-granular memory reserved as the initial stack of a core.

use vstd::prelude::*;

verus! {

/// Size and alignment, in bytes, of one stack page.
pub const PAGE_SIZE: usize = 4096;

/// Number of pages reserved for the boot stack when no size is configured.
pub const DEFAULT_BOOT_STACK_PAGES: usize = 40;

/// One page of stack memory.
#[derive(Clone, Copy)]
pub struct StackPage {
    bytes: [u8; PAGE_SIZE],
}

impl StackPage {
    /// The bytes of the page.
    pub closed spec fn view(&self) -> Seq<u8> {
        self.bytes@
    }

    /// Creates a zero-filled page.
    pub fn new() -> (p: Self)
        ensures
            p@.len() == PAGE_SIZE,
            forall|i: int| 0 <= i < PAGE_SIZE ==> #[trigger] p@[i] == 0,
    {
        StackPage { bytes: [0u8; PAGE_SIZE] }
    }
}

/// A stack for one core: `NUM_PAGES` whole pages, zero-initialised.
pub struct Stack<const NUM_PAGES: usize> {
    pages: [StackPage; NUM_PAGES],
}

/// The number of bytes in a stack of `num_pages` pages.
pub open spec fn stack_size(num_pages: nat) -> nat {
    num_pages * PAGE_SIZE as nat
}

/// Whether `addr` lies on a page boundary.
pub open spec fn page_aligned(addr: int) -> bool {
    addr % PAGE_SIZE as int == 0
}

/// A stack of `num_pages` pages spans exactly `num_pages * 4096` bytes, and
/// when it starts on a page boundary it also ends on one.
pub proof fn lemma_stack_region(num_pages: nat, base: int)
    requires
        page_aligned(base),
    ensures
        stack_size(num_pages) == num_pages * 4096,
        stack_size(num_pages) % PAGE_SIZE as nat == 0,
        page_aligned(base + stack_size(num_pages)),
{
    assert((num_pages * 4096) % 4096 == 0) by (nonlinear_arith);
    assert((base + num_pages * 4096) % 4096 == 0) by (nonlinear_arith)
        requires base % 4096 == 0;
}

/// The boot stack of the default size.
pub type BootStack = Stack<DEFAULT_BOOT_STACK_PAGES>;

impl<const NUM_PAGES: usize> Stack<NUM_PAGES> {
    /// The bytes of the stack, page after page.
    pub closed spec fn view(&self) -> Seq<u8> {
        Seq::new(stack_size(NUM_PAGES as nat), |i: int| self.pages@[i / PAGE_SIZE as int]@[i % PAGE_SIZE as int])
    }

    /// Creates a new zero-initialised stack.
    pub fn new() -> (s: Self)
        ensures
            s@.len() == stack_size(NUM_PAGES as nat),
            forall|i: int| 0 <= i < s@.len() ==> #[trigger] s@[i] == 0,
    {
        let page = StackPage::new();
        let s = Stack { pages: [page; NUM_PAGES] };
        assert forall|i: int| 0 <= i < s@.len() implies #[trigger] s@[i] == 0 by {
            assert(0 <= i / (PAGE_SIZE as int) < NUM_PAGES) by (nonlinear_arith)
                requires 0 <= i < NUM_PAGES * PAGE_SIZE;
        }
        s
    }

    /// The size of the stack in bytes.
    pub fn size_in_bytes(&self) -> (n: usize)
        requires
            stack_size(NUM_PAGES as nat) <= usize::MAX,
        ensures
            n == stack_size(NUM_PAGES as nat),
            n == self@.len(),
    {
        NUM_PAGES * PAGE_SIZE
    }
}

impl<const NUM_PAGES: usize> Default for Stack<NUM_PAGES> {
    fn default() -> (s: Self)
        ensures
            s@.len() == stack_size(NUM_PAGES as nat),
            forall|i: int| 0 <= i < s@.len() ==> #[trigger] s@[i] == 0,
    {
        Self::new()
    }
}

} // verus!

//! Stacks: a region of memory used from its highest address downwards.
use vstd::prelude::*;

verus! {

/// A stack region.
pub trait Stack {
    /// The highest address of the region.
    spec fn origin(&self) -> int;

    /// Bottom (origin) of the stack: its highest address. A context started
    /// on it needs it 16-byte aligned on x86-64.
    fn bottom(&self) -> (r: u64)
        ensures
            r == self.origin(),
    ;
}

/// `size` rounded up to a multiple of `page_size`.
pub open spec fn rounded_up(size: int, page_size: int) -> int {
    ((size + page_size - 1) / page_size) * page_size
}

/// `size` rounded down to a multiple of `page_size`.
pub open spec fn rounded_down(size: int, page_size: int) -> int {
    (size / page_size) * page_size
}

/// The mapped size of a protected stack for a request of `size` bytes: the
/// size rounded up to whole pages, one guard page more, and no more than
/// the whole pages of `maximum`.
pub open spec fn protected_stack_size(size: int, page_size: int, maximum: int) -> int {
    if rounded_up(size, page_size) + page_size <= maximum {
        rounded_up(size, page_size) + page_size
    } else {
        rounded_down(maximum, page_size)
    }
}

proof fn lemma_rounding(size: int, page_size: int, maximum: int)
    requires
        size >= 0,
        page_size > 0,
        maximum >= 0,
    ensures
        rounded_up(size, page_size) >= size,
        rounded_up(size, page_size) % page_size == 0,
        rounded_down(maximum, page_size) <= maximum,
        rounded_down(maximum, page_size) % page_size == 0,
        protected_stack_size(size, page_size, maximum) % page_size == 0,
        protected_stack_size(size, page_size, maximum) >= 0,
{
    let q = (size + page_size - 1) / page_size;
    vstd::arithmetic::div_mod::lemma_fundamental_div_mod(size + page_size - 1, page_size);
    vstd::arithmetic::div_mod::lemma_mod_multiples_basic(q, page_size);
    vstd::arithmetic::div_mod::lemma_mod_multiples_basic(q + 1, page_size);
    vstd::arithmetic::div_mod::lemma_fundamental_div_mod(maximum, page_size);
    let m = maximum / page_size;
    vstd::arithmetic::div_mod::lemma_mod_multiples_basic(m, page_size);
    vstd::arithmetic::div_mod::lemma_div_pos_is_pos(maximum, page_size);
    vstd::arithmetic::mul::lemma_mul_nonnegative(m, page_size);
    vstd::arithmetic::div_mod::lemma_div_pos_is_pos(size + page_size - 1, page_size);
    vstd::arithmetic::mul::lemma_mul_is_distributive_add_other_way(page_size, q, 1);
}

/// The request cannot give a stack with room above its guard page.
#[derive(Debug, Clone, Copy, PartialEq, Eq, Structural)]
pub struct NoRoomAboveGuardPage;

/// A stack with an inaccessible guard page at its lowest addresses.
#[derive(Debug, Clone, Copy, PartialEq, Eq, Structural)]
pub struct ProtectedStack {
    top_including_guard_page: u64,
    size_including_guard_page: u64,
    page_size: u64,
}

impl ProtectedStack {
    #[verifier::type_invariant]
    spec fn fits(&self) -> bool {
        self.top_including_guard_page + self.size_including_guard_page <= u64::MAX
    }

    /// Lowest address of the mapping (the guard page starts here).
    pub closed spec fn top(&self) -> int {
        self.top_including_guard_page as int
    }

    /// Size of the mapping, guard page included.
    pub closed spec fn size(&self) -> int {
        self.size_including_guard_page as int
    }

    /// Size of the guard page.
    pub closed spec fn guard(&self) -> int {
        self.page_size as int
    }

    /// The number of bytes to map for a protected stack of `size` bytes: the
    /// size rounded up to whole pages, one guard page more, capped by
    /// `maximum_stack_size`. Fails when that leaves no room above the guard
    /// page.
    pub fn size_to_map(size: u64, page_size: u64, maximum_stack_size: u64) -> (r: Result<u64, NoRoomAboveGuardPage>)
        requires
            page_size > 0,
            size + 2 * page_size <= u64::MAX,
        ensures
            r is Ok <==> protected_stack_size(size as int, page_size as int, maximum_stack_size as int) > page_size,
            r matches Ok(n) ==> n == protected_stack_size(size as int, page_size as int, maximum_stack_size as int),
    {
        let pages: u64 = (size + page_size - 1) / page_size;
        proof {
            assert(pages * page_size <= size + page_size - 1) by (nonlinear_arith)
                requires
                    pages as int == (size + page_size - 1) as int / page_size as int,
                    page_size > 0,
            ;
        }
        let rounded: u64 = pages * page_size;
        let with_guard: u64 = rounded + page_size;
        let whole_pages: u64 = maximum_stack_size / page_size;
        proof {
            assert(whole_pages * page_size <= maximum_stack_size) by (nonlinear_arith)
                requires
                    page_size > 0,
                    whole_pages as int == maximum_stack_size as int / page_size as int,
            ;
        }
        let size_including_guard_page: u64 = if with_guard <= maximum_stack_size {
            with_guard
        } else {
            whole_pages * page_size
        };
        if size_including_guard_page <= page_size {
            Err(NoRoomAboveGuardPage)
        } else {
            Ok(size_including_guard_page)
        }
    }

    /// The layout of a protected stack of `size` bytes mapped at
    /// `top_including_guard_page`. Fails when the mapped size, capped by
    /// the whole pages of `maximum_stack_size`, leaves no room above the
    /// guard page. The mapping is whole pages; when it is not capped, the
    /// part above the guard page holds at least `size` bytes.
    pub fn allocate(size: u64, page_size: u64, maximum_stack_size: u64, top_including_guard_page: u64) -> (r: Result<Self, NoRoomAboveGuardPage>)
        requires
            page_size > 0,
            size + 2 * page_size <= u64::MAX,
            top_including_guard_page + protected_stack_size(size as int, page_size as int, maximum_stack_size as int) <= u64::MAX,
        ensures
            r is Ok <==> protected_stack_size(size as int, page_size as int, maximum_stack_size as int) > page_size,
            r matches Ok(s) ==> {
                &&& s.top() == top_including_guard_page
                &&& s.size() == protected_stack_size(size as int, page_size as int, maximum_stack_size as int)
                &&& s.guard() == page_size
                &&& s.size() % page_size as int == 0
                &&& top_including_guard_page % page_size == 0 ==> s.origin() % page_size as int == 0
                &&& rounded_up(size as int, page_size as int) + page_size <= maximum_stack_size
                    ==> s.size() - s.guard() >= size
            },
    {
        proof {
            lemma_rounding(size as int, page_size as int, maximum_stack_size as int);
            let n = protected_stack_size(size as int, page_size as int, maximum_stack_size as int);
            if top_including_guard_page % page_size == 0 {
                vstd::arithmetic::div_mod::lemma_add_mod_noop(top_including_guard_page as int, n, page_size as int);
                vstd::arithmetic::div_mod::lemma_small_mod(0, page_size as nat);
                assert((top_including_guard_page as int + n) % page_size as int == 0);
            }
        }
        match Self::size_to_map(size, page_size, maximum_stack_size) {
            Err(e) => Err(e),
            Ok(size_including_guard_page) => Ok(ProtectedStack { top_including_guard_page, size_including_guard_page, page_size }),
        }
    }

    /// Size of the usable part, above the guard page.
    pub fn usable_size(&self) -> (r: u64)
        requires
            self.size() > self.guard(),
        ensures
            r == self.size() - self.guard(),
    {
        self.size_including_guard_page - self.page_size
    }
}

impl Stack for ProtectedStack {
    open spec fn origin(&self) -> int {
        self.top() + self.size()
    }

    fn bottom(&self) -> (r: u64) {
        proof {
            use_type_invariant(self);
        }
        self.top_including_guard_page + self.size_including_guard_page
    }
}

/// Calls nested `depth` deep with frames of `frame_size` bytes, on a stack
/// allocated for `size` bytes whose mapping was not capped, stay above the
/// guard page whenever `depth * frame_size <= size`.
pub proof fn lemma_recursion_stays_above_guard(size: int, page_size: int, maximum: int, depth: int, frame_size: int)
    requires
        size > 0,
        page_size > 0,
        depth >= 0,
        frame_size > 0,
        depth * frame_size <= size,
        rounded_up(size, page_size) + page_size <= maximum,
    ensures
        protected_stack_size(size, page_size, maximum) - depth * frame_size >= page_size,
{
    assert(rounded_up(size, page_size) >= size) by (nonlinear_arith)
        requires
            size > 0,
            page_size > 0,
    {
        let q = (size + page_size - 1) / page_size;
        let r = (size + page_size - 1) % page_size;
        assert(size + page_size - 1 == q * page_size + r);
        assert(r < page_size);
    }
}

} // verus!

//! The switchable allocator binding: a coroutine's local allocator lives in
//! its slot while the parent runs and in the thread's allocator slot while
//! the coroutine runs. Every crossing swaps the two, so neither is lost and
//! no coroutine ever sees another one's heap.
use vstd::prelude::*;

verus! {

/// Which pool allocations are routed to.
#[derive(Debug, Clone, Copy, PartialEq, Eq, Structural)]
pub enum CurrentAllocatorInUse {
    /// The process-wide allocator.
    Global,
    /// The local allocator of the coroutine that runs.
    CoroutineLocal,
}

/// The per-thread state of the process-global switchable allocator: the
/// local allocator in force and the tag that selects the pool.
pub struct SwitchableAllocator<A> {
    pub coroutine_local_allocator: Option<A>,
    pub current_allocator_in_use: CurrentAllocatorInUse,
}

impl<A> SwitchableAllocator<A> {
    /// No local allocator installed; allocations go to the global pool.
    pub fn new() -> (r: Self)
        ensures
            r.coroutine_local_allocator is None,
            r.current_allocator_in_use == CurrentAllocatorInUse::Global,
    {
        SwitchableAllocator { coroutine_local_allocator: None, current_allocator_in_use: CurrentAllocatorInUse::Global }
    }

    /// Installs `new` as the local allocator in force and hands back the previous one.
    pub fn replace_coroutine_local_allocator(&mut self, new: Option<A>) -> (r: Option<A>)
        ensures
            final(self).coroutine_local_allocator == new,
            final(self).current_allocator_in_use == old(self).current_allocator_in_use,
            r == old(self).coroutine_local_allocator,
    {
        let mut swapped = new;
        core::mem::swap(&mut self.coroutine_local_allocator, &mut swapped);
        swapped
    }

    /// Selects the pool `new` and hands back the previous selection.
    pub fn replace_current_allocator_in_use(&mut self, new: CurrentAllocatorInUse) -> (r: CurrentAllocatorInUse)
        ensures
            final(self).current_allocator_in_use == new,
            final(self).coroutine_local_allocator == old(self).coroutine_local_allocator,
            r == old(self).current_allocator_in_use,
    {
        let previous = self.current_allocator_in_use;
        self.current_allocator_in_use = new;
        previous
    }

    /// The local allocator in force, if allocations are routed to it.
    pub fn allocator_for_allocation(&mut self) -> (r: Option<&mut A>)
        ensures
            old(self).current_allocator_in_use == CurrentAllocatorInUse::CoroutineLocal
                && old(self).coroutine_local_allocator is Some <==> r is Some,
            r matches Some(a) ==> *a == old(self).coroutine_local_allocator->0
                && final(self).coroutine_local_allocator == Some(*final(a)),
            r is None ==> *final(self) == *old(self),
            final(self).current_allocator_in_use == old(self).current_allocator_in_use,
    {
        match self.current_allocator_in_use {
            CurrentAllocatorInUse::Global => None,
            CurrentAllocatorInUse::CoroutineLocal => self.coroutine_local_allocator.as_mut(),
        }
    }
}

/// Alignment of the heap and stack sizes of a coroutine block.
pub const MEMORY_ALIGNMENT: usize = 64;

/// `size` rounded up to a multiple of 64.
pub open spec fn aligned_memory_size(size: int) -> int {
    ((size + 63) / 64) * 64
}

/// Rounds `size` up to a multiple of 64: on x86-64 a stack must hold a
/// 16-byte aligned 64-byte saved context, and some local allocators align
/// to 32 bytes.
pub fn align_memory_size(size: usize) -> (r: usize)
    requires
        size + 63 <= usize::MAX,
    ensures
        r == aligned_memory_size(size as int),
        r % 64 == 0,
        size <= r < size + 64,
{
    let units: usize = (size + (MEMORY_ALIGNMENT - 1)) / MEMORY_ALIGNMENT;
    proof {
        assert(units * 64 <= size + 63 && units * 64 > size - 1) by (nonlinear_arith)
            requires
                units as int == (size + 63) as int / 64,
        ;
    }
    units * MEMORY_ALIGNMENT
}

/// The sizes are too large to add up.
#[derive(Debug, Clone, Copy, PartialEq, Eq, Structural)]
pub struct SizeOverflow;

/// The sizes of the block that each coroutine takes from the arena: its
/// heap, then its stack.
#[derive(Debug, Clone, Copy, PartialEq, Eq, Structural)]
pub struct CoroutineMemorySource {
    pub heap_size: usize,
    pub stack_size: usize,
    pub block_size: usize,
}

impl CoroutineMemorySource {
    /// Aligns the heap and stack sizes to 64 bytes; the block is the two
    /// together. Fails when that does not fit in a `usize`.
    pub fn new(heap_size: usize, stack_size: usize) -> (r: Result<Self, SizeOverflow>)
        ensures
            r is Ok <==> aligned_memory_size(heap_size as int) + aligned_memory_size(stack_size as int) <= usize::MAX,
            r matches Ok(m) ==> {
                &&& m.heap_size == aligned_memory_size(heap_size as int)
                &&& m.stack_size == aligned_memory_size(stack_size as int)
                &&& m.block_size == m.heap_size + m.stack_size
            },
    {
        if heap_size > usize::MAX - 63 || stack_size > usize::MAX - 63 {
            proof {
                if heap_size > usize::MAX - 63 {
                    assert(aligned_memory_size(heap_size as int) >= heap_size) by (nonlinear_arith)
                        requires
                            heap_size >= 0,
                    {
                        let q = (heap_size + 63) / 64;
                        assert(heap_size + 63 == q * 64 + (heap_size + 63) % 64);
                    }
                    assert(aligned_memory_size(stack_size as int) >= 0) by (nonlinear_arith)
                        requires
                            stack_size >= 0,
                    ;
                } else {
                    assert(aligned_memory_size(stack_size as int) >= stack_size) by (nonlinear_arith)
                        requires
                            stack_size >= 0,
                    {
                        let q = (stack_size + 63) / 64;
                        assert(stack_size + 63 == q * 64 + (stack_size + 63) % 64);
                    }
                    assert(aligned_memory_size(heap_size as int) >= 0) by (nonlinear_arith)
                        requires
                            heap_size >= 0,
                    ;
                }
            }
            return Err(SizeOverflow);
        }
        let heap = align_memory_size(heap_size);
        let stack = align_memory_size(stack_size);
        if heap > usize::MAX - stack {
            return Err(SizeOverflow);
        }
        Ok(CoroutineMemorySource { heap_size: heap, stack_size: stack, block_size: heap + stack })
    }
}

/// The part of a coroutine slot that holds its local allocator while the
/// parent runs.
pub struct CoroutineMemory<A> {
    pub inactive_coroutine_local_allocator: Option<A>,
    pub inactive_current_allocator_in_use: CurrentAllocatorInUse,
}

/// `memory` and `global` after the two slots are exchanged.
pub open spec fn exchanged<A>(
    memory: CoroutineMemory<A>,
    global: SwitchableAllocator<A>,
    memory_after: CoroutineMemory<A>,
    global_after: SwitchableAllocator<A>,
) -> bool {
    &&& memory_after.inactive_coroutine_local_allocator == global.coroutine_local_allocator
    &&& memory_after.inactive_current_allocator_in_use == global.current_allocator_in_use
    &&& global_after.coroutine_local_allocator == memory.inactive_coroutine_local_allocator
    &&& global_after.current_allocator_in_use == memory.inactive_current_allocator_in_use
}

impl<A> CoroutineMemory<A> {
    /// A fresh slot memory holding `local_allocator`, to be selected on entry.
    pub fn new(local_allocator: A) -> (r: Self)
        ensures
            r.inactive_coroutine_local_allocator == Some(local_allocator),
            r.inactive_current_allocator_in_use == CurrentAllocatorInUse::CoroutineLocal,
    {
        CoroutineMemory {
            inactive_coroutine_local_allocator: Some(local_allocator),
            inactive_current_allocator_in_use: CurrentAllocatorInUse::CoroutineLocal,
        }
    }

    /// Entry into the coroutine: installs the slot's allocator and selection
    /// in the thread's allocator and keeps the thread's previous ones.
    pub fn pre_transfer_control_to_coroutine(&mut self, global: &mut SwitchableAllocator<A>)
        ensures
            exchanged(*old(self), *old(global), *final(self), *final(global)),
    {
        let local = self.inactive_coroutine_local_allocator.take();
        self.inactive_coroutine_local_allocator = global.replace_coroutine_local_allocator(local);
        self.inactive_current_allocator_in_use = global.replace_current_allocator_in_use(self.inactive_current_allocator_in_use);
    }

    /// Exit from the coroutine: gives the thread back its previous selection
    /// and allocator and keeps the coroutine's ones in the slot.
    pub fn post_transfer_control_to_coroutine(&mut self, global: &mut SwitchableAllocator<A>)
        ensures
            exchanged(*old(self), *old(global), *final(self), *final(global)),
    {
        self.inactive_current_allocator_in_use = global.replace_current_allocator_in_use(self.inactive_current_allocator_in_use);
        let local = self.inactive_coroutine_local_allocator.take();
        self.inactive_coroutine_local_allocator = global.replace_coroutine_local_allocator(local);
    }
}

/// An entry followed by an exit leaves the slot and the thread's allocator
/// as they were.
pub proof fn lemma_entry_exit_restores<A>(
    memory: CoroutineMemory<A>,
    global: SwitchableAllocator<A>,
    memory_in: CoroutineMemory<A>,
    global_in: SwitchableAllocator<A>,
    memory_out: CoroutineMemory<A>,
    global_out: SwitchableAllocator<A>,
)
    requires
        exchanged(memory, global, memory_in, global_in),
        exchanged(memory_in, global_in, memory_out, global_out),
    ensures
        memory_out == memory,
        global_out == global,
{
}

} // verus!

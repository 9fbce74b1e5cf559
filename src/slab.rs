//! A fixed-capacity slab of instance slots, each with a generation counter,
//! that hands out 64-bit handles and resolves them back to slots only while
//! the generation still matches.
use crate::handle::{
    generation_of, index_of, is_coroutine_of, manager_index_of, reserved_bits_of, user_bits_of,
    CoroutineGenerationCounter, CoroutineInstanceHandle, CoroutineManagerIndex, UserBits,
};
use vstd::prelude::*;

verus! {

/// The largest number of slots a slab can have: a slot index has 24 bits.
pub const MAXIMUM_SLOTS: u32 = 0x100_0000;

/// The slab has no free slot.
#[derive(Debug, Clone, Copy, PartialEq, Eq, Structural)]
pub struct AllocErr;

/// What a slot holds, as contracts see it.
pub struct SlotView<T> {
    pub generation: nat,
    pub occupant: Option<T>,
}

/// Is slot `i` in use?
pub open spec fn occupied<T>(v: Seq<SlotView<T>>, i: int) -> bool {
    0 <= i < v.len() && v[i].occupant is Some
}

/// Are all slots in use?
pub open spec fn full<T>(v: Seq<SlotView<T>>) -> bool {
    forall|i: int| 0 <= i < v.len() ==> #[trigger] occupied(v, i)
}

/// The slot that handle value `h` names in a slab of manager `manager`, if
/// the handle is for a coroutine of that manager and its generation is the
/// slot's current one.
pub open spec fn resolved<T>(v: Seq<SlotView<T>>, manager: u8, h: u64) -> Option<int> {
    if is_coroutine_of(h) && manager_index_of(h) == manager && occupied(v, index_of(h) as int)
        && v[index_of(h) as int].generation == generation_of(h) {
        Some(index_of(h) as int)
    } else {
        None
    }
}

/// Slot `i` after it is given up: empty, its generation one further modulo `2^24`.
pub open spec fn released<T>(v: Seq<SlotView<T>>, i: int) -> Seq<SlotView<T>> {
    v.update(i, SlotView { generation: ((v[i].generation + 1) % 0x100_0000) as nat, occupant: None })
}

/// Slot `i` after it takes `value`; its generation is kept.
pub open spec fn filled<T>(v: Seq<SlotView<T>>, i: int, value: T) -> Seq<SlotView<T>> {
    v.update(i, SlotView { generation: v[i].generation, occupant: Some(value) })
}

/// Slot `i` after it is given up and taken again once for each of `values`, in order.
pub open spec fn recycled<T>(v: Seq<SlotView<T>>, i: int, values: Seq<T>) -> Seq<SlotView<T>>
    decreases values.len(),
{
    if values.len() == 0 {
        v
    } else {
        filled(released(recycled(v, i, values.drop_last()), i), i, values.last())
    }
}

proof fn lemma_generation_field_fits(h: u64)
    ensures
        generation_of(h) < 0x100_0000,
{
    assert((h >> 24u64) & 0xFF_FFFFu64 < 0x100_0000) by (bit_vector);
}

/// Once the slot that a handle names has been given up and taken again, the
/// handle no longer resolves.
pub proof fn lemma_stale_after_reuse<T>(v: Seq<SlotView<T>>, manager: u8, h: u64, j: int, value: T)
    requires
        resolved(v, manager, h) is Some,
        0 <= j < v.len(),
        !occupied(released(v, index_of(h) as int), j),
    ensures
        resolved(released(v, index_of(h) as int), manager, h) is None,
        resolved(filled(released(v, index_of(h) as int), j, value), manager, h) is None,
{
    lemma_generation_field_fits(h);
}

proof fn lemma_recycled_slot<T>(v: Seq<SlotView<T>>, i: int, values: Seq<T>)
    requires
        0 <= i < v.len(),
    ensures
        recycled(v, i, values).len() == v.len(),
        values.len() > 0 ==> recycled(v, i, values)[i].occupant == Some(values.last()),
        values.len() > 0 ==> recycled(v, i, values)[i].generation == (v[i].generation + values.len()) % 0x100_0000,
    decreases values.len(),
{
    if values.len() > 0 {
        lemma_recycled_slot(v, i, values.drop_last());
        let n = values.len() as int;
        let g = v[i].generation as int;
        if n > 1 {
            assert(((g + (n - 1)) % 0x100_0000 + 1) % 0x100_0000 == (g + n) % 0x100_0000) by {
                vstd::arithmetic::div_mod::lemma_add_mod_noop(g + (n - 1), 1, 0x100_0000);
                vstd::arithmetic::div_mod::lemma_small_mod(1, 0x100_0000);
                vstd::arithmetic::div_mod::lemma_mod_twice(g + (n - 1), 0x100_0000);
            }
        }
    }
}

/// A handle taken while its slot was in use stays unresolvable through any
/// number of give-up-and-take-again cycles of that slot below `2^24`.
pub proof fn lemma_stale_after_cycles<T>(v: Seq<SlotView<T>>, manager: u8, h: u64, values: Seq<T>)
    requires
        resolved(v, manager, h) is Some,
        1 <= values.len() < 0x100_0000,
    ensures
        resolved(recycled(v, index_of(h) as int, values), manager, h) is None,
{
    let i = index_of(h) as int;
    lemma_generation_field_fits(h);
    lemma_recycled_slot(v, i, values);
    let g = v[i].generation as int;
    let n = values.len() as int;
    if g + n < 0x100_0000 {
        vstd::arithmetic::div_mod::lemma_small_mod((g + n) as nat, 0x100_0000);
    } else {
        vstd::arithmetic::div_mod::lemma_mod_sub_multiples_vanish(g + n, 0x100_0000);
        vstd::arithmetic::div_mod::lemma_small_mod((g + n - 0x100_0000) as nat, 0x100_0000);
    }
}

/// One slot of the slab.
pub struct Slot<T> {
    generation: CoroutineGenerationCounter,
    occupant: Option<T>,
}

impl<T> View for Slot<T> {
    type V = SlotView<T>;

    closed spec fn view(&self) -> SlotView<T> {
        SlotView { generation: self.generation.value() as nat, occupant: self.occupant }
    }
}

/// The slab of one coroutine manager.
pub struct CoroutineInstanceAllocator<T> {
    manager_index: CoroutineManagerIndex,
    slots: Vec<Slot<T>>,
    free: Vec<u32>,
}

impl<T> View for CoroutineInstanceAllocator<T> {
    type V = Seq<SlotView<T>>;

    closed spec fn view(&self) -> Seq<SlotView<T>> {
        self.slots@.map_values(|s: Slot<T>| s@)
    }
}

impl<T> CoroutineInstanceAllocator<T> {
    /// The index of the manager that owns the slab.
    pub closed spec fn manager(&self) -> u8 {
        self.manager_index.0
    }

    /// The free list holds each empty slot once and nothing else.
    pub closed spec fn wf(&self) -> bool {
        &&& self.slots.len() <= 0x100_0000
        &&& self.free@.no_duplicates()
        &&& forall|k: int| 0 <= k < self.free.len() ==> (#[trigger] self.free@[k]) < self.slots.len()
            && self.slots@[self.free@[k] as int].occupant is None
        &&& forall|i: int| 0 <= i < self.slots.len() && (#[trigger] self.slots@[i]).occupant is None
            ==> self.free@.contains(i as u32)
    }

    /// A slab of `capacity` empty slots, each at generation zero.
    pub fn new(manager_index: CoroutineManagerIndex, capacity: u32) -> (r: Self)
        requires
            capacity <= 0x100_0000,
        ensures
            r.wf(),
            r.manager() == manager_index.0,
            r@.len() == capacity,
            forall|i: int| 0 <= i < capacity ==> (#[trigger] r@[i]).generation == 0 && r@[i].occupant is None,
    {
        let mut slots: Vec<Slot<T>> = Vec::new();
        let mut free: Vec<u32> = Vec::new();
        let mut n: u32 = 0;
        while n < capacity
            invariant
                n <= capacity,
                capacity <= 0x100_0000,
                slots.len() == n,
                free.len() == n,
                forall|i: int| 0 <= i < n ==> (#[trigger] slots@[i]).generation.value() == 0 && slots@[i].occupant is None,
                forall|k: int| 0 <= k < n ==> (#[trigger] free@[k]) == (n - 1 - k) as u32,
            decreases capacity - n,
        {
            slots.push(Slot { generation: CoroutineGenerationCounter::initial(), occupant: None });
            free.insert(0, n);
            n = n + 1;
        }
        let r = CoroutineInstanceAllocator { manager_index, slots, free };
        assert forall|i: int| 0 <= i < r.slots.len() && (#[trigger] r.slots@[i]).occupant is None
            implies r.free@.contains(i as u32) by {
            assert(r.free@[(n - 1 - i) as int] == i as u32);
        }
        assert forall|a: int, b: int| 0 <= a < r.free.len() && 0 <= b < r.free.len() && a != b
            implies r.free@[a] != r.free@[b] by {
            assert(r.free@[a] == (n - 1 - a) as u32);
            assert(r.free@[b] == (n - 1 - b) as u32);
        }
        r
    }

    /// The number of slots.
    pub fn capacity(&self) -> (r: usize)
        ensures
            r == self@.len(),
    {
        self.slots.len()
    }

    /// The slot that `handle` names, if it is for this manager and still current.
    pub fn resolve(&self, handle: CoroutineInstanceHandle) -> (r: Option<usize>)
        requires
            self.wf(),
        ensures
            r matches Some(i) ==> resolved(self@, self.manager(), handle@) == Some(i as int),
            r is None ==> resolved(self@, self.manager(), handle@) is None,
    {
        if !handle.is_coroutine() {
            return None;
        }
        if handle.coroutine_manager_index().0 != self.manager_index.0 {
            return None;
        }
        let index: u32 = handle.index();
        if index as usize >= self.slots.len() {
            return None;
        }
        let slot = &self.slots[index as usize];
        if slot.occupant.is_none() {
            return None;
        }
        if slot.generation.get() != handle.generation().get() {
            return None;
        }
        Some(index as usize)
    }

    /// Takes a free slot for `value` and returns a handle to it; fails only
    /// when every slot is in use.
    pub fn allocate(&mut self, value: T) -> (r: Result<CoroutineInstanceHandle, AllocErr>)
        requires
            old(self).wf(),
        ensures
            final(self).wf(),
            final(self).manager() == old(self).manager(),
            r is Err <==> full(old(self)@),
            r is Err ==> final(self)@ == old(self)@,
            r matches Ok(h) ==> {
                let i = index_of(h@) as int;
                &&& 0 <= i < old(self)@.len()
                &&& !occupied(old(self)@, i)
                &&& final(self)@ == filled(old(self)@, i, value)
                &&& is_coroutine_of(h@)
                &&& manager_index_of(h@) == old(self).manager()
                &&& user_bits_of(h@) == 0
                &&& reserved_bits_of(h@) == 0
                &&& generation_of(h@) == old(self)@[i].generation
                &&& resolved(final(self)@, final(self).manager(), h@) == Some(i)
            },
    {
        proof {
            self.slots@.map_values(|s: Slot<T>| s@).len();
        }
        match self.free.pop() {
            None => {
                proof {
                    assert forall|i: int| 0 <= i < old(self)@.len() implies #[trigger] occupied(old(self)@, i) by {
                        assert(old(self)@[i] == old(self).slots@[i]@);
                        if old(self).slots@[i].occupant is None {
                            assert(old(self).free@.contains(i as u32));
                        }
                    }
                }
                Err(AllocErr)
            },
            Some(index) => {
                proof {
                    assert(old(self).free@[old(self).free.len() - 1] == index);
                    assert(self.free@ == old(self).free@.drop_last());
                }
                let mut slot = Slot { generation: CoroutineGenerationCounter::initial(), occupant: None };
                self.slots.set_and_swap(index as usize, &mut slot);
                let generation = slot.generation;
                self.slots.set(index as usize, Slot { generation, occupant: Some(value) });
                let handle = CoroutineInstanceHandle::new(true, self.manager_index, UserBits::zero(), generation, index);
                proof {
                    let i = index as int;
                    assert(!occupied(old(self)@, i)) by {
                        assert(old(self)@[i] == old(self).slots@[i]@);
                    }
                    assert(self@ =~= filled(old(self)@, i, value)) by {
                        assert forall|j: int| 0 <= j < self@.len() implies self@[j] == filled(old(self)@, i, value)[j] by {
                            assert(self@[j] == self.slots@[j]@);
                            assert(old(self)@[j] == old(self).slots@[j]@);
                        }
                    }
                    assert forall|k: int| 0 <= k < self.free.len() implies (#[trigger] self.free@[k]) < self.slots.len()
                        && self.slots@[self.free@[k] as int].occupant is None by {
                        assert(self.free@[k] == old(self).free@[k]);
                        assert(old(self).free@[old(self).free.len() - 1] != old(self).free@[k]);
                    }
                    assert forall|j: int| 0 <= j < self.slots.len() && (#[trigger] self.slots@[j]).occupant is None
                        implies self.free@.contains(j as u32) by {
                        assert(old(self).slots@[j] == self.slots@[j]);
                        assert(old(self).free@.contains(j as u32));
                        let k = choose|k: int| 0 <= k < old(self).free.len() && old(self).free@[k] == j as u32;
                        assert(k != old(self).free.len() - 1);
                        assert(self.free@[k] == j as u32);
                    }
                    assert(self@[i] == self.slots@[i]@);
                }
                Ok(handle)
            },
        }
    }

    /// The value in the slot that `handle` names, if the handle is current.
    pub fn get(&self, handle: CoroutineInstanceHandle) -> (r: Option<&T>)
        requires
            self.wf(),
        ensures
            r matches Some(v) ==> resolved(self@, self.manager(), handle@) matches Some(i) && self@[i].occupant == Some(*v),
            r is None ==> resolved(self@, self.manager(), handle@) is None,
    {
        match self.resolve(handle) {
            None => None,
            Some(index) => {
                proof {
                    assert(self@[index as int] == self.slots@[index as int]@);
                }
                self.slots[index].occupant.as_ref()
            },
        }
    }

    /// The handle of slot `index` and its value, if the slot is in use.
    pub fn handle_at(&self, index: usize) -> (r: Option<(CoroutineInstanceHandle, &T)>)
        requires
            self.wf(),
            index < self@.len(),
        ensures
            r is Some <==> occupied(self@, index as int),
            r matches Some(p) ==> {
                &&& resolved(self@, self.manager(), p.0@) == Some(index as int)
                &&& self@[index as int].occupant == Some(*p.1)
            },
    {
        proof {
            assert(self@[index as int] == self.slots@[index as int]@);
        }
        let slot = &self.slots[index];
        match &slot.occupant {
            None => None,
            Some(value) => {
                let handle = CoroutineInstanceHandle::new(true, self.manager_index, UserBits::zero(), slot.generation, index as u32);
                Some((handle, value))
            },
        }
    }

    /// Puts `value` in slot `index`, which is in use, and hands back what was there.
    pub fn replace(&mut self, index: usize, value: T) -> (r: T)
        requires
            old(self).wf(),
            occupied(old(self)@, index as int),
        ensures
            final(self).wf(),
            final(self).manager() == old(self).manager(),
            final(self)@ == filled(old(self)@, index as int, value),
            Some(r) == old(self)@[index as int].occupant,
    {
        proof {
            assert(old(self)@[index as int] == old(self).slots@[index as int]@);
        }
        let generation = self.slots[index].generation;
        let mut slot = Slot { generation, occupant: Some(value) };
        self.slots.set_and_swap(index, &mut slot);
        proof {
            let i = index as int;
            assert(self@ =~= filled(old(self)@, i, value)) by {
                assert forall|j: int| 0 <= j < self@.len() implies self@[j] == filled(old(self)@, i, value)[j] by {
                    assert(self@[j] == self.slots@[j]@);
                    assert(old(self)@[j] == old(self).slots@[j]@);
                }
            }
            assert forall|k: int| 0 <= k < self.free.len() implies (#[trigger] self.free@[k]) < self.slots.len()
                && self.slots@[self.free@[k] as int].occupant is None by {
                assert(old(self).slots@[old(self).free@[k] as int].occupant is None);
            }
            assert forall|j: int| 0 <= j < self.slots.len() && (#[trigger] self.slots@[j]).occupant is None
                implies self.free@.contains(j as u32) by {
                assert(old(self).slots@[j] == self.slots@[j]);
            }
        }
        slot.occupant.unwrap()
    }

    /// The value in slot `index`, which is in use, for change in place.
    pub fn occupant_mut(&mut self, index: usize) -> (r: &mut T)
        requires
            old(self).wf(),
            occupied(old(self)@, index as int),
        ensures
            *r == old(self)@[index as int].occupant->0,
            final(self).wf(),
            final(self).manager() == old(self).manager(),
            final(self)@ == filled(old(self)@, index as int, *final(r)),
    {
        proof {
            assert(old(self)@[index as int] == old(self).slots@[index as int]@);
        }
        let slot = &mut self.slots[index];
        slot.occupant.as_mut().unwrap()
    }

    /// Gives up the slot that `handle` names, if the handle is current: the
    /// slot is emptied, its generation moves one further and it goes back on
    /// the free list. Hands back what the slot held.
    pub fn free(&mut self, handle: CoroutineInstanceHandle) -> (r: Option<T>)
        requires
            old(self).wf(),
        ensures
            final(self).wf(),
            final(self).manager() == old(self).manager(),
            match resolved(old(self)@, old(self).manager(), handle@) {
                Some(i) => final(self)@ == released(old(self)@, i) && r == old(self)@[i].occupant,
                None => final(self)@ == old(self)@ && r is None,
            },
    {
        match self.resolve(handle) {
            None => None,
            Some(index) => {
                let mut slot = Slot { generation: CoroutineGenerationCounter::initial(), occupant: None };
                self.slots.set_and_swap(index, &mut slot);
                let generation = slot.generation.next();
                self.slots.set(index, Slot { generation, occupant: None });
                proof {
                    let i = index as int;
                    assert(old(self)@[i] == old(self).slots@[i]@);
                    assert(!old(self).free@.contains(index as u32)) by {
                        if old(self).free@.contains(index as u32) {
                            let k = choose|k: int| 0 <= k < old(self).free.len() && old(self).free@[k] == index as u32;
                            assert(old(self).slots@[old(self).free@[k] as int].occupant is None);
                        }
                    }
                }
                self.free.push(index as u32);
                proof {
                    let i = index as int;
                    assert(self@ =~= released(old(self)@, i)) by {
                        assert forall|j: int| 0 <= j < self@.len() implies self@[j] == released(old(self)@, i)[j] by {
                            assert(self@[j] == self.slots@[j]@);
                            assert(old(self)@[j] == old(self).slots@[j]@);
                        }
                    }
                    assert forall|k: int| 0 <= k < self.free.len() implies (#[trigger] self.free@[k]) < self.slots.len()
                        && self.slots@[self.free@[k] as int].occupant is None by {
                        if k < old(self).free.len() {
                            assert(self.free@[k] == old(self).free@[k]);
                            assert(old(self).slots@[old(self).free@[k] as int].occupant is None);
                        }
                    }
                    assert forall|j: int| 0 <= j < self.slots.len() && (#[trigger] self.slots@[j]).occupant is None
                        implies self.free@.contains(j as u32) by {
                        if j == i {
                            assert(self.free@[self.free.len() - 1] == index as u32);
                        } else {
                            assert(old(self).slots@[j] == self.slots@[j]);
                            let k = choose|k: int| 0 <= k < old(self).free.len() && old(self).free@[k] == j as u32;
                            assert(self.free@[k] == j as u32);
                        }
                    }
                    assert forall|a: int, b: int| 0 <= a < self.free.len() && 0 <= b < self.free.len() && a != b
                        implies self.free@[a] != self.free@[b] by {
                        if a < old(self).free.len() && b < old(self).free.len() {
                            assert(self.free@[a] == old(self).free@[a]);
                            assert(self.free@[b] == old(self).free@[b]);
                        } else if a < old(self).free.len() {
                            assert(self.free@[a] == old(self).free@[a]);
                            assert(old(self).free@.contains(self.free@[a]));
                        } else if b < old(self).free.len() {
                            assert(self.free@[b] == old(self).free@[b]);
                            assert(old(self).free@.contains(self.free@[b]));
                        }
                    }
                }
                slot.occupant
            },
        }
    }
}

/// A handle typed by what its slot holds.
#[derive(Debug)]
pub struct CoroutineInstancePointer<T> {
    handle: CoroutineInstanceHandle,
    marker: core::marker::PhantomData<T>,
}

impl<T> View for CoroutineInstancePointer<T> {
    type V = u64;

    closed spec fn view(&self) -> u64 {
        self.handle@
    }
}

impl<T> CoroutineInstancePointer<T> {
    /// Types `coroutine_instance_handle` as naming a slot that holds a `T`.
    pub fn from_handle(coroutine_instance_handle: CoroutineInstanceHandle) -> (r: Self)
        ensures
            r@ == coroutine_instance_handle@,
    {
        CoroutineInstancePointer { handle: coroutine_instance_handle, marker: core::marker::PhantomData }
    }

    /// The untyped handle.
    pub fn as_coroutine_instance_handle(&self) -> (r: CoroutineInstanceHandle)
        ensures
            r@ == self@,
    {
        self.handle
    }

    /// The generation the slot had when the handle was made.
    pub fn was_generation(&self) -> (r: CoroutineGenerationCounter)
        ensures
            r.value() == generation_of(self@),
    {
        self.handle.generation()
    }

    /// Address of the slot in a slab at `base_pointer` whose slots take
    /// `element_size` bytes, whatever the slot's generation.
    pub fn into_absolute_pointer(&self, base_pointer: usize, element_size: usize) -> (r: usize)
        requires
            base_pointer + index_of(self@) * element_size <= usize::MAX,
        ensures
            r == base_pointer + index_of(self@) * element_size,
    {
        self.handle.into_absolute_pointer(base_pointer, element_size)
    }

    /// The slot, only while the generation matches.
    pub fn pointer(&self, allocator: &CoroutineInstanceAllocator<T>) -> (r: Option<usize>)
        requires
            allocator.wf(),
        ensures
            r matches Some(i) ==> resolved(allocator@, allocator.manager(), self@) == Some(i as int),
            r is None ==> resolved(allocator@, allocator.manager(), self@) is None,
    {
        allocator.resolve(self.handle)
    }
}

} // verus!

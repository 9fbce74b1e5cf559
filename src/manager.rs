//! The coroutine manager: the decisions of an instance's lifecycle.
//!
//! A context switch itself happens outside this module. The manager is told
//! before each switch what is about to be handed to the child, and after it
//! what the child handed back; it keeps each slot's state, swaps the
//! allocator binding at every crossing, and frees the slot (moving its
//! generation on) when the child completes.
use crate::handle::{
    generation_of, index_of, is_coroutine_of, manager_index_of, reserved_bits_of, user_bits_of,
    CoroutineInstanceHandle, CoroutineManagerIndex,
};
use crate::memory::{exchanged, CoroutineMemory, CurrentAllocatorInUse, SwitchableAllocator};
use crate::protocol::{parent_view, yield_answer, ChildOutcome, ParentInstructingChild, ResumeOutcome};
use crate::slab::{filled, full, occupied, released, resolved, AllocErr, CoroutineInstanceAllocator, SlotView};
use vstd::prelude::*;

verus! {

/// Where an allocated instance stands.
#[derive(Debug, Clone, Copy, PartialEq, Eq, Structural)]
pub enum InstanceState {
    /// Control has been handed to the child, which has not handed it back.
    Running,
    /// The child yielded and waits for a resume or a kill.
    Suspended,
    /// The child has been told to die and has not handed control back.
    Killing,
}

/// What a slot of the manager holds while its coroutine is alive.
pub struct CoroutineInstance<I, A> {
    pub coroutine_information: I,
    pub memory: CoroutineMemory<A>,
    pub state: InstanceState,
}

/// The manager could not be made.
#[derive(Debug, Clone, Copy, PartialEq, Eq, Structural)]
pub enum CreationError {
    /// Asked for no slot, or for more than a handle can name (`2^24`).
    UnsupportedNumberOfCoroutines,
}

/// A handle that names no suspended instance of this manager.
#[derive(Debug, Clone, Copy, PartialEq, Eq, Structural)]
pub enum ResumeError {
    /// The handle is for another manager, or its instance has completed.
    StaleHandle,
    /// The instance is running or being killed, not suspended.
    NotSuspended,
}

/// What the caller of `cancel_coroutine` must do next.
#[derive(Debug, Clone, Copy, PartialEq, Eq, Structural)]
pub enum CancelAction {
    /// Switch to the child with `Kill` and hand its outcome to `process_child_outcome`.
    SendKill,
    /// Nothing: the handle is stale.
    StaleHandle,
    /// Nothing: the instance is not suspended.
    NotSuspended,
}

/// The child broke the switching protocol.
#[derive(Debug, Clone, Copy, PartialEq, Eq, Structural)]
pub enum ProtocolViolation {
    /// No instance of this manager waits for an outcome under that handle.
    NotRunning,
    /// A killed child yielded instead of completing; its slot has been freed.
    KilledCoroutineYielded,
}

/// The instance in slot `i`.
pub open spec fn instance_at<I, A>(v: Seq<SlotView<CoroutineInstance<I, A>>>, i: int) -> CoroutineInstance<I, A> {
    v[i].occupant->0
}

/// Slot `i` with its instance's state set to `state` and its memory set to `memory`.
pub open spec fn with_instance<I, A>(
    v: Seq<SlotView<CoroutineInstance<I, A>>>,
    i: int,
    state: InstanceState,
    memory: CoroutineMemory<A>,
) -> Seq<SlotView<CoroutineInstance<I, A>>> {
    filled(v, i, CoroutineInstance { coroutine_information: instance_at(v, i).coroutine_information, memory, state })
}

/// A coroutine that has just been started is running, so the outcome that
/// follows is taken as an answer to the start: a completion at once is
/// handed back as it is and frees the slot.
pub proof fn lemma_started_instance_runs<I, A>(v: Seq<SlotView<CoroutineInstance<I, A>>>, i: int, instance: CoroutineInstance<I, A>)
    requires
        0 <= i < v.len(),
        instance.state == InstanceState::Running,
    ensures
        instance_at(filled(v, i, instance), i).state == InstanceState::Running,
        released(filled(v, i, instance), i) == released(v, i),
{
    assert(released(filled(v, i, instance), i) =~= released(v, i));
}

/// The instruction that `resume_coroutine` hands out for `a` makes the
/// child's pending yield return `Ok(a)`.
pub proof fn lemma_resume_reaches_child<R, E>(a: R, kill_error: E)
    ensures
        yield_answer(ParentInstructingChild::Resume(a), kill_error) == Ok::<R, E>(a),
{
}

/// Killing a suspended coroutine: its pending yield returns the kill error,
/// and once it completes its slot is empty with the generation moved on by
/// exactly one (modulo `2^24`).
pub proof fn lemma_kill_moves_generation_once<I, A, R, E>(v: Seq<SlotView<CoroutineInstance<I, A>>>, i: int, kill_error: E)
    requires
        0 <= i < v.len(),
    ensures
        yield_answer(ParentInstructingChild::<R>::Kill, kill_error) == Err::<R, E>(kill_error),
        released(v, i)[i].generation == (v[i].generation + 1) % 0x100_0000,
        released(v, i)[i].occupant is None,
        forall|j: int| 0 <= j < v.len() && j != i ==> #[trigger] released(v, i)[j] == v[j],
{
}

/// After a completion, with a result or a panic, the freed slot can be taken
/// again: the slab is not full.
pub proof fn lemma_completion_frees_slot<I, A>(v: Seq<SlotView<CoroutineInstance<I, A>>>, i: int)
    requires
        0 <= i < v.len(),
    ensures
        !occupied(released(v, i), i),
        !full(released(v, i)),
{
    assert(!occupied(released(v, i), i));
}

/// Owns the slab of one kind of coroutine and the index used in its handles.
pub struct CoroutineManager<I, A> {
    coroutine_instance_allocator: CoroutineInstanceAllocator<CoroutineInstance<I, A>>,
    index: CoroutineManagerIndex,
}

impl<I, A> View for CoroutineManager<I, A> {
    type V = Seq<SlotView<CoroutineInstance<I, A>>>;

    closed spec fn view(&self) -> Seq<SlotView<CoroutineInstance<I, A>>> {
        self.coroutine_instance_allocator@
    }
}

impl<I, A> CoroutineManager<I, A> {
    /// The index of this manager.
    pub closed spec fn index(&self) -> u8 {
        self.index.0
    }

    /// The slab is well formed and belongs to this manager.
    pub closed spec fn wf(&self) -> bool {
        &&& self.coroutine_instance_allocator.wf()
        &&& self.coroutine_instance_allocator.manager() == self.index.0
    }

    /// A manager with `ideal_maximum_number_of_coroutines` empty slots.
    pub fn new(index: CoroutineManagerIndex, ideal_maximum_number_of_coroutines: u64) -> (r: Result<Self, CreationError>)
        ensures
            r is Ok <==> 0 < ideal_maximum_number_of_coroutines <= 0x100_0000,
            r matches Ok(m) ==> {
                &&& m.wf()
                &&& m.index() == index.0
                &&& m@.len() == ideal_maximum_number_of_coroutines
                &&& forall|i: int| 0 <= i < m@.len() ==> (#[trigger] m@[i]).generation == 0 && m@[i].occupant is None
            },
    {
        if ideal_maximum_number_of_coroutines == 0 || ideal_maximum_number_of_coroutines > 0x100_0000 {
            return Err(CreationError::UnsupportedNumberOfCoroutines);
        }
        let coroutine_instance_allocator = CoroutineInstanceAllocator::new(index, ideal_maximum_number_of_coroutines as u32);
        Ok(CoroutineManager { coroutine_instance_allocator, index })
    }

    /// Is `index` this manager's index?
    pub fn has_index(&self, index: CoroutineManagerIndex) -> (r: bool)
        ensures
            r == (self.index() == index.0),
    {
        self.index.0 == index.0
    }

    /// The instance that `handle` names, if it is current.
    pub fn instance(&self, handle: CoroutineInstanceHandle) -> (r: Option<&CoroutineInstance<I, A>>)
        requires
            self.wf(),
        ensures
            r matches Some(c) ==> resolved(self@, self.index(), handle@) matches Some(i) && instance_at(self@, i) == *c,
            r is None ==> resolved(self@, self.index(), handle@) is None,
    {
        self.coroutine_instance_allocator.get(handle)
    }

    /// Takes a slot for a new coroutine and prepares its entry: the slot's
    /// local allocator is installed in `global`. Returns the handle that the
    /// child receives with its start arguments (its user bits are zero).
    /// Fails, changing nothing, only when every slot is in use.
    pub fn start_coroutine(
        &mut self,
        global: &mut SwitchableAllocator<A>,
        coroutine_information: I,
        coroutine_local_allocator: A,
    ) -> (r: Result<CoroutineInstanceHandle, AllocErr>)
        requires
            old(self).wf(),
        ensures
            final(self).wf(),
            final(self).index() == old(self).index(),
            r is Err <==> full(old(self)@),
            r is Err ==> final(self)@ == old(self)@ && *final(global) == *old(global),
            r matches Ok(h) ==> {
                let i = index_of(h@) as int;
                &&& 0 <= i < old(self)@.len()
                &&& !occupied(old(self)@, i)
                &&& is_coroutine_of(h@)
                &&& manager_index_of(h@) == old(self).index()
                &&& user_bits_of(h@) == 0
                &&& reserved_bits_of(h@) == 0
                &&& generation_of(h@) == old(self)@[i].generation
                &&& resolved(final(self)@, final(self).index(), h@) == Some(i)
                &&& final(self)@ == filled(old(self)@, i, CoroutineInstance {
                    coroutine_information,
                    memory: CoroutineMemory {
                        inactive_coroutine_local_allocator: old(global).coroutine_local_allocator,
                        inactive_current_allocator_in_use: old(global).current_allocator_in_use,
                    },
                    state: InstanceState::Running,
                })
                &&& final(global).coroutine_local_allocator == Some(coroutine_local_allocator)
                &&& final(global).current_allocator_in_use == CurrentAllocatorInUse::CoroutineLocal
            },
    {
        let instance = CoroutineInstance {
            coroutine_information,
            memory: CoroutineMemory::new(coroutine_local_allocator),
            state: InstanceState::Suspended,
        };
        match self.coroutine_instance_allocator.allocate(instance) {
            Err(e) => Err(e),
            Ok(handle) => {
                let index: u32 = handle.index();
                let slot = self.coroutine_instance_allocator.occupant_mut(index as usize);
                slot.memory.pre_transfer_control_to_coroutine(global);
                slot.state = InstanceState::Running;
                proof {
                    let i = index as int;
                    assert(self@ =~= filled(old(self)@, i, instance_at(self@, i)));
                }
                Ok(handle)
            },
        }
    }

    /// Prepares the resumption of the suspended instance that `handle`
    /// names: its local allocator is installed in `global`, and the
    /// instruction to hand to the child is returned. Changes nothing when the
    /// handle is stale or the instance is not suspended.
    pub fn resume_coroutine<R>(
        &mut self,
        global: &mut SwitchableAllocator<A>,
        handle: CoroutineInstanceHandle,
        resume_arguments: R,
    ) -> (r: Result<ParentInstructingChild<R>, ResumeError>)
        requires
            old(self).wf(),
        ensures
            final(self).wf(),
            final(self).index() == old(self).index(),
            match resolved(old(self)@, old(self).index(), handle@) {
                None => r == Err::<ParentInstructingChild<R>, ResumeError>(ResumeError::StaleHandle)
                    && final(self)@ == old(self)@ && *final(global) == *old(global),
                Some(i) => if instance_at(old(self)@, i).state == InstanceState::Suspended {
                    &&& r == Ok::<ParentInstructingChild<R>, ResumeError>(ParentInstructingChild::Resume(resume_arguments))
                    &&& exists|memory: CoroutineMemory<A>| {
                        &&& exchanged(instance_at(old(self)@, i).memory, *old(global), memory, *final(global))
                        &&& final(self)@ == with_instance(old(self)@, i, InstanceState::Running, memory)
                    }
                } else {
                    r == Err::<ParentInstructingChild<R>, ResumeError>(ResumeError::NotSuspended)
                        && final(self)@ == old(self)@ && *final(global) == *old(global)
                },
            },
    {
        match self.coroutine_instance_allocator.resolve(handle) {
            None => Err(ResumeError::StaleHandle),
            Some(index) => {
                let slot = self.coroutine_instance_allocator.occupant_mut(index);
                if slot.state != InstanceState::Suspended {
                    proof {
                        assert(self@ =~= old(self)@);
                    }
                    return Err(ResumeError::NotSuspended);
                }
                slot.memory.pre_transfer_control_to_coroutine(global);
                slot.state = InstanceState::Running;
                proof {
                    let i = index as int;
                    let memory = instance_at(self@, i).memory;
                    assert(self@ =~= with_instance(old(self)@, i, InstanceState::Running, memory));
                }
                Ok(ParentInstructingChild::Resume(resume_arguments))
            },
        }
    }

    /// Starts the cancellation of the suspended instance that `handle`
    /// names: its local allocator is installed in `global` so that the
    /// child unwinds on its own heap, and `SendKill` is returned. Changes
    /// nothing when the handle is stale or the instance is not suspended.
    pub fn cancel_coroutine(&mut self, global: &mut SwitchableAllocator<A>, handle: CoroutineInstanceHandle) -> (r: CancelAction)
        requires
            old(self).wf(),
        ensures
            final(self).wf(),
            final(self).index() == old(self).index(),
            match resolved(old(self)@, old(self).index(), handle@) {
                None => r == CancelAction::StaleHandle && final(self)@ == old(self)@ && *final(global) == *old(global),
                Some(i) => if instance_at(old(self)@, i).state == InstanceState::Suspended {
                    &&& r == CancelAction::SendKill
                    &&& exists|memory: CoroutineMemory<A>| {
                        &&& exchanged(instance_at(old(self)@, i).memory, *old(global), memory, *final(global))
                        &&& final(self)@ == with_instance(old(self)@, i, InstanceState::Killing, memory)
                    }
                } else {
                    r == CancelAction::NotSuspended && final(self)@ == old(self)@ && *final(global) == *old(global)
                },
            },
    {
        match self.coroutine_instance_allocator.resolve(handle) {
            None => CancelAction::StaleHandle,
            Some(index) => {
                let slot = self.coroutine_instance_allocator.occupant_mut(index);
                if slot.state != InstanceState::Suspended {
                    proof {
                        assert(self@ =~= old(self)@);
                    }
                    return CancelAction::NotSuspended;
                }
                slot.memory.pre_transfer_control_to_coroutine(global);
                slot.state = InstanceState::Killing;
                proof {
                    let i = index as int;
                    let memory = instance_at(self@, i).memory;
                    assert(self@ =~= with_instance(old(self)@, i, InstanceState::Killing, memory));
                }
                CancelAction::SendKill
            },
        }
    }

    /// The handles of all suspended instances, in slot order: the ones to
    /// kill, each on its own stack, before the manager's memory goes.
    pub fn suspended_handles(&self) -> (r: Vec<CoroutineInstanceHandle>)
        requires
            self.wf(),
        ensures
            forall|k: int| 0 <= k < r.len() ==> ((#[trigger] resolved(self@, self.index(), r@[k]@)) matches Some(i)
                && instance_at(self@, i).state == InstanceState::Suspended),
            forall|i: int| 0 <= i < self@.len() && occupied(self@, i) && #[trigger] instance_at(self@, i).state == InstanceState::Suspended
                ==> exists|k: int| 0 <= k < r.len() && resolved(self@, self.index(), r@[k]@) == Some(i),
            r@.no_duplicates(),
    {
        let mut handles: Vec<CoroutineInstanceHandle> = Vec::new();
        let ghost slot_of: Seq<int> = Seq::empty();
        let mut index: usize = 0;
        let n = self.coroutine_instance_allocator.capacity();
        while index < n
            invariant
                self.wf(),
                n == self@.len(),
                index <= n,
                slot_of.len() == handles.len(),
                forall|k: int| 0 <= k < handles.len() ==> {
                    &&& 0 <= #[trigger] slot_of[k] < index
                    &&& resolved(self@, self.index(), handles@[k]@) == Some(slot_of[k])
                    &&& instance_at(self@, slot_of[k]).state == InstanceState::Suspended
                },
                forall|a: int, b: int| 0 <= a < b < handles.len() ==> #[trigger] slot_of[a] < #[trigger] slot_of[b],
                forall|i: int| 0 <= i < index && occupied(self@, i) && #[trigger] instance_at(self@, i).state == InstanceState::Suspended
                    ==> exists|k: int| 0 <= k < handles.len() && slot_of[k] == i,
            decreases n - index,
        {
            let ghost handles_before = handles@;
            let ghost slot_of_before = slot_of;
            match self.coroutine_instance_allocator.handle_at(index) {
                None => {},
                Some((handle, instance)) => {
                    if instance.state == InstanceState::Suspended {
                        handles.push(handle);
                        proof {
                            slot_of = slot_of.push(index as int);
                        }
                    }
                },
            }
            proof {
                assert forall|i: int| 0 <= i < index + 1 && occupied(self@, i) && #[trigger] instance_at(self@, i).state == InstanceState::Suspended
                    implies exists|k: int| 0 <= k < handles.len() && slot_of[k] == i by {
                    if i < index {
                        let k = choose|k: int| 0 <= k < handles_before.len() && slot_of_before[k] == i;
                        assert(slot_of[k] == i);
                    } else {
                        assert(slot_of[handles.len() - 1] == i);
                    }
                }
            }
            index = index + 1;
        }
        proof {
            assert forall|k: int| 0 <= k < handles.len() implies ((#[trigger] resolved(self@, self.index(), handles@[k]@)) matches Some(i)
                && instance_at(self@, i).state == InstanceState::Suspended) by {
                assert(resolved(self@, self.index(), handles@[k]@) == Some(slot_of[k]));
            }
            assert forall|i: int| 0 <= i < self@.len() && occupied(self@, i) && #[trigger] instance_at(self@, i).state == InstanceState::Suspended
                implies exists|k: int| 0 <= k < handles.len() && resolved(self@, self.index(), handles@[k]@) == Some(i) by {
                let k = choose|k: int| 0 <= k < handles.len() && slot_of[k] == i;
                assert(resolved(self@, self.index(), handles@[k]@) == Some(i));
            }
            assert forall|a: int, b: int| 0 <= a < handles.len() && 0 <= b < handles.len() && a != b
                implies handles@[a] != handles@[b] by {
                if a < b {
                    assert(slot_of[a] < slot_of[b]);
                } else {
                    assert(slot_of[b] < slot_of[a]);
                }
            }
        }
        handles
    }

    /// Takes what the child handed back when it gave control to the parent.
    /// The thread's allocator binding is given back to `global`. A yield
    /// leaves the instance suspended; a completion, with a result or a
    /// panic, frees the slot and moves its generation on. The outcome is
    /// handed on unchanged, for the caller to return (or to raise again, for
    /// a panic). A killed child that yields is a violation: its slot is freed
    /// all the same.
    pub fn process_child_outcome<Y, C, P>(
        &mut self,
        global: &mut SwitchableAllocator<A>,
        handle: CoroutineInstanceHandle,
        outcome: ChildOutcome<Y, C, P>,
    ) -> (r: Result<ResumeOutcome<Y, C, P>, ProtocolViolation>)
        requires
            old(self).wf(),
        ensures
            final(self).wf(),
            final(self).index() == old(self).index(),
            match resolved(old(self)@, old(self).index(), handle@) {
                None => r == Err::<ResumeOutcome<Y, C, P>, ProtocolViolation>(ProtocolViolation::NotRunning)
                    && final(self)@ == old(self)@ && *final(global) == *old(global),
                Some(i) => if instance_at(old(self)@, i).state == InstanceState::Suspended {
                    r == Err::<ResumeOutcome<Y, C, P>, ProtocolViolation>(ProtocolViolation::NotRunning)
                        && final(self)@ == old(self)@ && *final(global) == *old(global)
                } else {
                    &&& exists|memory: CoroutineMemory<A>|
                        exchanged(instance_at(old(self)@, i).memory, *old(global), memory, *final(global))
                    &&& match outcome {
                        ChildOutcome::WouldLikeToResume(_) => if instance_at(old(self)@, i).state == InstanceState::Running {
                            &&& r == Ok::<ResumeOutcome<Y, C, P>, ProtocolViolation>(parent_view(outcome))
                            &&& exists|memory: CoroutineMemory<A>| {
                                &&& exchanged(instance_at(old(self)@, i).memory, *old(global), memory, *final(global))
                                &&& final(self)@ == with_instance(old(self)@, i, InstanceState::Suspended, memory)
                            }
                        } else {
                            &&& r == Err::<ResumeOutcome<Y, C, P>, ProtocolViolation>(ProtocolViolation::KilledCoroutineYielded)
                            &&& final(self)@ == released(old(self)@, i)
                        },
                        ChildOutcome::Complete(_) => {
                            &&& r == Ok::<ResumeOutcome<Y, C, P>, ProtocolViolation>(parent_view(outcome))
                            &&& final(self)@ == released(old(self)@, i)
                        },
                    }
                },
            },
    {
        let index = match self.coroutine_instance_allocator.resolve(handle) {
            None => {
                return Err(ProtocolViolation::NotRunning);
            },
            Some(index) => index,
        };
        let slot = self.coroutine_instance_allocator.occupant_mut(index);
        if slot.state == InstanceState::Suspended {
            proof {
                assert(self@ =~= old(self)@);
            }
            return Err(ProtocolViolation::NotRunning);
        }
        slot.memory.post_transfer_control_to_coroutine(global);
        let was_killed = slot.state == InstanceState::Killing;
        match outcome {
            ChildOutcome::WouldLikeToResume(yields) => {
                if was_killed {
                    let ghost before_free = self@;
                    let _ = self.coroutine_instance_allocator.free(handle);
                    proof {
                        let i = index as int;
                        assert(released(before_free, i) =~= released(old(self)@, i));
                    }
                    Err(ProtocolViolation::KilledCoroutineYielded)
                } else {
                    slot.state = InstanceState::Suspended;
                    proof {
                        let i = index as int;
                        let memory = instance_at(self@, i).memory;
                        assert(self@ =~= with_instance(old(self)@, i, InstanceState::Suspended, memory));
                    }
                    Ok(ResumeOutcome::WouldLikeToResume(yields))
                }
            },
            ChildOutcome::Complete(result) => {
                let ghost before_free = self@;
                let _ = self.coroutine_instance_allocator.free(handle);
                proof {
                    let i = index as int;
                    assert(released(before_free, i) =~= released(old(self)@, i));
                }
                Ok(ResumeOutcome::Complete(result))
            },
        }
    }
}

} // verus!

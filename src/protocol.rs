//! The messages that cross a context switch between a parent and the
//! coroutine it runs.
use crate::handle::CoroutineInstanceHandle;
use vstd::prelude::*;

verus! {

/// What the parent tells a suspended child when it hands control back.
#[derive(Debug)]
pub enum ParentInstructingChild<ResumeArguments> {
    /// Carry on, with these arguments.
    Resume(ResumeArguments),
    /// Unwind and complete without yielding again.
    Kill,
}

/// What the child tells the parent when it hands control back.
#[derive(Debug)]
pub enum ChildOutcome<Yields, Complete, Panic> {
    /// The child yielded this value and waits to be resumed.
    WouldLikeToResume(Yields),
    /// The child finished: with its result, or with the payload of a panic.
    Complete(Result<Complete, Panic>),
}

/// The result that a yield hands to the body once the parent has answered
/// with `instruction`: the resume arguments, or the kill error.
pub open spec fn yield_answer<ResumeArguments, E>(instruction: ParentInstructingChild<ResumeArguments>, kill_error: E) -> Result<ResumeArguments, E> {
    match instruction {
        ParentInstructingChild::Resume(a) => Ok(a),
        ParentInstructingChild::Kill => Err(kill_error),
    }
}

/// The child's view of a yield: the result that `yields` hands to the body
/// once the parent has answered with `instruction`.
pub fn yields_result<ResumeArguments, E>(instruction: ParentInstructingChild<ResumeArguments>, kill_error: E) -> (r: Result<ResumeArguments, E>)
    ensures
        r == yield_answer(instruction, kill_error),
{
    match instruction {
        ParentInstructingChild::Resume(resume_arguments) => Ok(resume_arguments),
        ParentInstructingChild::Kill => Err(kill_error),
    }
}

/// What the parent sees after it resumed the child.
#[derive(Debug)]
pub enum ResumeOutcome<Yields, Complete, Panic> {
    /// The child yielded this value and waits to be resumed.
    WouldLikeToResume(Yields),
    /// The child finished: with its result, or with the payload of a panic
    /// for the parent to raise again.
    Complete(Result<Complete, Panic>),
}

/// What the parent sees after it started the child.
#[derive(Debug)]
pub enum StartOutcome<Yields, Complete, Panic> {
    /// The child yielded this value; the handle names it for resumption.
    WouldLikeToResume(Yields, CoroutineInstanceHandle),
    /// The child finished: with its result, or with the payload of a panic
    /// for the parent to raise again.
    Complete(Result<Complete, Panic>),
}

/// The parent's view of what the child handed back.
pub open spec fn parent_view<Y, C, P>(outcome: ChildOutcome<Y, C, P>) -> ResumeOutcome<Y, C, P> {
    match outcome {
        ChildOutcome::WouldLikeToResume(y) => ResumeOutcome::WouldLikeToResume(y),
        ChildOutcome::Complete(c) => ResumeOutcome::Complete(c),
    }
}

impl<Yields, Complete, Panic> StartOutcome<Yields, Complete, Panic> {
    /// The outcome of a start of the coroutine that `handle` names.
    pub fn of_started(handle: CoroutineInstanceHandle, outcome: ResumeOutcome<Yields, Complete, Panic>) -> (r: Self)
        ensures
            match outcome {
                ResumeOutcome::WouldLikeToResume(y) => r == StartOutcome::<Yields, Complete, Panic>::WouldLikeToResume(y, handle),
                ResumeOutcome::Complete(c) => r == StartOutcome::<Yields, Complete, Panic>::Complete(c),
            },
    {
        match outcome {
            ResumeOutcome::WouldLikeToResume(yields) => StartOutcome::WouldLikeToResume(yields, handle),
            ResumeOutcome::Complete(complete) => StartOutcome::Complete(complete),
        }
    }
}

/// The child's side of the switch: what a coroutine body yields through.
#[derive(Debug)]
pub struct Yielder {
    killed: bool,
}

impl Yielder {
    /// Has the parent told the child to die?
    pub closed spec fn is_killed(&self) -> bool {
        self.killed
    }

    /// The yielder of a child that has just been entered.
    pub fn new() -> (r: Self)
        ensures
            !r.is_killed(),
    {
        Yielder { killed: false }
    }

    /// May the child still yield? Not once it has been told to die: it must
    /// then complete.
    pub fn may_yield(&self) -> (r: bool)
        ensures
            r == !self.is_killed(),
    {
        !self.killed
    }

    /// The result of a yield once the parent has answered with
    /// `instruction`: `Ok` with the resume arguments, or `Err(kill_error)`
    /// when the parent kills the child.
    pub fn yields<ResumeArguments, E>(&mut self, instruction: ParentInstructingChild<ResumeArguments>, kill_error: E) -> (r: Result<ResumeArguments, E>)
        requires
            !old(self).is_killed(),
        ensures
            r == yield_answer(instruction, kill_error),
            final(self).is_killed() == instruction is Kill,
    {
        self.killed = match instruction {
            ParentInstructingChild::Resume(_) => false,
            ParentInstructingChild::Kill => true,
        };
        yields_result(instruction, kill_error)
    }
}

/// Moves the value out of a one-shot transfer slot. A sender fills the slot
/// on its side of a switch; the receiver takes it exactly once.
pub fn take_data<T>(slot: &mut Option<T>) -> (r: T)
    requires
        *old(slot) is Some,
    ensures
        Some(r) == *old(slot),
        *final(slot) is None,
{
    slot.take().unwrap()
}

} // verus!

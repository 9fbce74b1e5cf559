use std::cell::Cell;
use std::rc::Rc;

use context_coroutine::handle::CoroutineManagerIndex;
use context_coroutine::manager::{CancelAction, CoroutineManager, CreationError, InstanceState, ProtocolViolation, ResumeError};
use context_coroutine::memory::{CurrentAllocatorInUse, SwitchableAllocator};
use context_coroutine::protocol::{take_data, yields_result, ChildOutcome, ParentInstructingChild, ResumeOutcome, StartOutcome, Yielder};

#[derive(Debug, Default, PartialEq)]
struct Arena {
    name: &'static str,
    used: usize,
}

fn arena(name: &'static str) -> Arena {
    Arena { name, used: 0 }
}

fn manager(slots: u64) -> CoroutineManager<(), Arena> {
    CoroutineManager::new(CoroutineManagerIndex(2), slots).unwrap()
}

#[test]
fn echo_yields_then_completes() {
    let mut global = SwitchableAllocator::new();
    let mut m = manager(4);
    let h = m.start_coroutine(&mut global, (), arena("echo")).unwrap();
    // The body receives start arguments 10 and yields 10 + 1.
    let s: u32 = 10;
    let out = m.process_child_outcome(&mut global, h, ChildOutcome::<u32, u32, &str>::WouldLikeToResume(s + 1)).unwrap();
    assert!(matches!(out, ResumeOutcome::WouldLikeToResume(11)));
    let instruction = m.resume_coroutine(&mut global, h, 7u32).unwrap();
    let mut yielder = Yielder::new();
    let a = yielder.yields(instruction, ()).unwrap();
    assert!(yielder.may_yield());
    assert_eq!(a, 7);
    let out = m.process_child_outcome(&mut global, h, ChildOutcome::<u32, u32, &str>::Complete(Ok(a * 2))).unwrap();
    assert!(matches!(out, ResumeOutcome::Complete(Ok(14))));
    assert!(m.instance(h).is_none());
}

#[test]
fn early_complete_returns_body_result() {
    let mut global = SwitchableAllocator::new();
    let mut m = manager(1);
    let h = m.start_coroutine(&mut global, (), arena("early")).unwrap();
    let out = m.process_child_outcome(&mut global, h, ChildOutcome::<(), &str, &str>::Complete(Ok("done"))).unwrap();
    assert!(matches!(out, ResumeOutcome::Complete(Ok("done"))));
    assert!(m.instance(h).is_none());
    assert!(global.coroutine_local_allocator.is_none());
    assert_eq!(global.current_allocator_in_use, CurrentAllocatorInUse::Global);
}

#[test]
fn cancel_kills_suspended_child_once() {
    let mut global = SwitchableAllocator::new();
    let mut m = manager(1);
    let cleanups = Rc::new(Cell::new(0usize));
    let h = m.start_coroutine(&mut global, (), arena("counter")).unwrap();
    let mut received = Vec::new();
    let mut next: u64 = 0;
    let out = m.process_child_outcome(&mut global, h, ChildOutcome::<u64, (), ()>::WouldLikeToResume(next)).unwrap();
    if let ResumeOutcome::WouldLikeToResume(y) = out {
        received.push(y);
    }
    let instruction = m.resume_coroutine(&mut global, h, ()).unwrap();
    assert!(yields_result(instruction, "killed").is_ok());
    next += 1;
    let out = m.process_child_outcome(&mut global, h, ChildOutcome::<u64, (), ()>::WouldLikeToResume(next)).unwrap();
    if let ResumeOutcome::WouldLikeToResume(y) = out {
        received.push(y);
    }
    assert_eq!(received, vec![0, 1]);

    assert_eq!(m.cancel_coroutine(&mut global, h), CancelAction::SendKill);
    assert_eq!(m.instance(h).unwrap().state, InstanceState::Killing);
    let mut yielder = Yielder::new();
    let answer = yielder.yields(ParentInstructingChild::<()>::Kill, "killed");
    assert_eq!(answer, Err("killed"));
    assert!(!yielder.may_yield());
    cleanups.set(cleanups.get() + 1);
    let out = m.process_child_outcome(&mut global, h, ChildOutcome::<u64, (), ()>::Complete(Ok(()))).unwrap();
    assert!(matches!(out, ResumeOutcome::Complete(Ok(()))));
    assert_eq!(cleanups.get(), 1);
    assert!(m.instance(h).is_none());
    assert_eq!(m.cancel_coroutine(&mut global, h), CancelAction::StaleHandle);

    let again = m.start_coroutine(&mut global, (), arena("again")).unwrap();
    assert_eq!(again.index(), h.index());
    assert_eq!(again.generation().get(), h.generation().get() + 1);
}

#[test]
fn killed_child_that_yields_is_a_violation() {
    let mut global = SwitchableAllocator::new();
    let mut m = manager(1);
    let h = m.start_coroutine(&mut global, (), arena("stubborn")).unwrap();
    m.process_child_outcome(&mut global, h, ChildOutcome::<u8, (), ()>::WouldLikeToResume(1)).unwrap();
    assert_eq!(m.cancel_coroutine(&mut global, h), CancelAction::SendKill);
    let out = m.process_child_outcome(&mut global, h, ChildOutcome::<u8, (), ()>::WouldLikeToResume(2));
    assert!(matches!(out, Err(ProtocolViolation::KilledCoroutineYielded)));
    assert!(m.instance(h).is_none());
}

#[test]
fn stale_handle_after_slot_reuse() {
    let mut global = SwitchableAllocator::new();
    let mut m = manager(1);
    let first = m.start_coroutine(&mut global, (), arena("first")).unwrap();
    m.process_child_outcome(&mut global, first, ChildOutcome::<(), u8, ()>::Complete(Ok(1))).unwrap();
    let second = m.start_coroutine(&mut global, (), arena("second")).unwrap();
    assert_eq!(second.index(), first.index());
    assert!(m.instance(first).is_none());
    assert!(m.instance(second).is_some());
    assert!(matches!(m.resume_coroutine(&mut global, first, 0u8), Err(ResumeError::StaleHandle)));
}

#[test]
fn panic_is_handed_on_and_slot_freed() {
    let mut global = SwitchableAllocator::new();
    let mut m = manager(1);
    let h = m.start_coroutine(&mut global, (), arena("panics")).unwrap();
    let out = m.process_child_outcome(&mut global, h, ChildOutcome::<(), (), &str>::Complete(Err("boom"))).unwrap();
    assert!(matches!(out, ResumeOutcome::Complete(Err("boom"))));
    assert!(m.start_coroutine(&mut global, (), arena("next")).is_ok());
}

#[test]
fn each_coroutine_allocates_from_its_own_arena() {
    let mut global: SwitchableAllocator<Arena> = SwitchableAllocator::new();
    let mut m = manager(2);
    let a = m.start_coroutine(&mut global, (), arena("a")).unwrap();
    global.allocator_for_allocation().unwrap().used += 100;
    m.process_child_outcome(&mut global, a, ChildOutcome::<(), (), ()>::WouldLikeToResume(())).unwrap();
    assert!(global.allocator_for_allocation().is_none());

    let b = m.start_coroutine(&mut global, (), arena("b")).unwrap();
    assert_eq!(global.allocator_for_allocation().unwrap().name, "b");
    global.allocator_for_allocation().unwrap().used += 200;
    m.process_child_outcome(&mut global, b, ChildOutcome::<(), (), ()>::WouldLikeToResume(())).unwrap();

    m.resume_coroutine(&mut global, a, ()).unwrap();
    assert_eq!(global.allocator_for_allocation().unwrap().name, "a");
    global.allocator_for_allocation().unwrap().used += 1;
    m.process_child_outcome(&mut global, a, ChildOutcome::<(), (), ()>::WouldLikeToResume(())).unwrap();

    let used_a = m.instance(a).unwrap().memory.inactive_coroutine_local_allocator.as_ref().unwrap().used;
    let used_b = m.instance(b).unwrap().memory.inactive_coroutine_local_allocator.as_ref().unwrap().used;
    assert_eq!(used_a, 101);
    assert_eq!(used_b, 200);
    assert!(global.coroutine_local_allocator.is_none());
    assert_eq!(global.current_allocator_in_use, CurrentAllocatorInUse::Global);
}

#[test]
fn resume_of_running_instance_is_refused() {
    let mut global = SwitchableAllocator::new();
    let mut m = manager(1);
    let h = m.start_coroutine(&mut global, (), arena("running")).unwrap();
    assert!(matches!(m.resume_coroutine(&mut global, h, 1u8), Err(ResumeError::NotSuspended)));
    assert_eq!(m.cancel_coroutine(&mut global, h), CancelAction::NotSuspended);
    assert_eq!(global.allocator_for_allocation().unwrap().name, "running");
}

#[test]
fn outcome_for_suspended_instance_is_refused() {
    let mut global = SwitchableAllocator::new();
    let mut m = manager(1);
    let h = m.start_coroutine(&mut global, (), arena("s")).unwrap();
    m.process_child_outcome(&mut global, h, ChildOutcome::<u8, u8, ()>::WouldLikeToResume(1)).unwrap();
    let out = m.process_child_outcome(&mut global, h, ChildOutcome::<u8, u8, ()>::Complete(Ok(1)));
    assert!(matches!(out, Err(ProtocolViolation::NotRunning)));
    assert!(m.instance(h).is_some());
}

#[test]
fn full_manager_refuses_start() {
    let mut global = SwitchableAllocator::new();
    let mut m = manager(1);
    m.start_coroutine(&mut global, (), arena("one")).unwrap();
    assert!(m.start_coroutine(&mut global, (), arena("two")).is_err());
}

#[test]
fn manager_size_limits() {
    assert!(matches!(CoroutineManager::<(), Arena>::new(CoroutineManagerIndex(0), 0), Err(CreationError::UnsupportedNumberOfCoroutines)));
    assert!(matches!(CoroutineManager::<(), Arena>::new(CoroutineManagerIndex(0), 0x100_0001), Err(CreationError::UnsupportedNumberOfCoroutines)));
    assert!(CoroutineManager::<(), Arena>::new(CoroutineManagerIndex(5), 3).unwrap().has_index(CoroutineManagerIndex(5)));
}

struct Counted(Rc<Cell<usize>>);

impl Drop for Counted {
    fn drop(&mut self) {
        self.0.set(self.0.get() + 1);
    }
}

#[test]
fn start_arguments_are_dropped_once_on_the_receiving_side() {
    let drops = Rc::new(Cell::new(0usize));
    let mut sender_slot = Some(Counted(drops.clone()));
    let received = take_data(&mut sender_slot);
    assert!(sender_slot.is_none());
    assert_eq!(drops.get(), 0);
    drop(sender_slot);
    assert_eq!(drops.get(), 0);
    drop(received);
    assert_eq!(drops.get(), 1);
}

#[test]
fn yields_and_resume_arguments_are_dropped_once() {
    let drops = Rc::new(Cell::new(0usize));
    let mut global = SwitchableAllocator::new();
    let mut m = manager(1);
    let h = m.start_coroutine(&mut global, (), arena("moves")).unwrap();
    let out = m.process_child_outcome(&mut global, h, ChildOutcome::<Counted, (), ()>::WouldLikeToResume(Counted(drops.clone()))).unwrap();
    assert_eq!(drops.get(), 0);
    drop(out);
    assert_eq!(drops.get(), 1);
    let instruction = m.resume_coroutine(&mut global, h, Counted(drops.clone())).unwrap();
    let argument = yields_result(instruction, ()).unwrap();
    assert_eq!(drops.get(), 1);
    drop(argument);
    assert_eq!(drops.get(), 2);
}

#[test]
fn start_outcome_carries_the_handle() {
    let mut global = SwitchableAllocator::new();
    let mut m = manager(1);
    let h = m.start_coroutine(&mut global, (), arena("start")).unwrap();
    let out = m.process_child_outcome(&mut global, h, ChildOutcome::<u8, u8, ()>::WouldLikeToResume(3)).unwrap();
    match StartOutcome::of_started(h, out) {
        StartOutcome::WouldLikeToResume(y, handle) => {
            assert_eq!(y, 3);
            assert_eq!(handle, h);
        },
        StartOutcome::Complete(_) => panic!("expected a yield"),
    }
    m.resume_coroutine(&mut global, h, ()).unwrap();
    let out = m.process_child_outcome(&mut global, h, ChildOutcome::<u8, u8, ()>::Complete(Ok(4))).unwrap();
    assert!(matches!(StartOutcome::of_started(h, out), StartOutcome::Complete(Ok(4))));
}

#[test]
fn suspended_handles_lists_the_instances_to_kill() {
    let mut global = SwitchableAllocator::new();
    let mut m = manager(3);
    let a = m.start_coroutine(&mut global, (), arena("a")).unwrap();
    m.process_child_outcome(&mut global, a, ChildOutcome::<(), (), ()>::WouldLikeToResume(())).unwrap();
    let b = m.start_coroutine(&mut global, (), arena("b")).unwrap();
    m.process_child_outcome(&mut global, b, ChildOutcome::<(), (), ()>::Complete(Ok(()))).unwrap();
    let c = m.start_coroutine(&mut global, (), arena("c")).unwrap();
    m.process_child_outcome(&mut global, c, ChildOutcome::<(), (), ()>::WouldLikeToResume(())).unwrap();
    let mut listed = m.suspended_handles();
    listed.sort_by_key(|h| h.index());
    let mut expected = vec![a, c];
    expected.sort_by_key(|h| h.index());
    assert_eq!(listed, expected);
    for h in listed {
        assert_eq!(m.cancel_coroutine(&mut global, h), CancelAction::SendKill);
        m.process_child_outcome(&mut global, h, ChildOutcome::<(), (), ()>::Complete(Ok(()))).unwrap();
    }
    assert!(m.suspended_handles().is_empty());
}

#[test]
fn user_bits_set_by_the_application_do_not_stop_resolution() {
    let mut global = SwitchableAllocator::new();
    let mut m = manager(2);
    let h = m.start_coroutine(&mut global, (), arena("tagged")).unwrap();
    assert_eq!(h.user_bits().into(), 0);
    m.process_child_outcome(&mut global, h, ChildOutcome::<(), u8, ()>::WouldLikeToResume(())).unwrap();
    let tagged = h.set_user_bits(context_coroutine::handle::UserBits::try_from(9).unwrap());
    assert!(m.instance(tagged).is_some());
    assert!(m.resume_coroutine(&mut global, tagged, ()).is_ok());
    let out = m.process_child_outcome(&mut global, tagged, ChildOutcome::<(), u8, ()>::Complete(Ok(5))).unwrap();
    assert!(matches!(out, ResumeOutcome::Complete(Ok(5))));
}

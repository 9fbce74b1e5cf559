use context_coroutine::context::SavedContext;
use context_coroutine::memory::{align_memory_size, CoroutineMemorySource};
use context_coroutine::stacks::{ProtectedStack, Stack};

#[test]
fn initial_saved_context() {
    let (at, saved) = SavedContext::initialize(0x7000_0000, 0x1111, 0x2222, 0x3333);
    assert_eq!(at, 0x7000_0000 - 64);
    assert_eq!(saved.sse_control_and_status_word, 0x1F80);
    assert_eq!(saved.x87_control_word, 0x037F);
    assert_eq!(saved.register_rbx_value, 0x1111);
    assert_eq!(saved.register_rbp_value, 0x2222);
    assert_eq!(saved.resume_instruction_pointer, 0x3333);
    assert_eq!(SavedContext::first_entry_stack_pointer(0x7000_0000), 0x7000_0000 - 8);
}

#[test]
fn resume_returns_with_the_same_stack_pointer() {
    let before_call: u64 = 0x5000_1000;
    let at_entry = before_call - 8;
    let (snapshot, _) = SavedContext::resume_stack_pointers(at_entry, 0x6000_0000);
    assert_eq!(snapshot, before_call - 64);
    let (_, back) = SavedContext::resume_stack_pointers(0x6000_0F00, snapshot);
    assert_eq!(back, before_call);
}

#[test]
fn protected_stack_rounds_and_adds_guard_page() {
    let s = ProtectedStack::allocate(10_000, 4096, 1 << 30, 0x10_0000).unwrap();
    assert_eq!(s.bottom(), 0x10_0000 + 3 * 4096 + 4096);
    assert_eq!(s.usable_size(), 3 * 4096);
    let capped = ProtectedStack::allocate(1 << 20, 4096, 8192, 0x10_0000).unwrap();
    assert_eq!(capped.bottom(), 0x10_0000 + 8192);
    assert!(ProtectedStack::allocate(1 << 20, 4096, 4096, 0x10_0000).is_err());
    let whole_pages = ProtectedStack::allocate(1 << 20, 4096, 10_000, 0x10_0000).unwrap();
    assert_eq!(whole_pages.bottom(), 0x10_0000 + 8192);
    assert_eq!(whole_pages.usable_size(), 4096);
    assert_eq!(ProtectedStack::size_to_map(10_000, 4096, 10_000), Ok(8192));
    assert!(ProtectedStack::size_to_map(1 << 20, 4096, 8191).is_err());
}

#[test]
fn recursion_within_size_stays_above_guard_page() {
    let s = ProtectedStack::allocate(64 * 1024, 4096, 1 << 30, 0x40_0000).unwrap();
    let frame: u64 = 256;
    let depth: u64 = 64 * 1024 / frame;
    let lowest = s.bottom() - depth * frame;
    assert!(lowest >= 0x40_0000 + 4096);
}

#[test]
fn memory_sizes_align_to_64() {
    assert_eq!(align_memory_size(1), 64);
    assert_eq!(align_memory_size(64), 64);
    assert_eq!(align_memory_size(65), 128);
    assert_eq!(align_memory_size(0), 0);
    let m = CoroutineMemorySource::new(1000, 100).unwrap();
    assert_eq!(m.heap_size, 1024);
    assert_eq!(m.stack_size, 128);
    assert_eq!(m.block_size, 1152);
    assert!(CoroutineMemorySource::new(usize::MAX, 1).is_err());
}

#[test]
fn unlimited_maximum_admits_a_high_mapping() {
    let top: u64 = 0x7FFF_F000_0000;
    let s = ProtectedStack::allocate(8192, 4096, u64::MAX, top).unwrap();
    assert_eq!(s.bottom(), top + 3 * 4096);
    assert_eq!(s.bottom() % 16, 0);
    assert_eq!(s.usable_size(), 8192);
}

use context_coroutine::handle::{CoroutineGenerationCounter, CoroutineInstanceHandle, CoroutineManagerIndex, UserBits};

fn sample() -> CoroutineInstanceHandle {
    CoroutineInstanceHandle::new(
        true,
        CoroutineManagerIndex(0xAB),
        UserBits::try_from(5).unwrap(),
        CoroutineGenerationCounter::try_new(0x12_3456).unwrap(),
        0x65_4321,
    )
}

#[test]
fn handle_layout_matches_bit_positions() {
    let h = sample();
    let expected: u64 = (1u64 << 63) | (0xABu64 << 52) | (5u64 << 48) | (0x12_3456u64 << 24) | 0x65_4321u64;
    assert_eq!(h.unwrap(), expected);
    assert_eq!(h.unwrap(), 0x8AB5_1234_5665_4321);
}

#[test]
fn handle_fields_read_back() {
    let h = sample();
    assert!(h.is_coroutine());
    assert_eq!(h.coroutine_manager_index(), CoroutineManagerIndex(0xAB));
    assert_eq!(h.user_bits().into(), 5);
    assert_eq!(h.generation().get(), 0x12_3456);
    assert_eq!(h.index(), 0x65_4321);
}

#[test]
fn wrap_unwrap_round_trip() {
    for v in [0u64, 1, 0x7FFF_FFFF_FFFF, 0x8000_0000_0000_0000, u64::MAX, 0x8AB5_1234_5665_4321] {
        assert_eq!(CoroutineInstanceHandle::wrap(v).unwrap(), v);
    }
}

#[test]
fn pointers_are_not_for_a_coroutine() {
    assert!(CoroutineInstanceHandle::is_not_for_a_coroutine(0x0000_7FFF_DEAD_BEEF));
    assert!(CoroutineInstanceHandle::is_not_for_a_coroutine(0));
    assert!(!CoroutineInstanceHandle::is_not_for_a_coroutine(0x8000_0000_0000_0000));
    assert!(!CoroutineInstanceHandle::wrap(0x7FFF_FFFF_FFFF_FFFF).is_coroutine());
    assert!(CoroutineInstanceHandle::wrap(u64::MAX).is_coroutine());
}

#[test]
fn set_user_bits_keeps_other_fields() {
    let h = sample();
    let changed = h.set_user_bits(UserBits::try_from(0xF).unwrap());
    assert_eq!(changed.unwrap(), 0x8ABF_1234_5665_4321);
    assert_eq!(changed.user_bits().into(), 0xF);
    let cleared = changed.set_user_bits(UserBits::zero());
    assert_eq!(cleared.unwrap(), 0x8AB0_1234_5665_4321);
    assert_eq!(cleared.generation().get(), 0x12_3456);
    assert_eq!(cleared.index(), 0x65_4321);
}

#[test]
fn user_bits_accept_four_bits_only() {
    assert!(UserBits::try_from(0).is_ok());
    assert_eq!(UserBits::try_from(15).unwrap().into(), 15);
    assert!(UserBits::try_from(16).is_err());
    assert!(UserBits::try_from(0xFF).is_err());
}

#[test]
fn generation_counter_wraps_at_24_bits() {
    let mut g = CoroutineGenerationCounter::try_new(0xFF_FFFE).unwrap();
    g.increment();
    assert_eq!(g.get(), 0xFF_FFFF);
    g.increment();
    assert_eq!(g.get(), 0);
    assert!(CoroutineGenerationCounter::try_new(0x100_0000).is_none());
    assert_eq!(CoroutineGenerationCounter::initial().next().get(), 1);
}

#[test]
fn handle_address_arithmetic() {
    let h = sample();
    assert_eq!(h.relative_pointer(128), 0x65_4321 * 128);
    assert_eq!(h.into_absolute_pointer(0x1000, 128), 0x1000 + 0x65_4321 * 128);
    assert_eq!(CoroutineInstanceHandle::calculate_index(0x1000 + 3 * 96, 0x1000, 96), 3);
}

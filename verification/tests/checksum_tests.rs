use amd_efs::AmdFletcher32;

#[test]
fn fletcher_initial_state_accumulators() {
    // Each accumulator starts at 0x0000FFFF, so an empty stream checksums
    // to (0xFFFF << 16) | 0xFFFF.
    let checksummer = AmdFletcher32::new();
    assert_eq!(checksummer.value().value(), 0xFFFF_FFFF);
}

#[test]
fn fletcher_zero_words_leave_the_state_unchanged() {
    // From the initial state, zero words change nothing modulo the 0xFFFF
    // reduction.
    let mut checksummer = AmdFletcher32::new();
    checksummer.update(&[0, 0, 0, 0]);
    assert_eq!(checksummer.value().value(), 0xFFFF_FFFF);
    let mut with_data = AmdFletcher32::new();
    with_data.update(&[0, 0, 0x1234]);
    let mut without = AmdFletcher32::new();
    without.update(&[0x1234]);
    assert_eq!(with_data.value().value(), without.value().value());
}

#[test]
fn fletcher_known_values() {
    assert_eq!(amd_efs::amdfletcher32::calc_fletcher32(&[0x0001]), 0x0001_0001);
    assert_eq!(amd_efs::amdfletcher32::calc_fletcher32(&[0xFFFF]), 0xFFFF_FFFF);
    assert_eq!(
        amd_efs::amdfletcher32::calc_fletcher32(&[0x0000, 0x0000, 0x0410, 0x2084]),
        0x28A4_2494
    );
}

#[test]
fn fletcher_incremental_updates_match_one_shot() {
    let words = [0x1234u16, 0x5678, 0x9ABC, 0xDEF0, 0x0001];
    let mut incremental = AmdFletcher32::new();
    for w in words {
        incremental.update(&[w]);
    }
    assert_eq!(
        incremental.value().value(),
        amd_efs::amdfletcher32::calc_fletcher32(&words)
    );
}

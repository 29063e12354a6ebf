use noise_animator::{SequenceCursor, SEQ_STEP, UNIT};

#[test]
fn a_step_is_a_hundredth() {
    assert_eq!(SEQ_STEP * 100, UNIT);
}

#[test]
fn cursor_starts_at_zero() {
    assert_eq!(SequenceCursor::new().value(), 0);
}

#[test]
fn cursor_climbs_a_hundredth_per_tick() {
    let mut cursor = SequenceCursor::new();
    for n in 1..100 {
        cursor.advance_with(0xdead_beef);
        assert_eq!(cursor.value(), n * 10_000);
    }
    assert_eq!(cursor.value(), 990_000);
}

#[test]
fn cursor_is_reseeded_by_the_hundredth_tick() {
    let mut cursor = SequenceCursor::new();
    for _ in 0..99 {
        cursor.advance_with(0);
    }
    // 2^63 has the top fraction bits of one half
    cursor.advance_with(1 << 63);
    assert_eq!(cursor.value(), 500_000);
}

#[test]
fn reseeding_follows_the_draw() {
    let cases: [(u64, i64); 7] = [
        (0, 0),
        (2047, 0),
        (1 << 62, 250_000),
        (1 << 63, 500_000),
        (3 << 62, 750_000),
        (u64::MAX - 2047, 999_999),
        (u64::MAX, 999_999),
    ];
    for (raw, expected) in cases {
        let mut cursor = SequenceCursor::new();
        for _ in 0..99 {
            cursor.advance_with(raw);
        }
        assert_eq!(cursor.value(), 990_000);
        cursor.advance_with(raw);
        assert_eq!(cursor.value(), expected);
    }
}

#[test]
fn reseeding_rounds_down_to_a_whole_tick() {
    // the fraction 1 / 2^53 is far less than one tick
    let mut cursor = SequenceCursor::new();
    for _ in 0..99 {
        cursor.advance_with(0);
    }
    cursor.advance_with(2048);
    assert_eq!(cursor.value(), 0);
    // 9007199255 / 2^53 is the least fraction that reaches one tick
    let mut cursor = SequenceCursor::new();
    for _ in 0..99 {
        cursor.advance_with(0);
    }
    cursor.advance_with(9_007_199_255 * 2048);
    assert_eq!(cursor.value(), 1);
    let mut cursor = SequenceCursor::new();
    for _ in 0..99 {
        cursor.advance_with(0);
    }
    cursor.advance_with(9_007_199_254 * 2048);
    assert_eq!(cursor.value(), 0);
}

#[test]
fn cursor_climbs_on_from_where_it_was_reseeded() {
    let mut cursor = SequenceCursor::new();
    for _ in 0..100 {
        cursor.advance_with(1 << 63);
    }
    assert_eq!(cursor.value(), 500_000);
    for n in 1..50 {
        cursor.advance_with(0);
        assert_eq!(cursor.value(), 500_000 + n * 10_000);
    }
    assert_eq!(cursor.value(), 990_000);
    cursor.advance_with(3 << 62);
    assert_eq!(cursor.value(), 750_000);
}

#[test]
fn cursor_reseeded_just_below_one_is_reseeded_again_at_once() {
    let mut cursor = SequenceCursor::new();
    for _ in 0..100 {
        cursor.advance_with(u64::MAX);
    }
    assert_eq!(cursor.value(), 999_999);
    cursor.advance_with(1 << 62);
    assert_eq!(cursor.value(), 250_000);
}

#[test]
fn cursor_with_random_draws_climbs_and_stays_below_one() {
    let mut cursor = SequenceCursor::new();
    for n in 1..100 {
        cursor.advance();
        assert_eq!(cursor.value(), n * 10_000);
    }
    cursor.advance();
    assert!(0 <= cursor.value() && cursor.value() < UNIT);
    for _ in 0..1000 {
        let before = cursor.value();
        cursor.advance();
        let after = cursor.value();
        assert!(0 <= after && after < UNIT);
        if before + SEQ_STEP < UNIT {
            assert_eq!(after, before + SEQ_STEP);
        }
    }
}

#[test]
fn cursor_with_random_draws_is_not_reset_to_a_fixed_value() {
    // forty reseeds that all gave the same tick would be a fixed reset:
    // by chance that happens less than once in 10^200 runs
    let mut seen: Vec<i64> = Vec::new();
    for _ in 0..40 {
        let mut cursor = SequenceCursor::new();
        for _ in 0..100 {
            cursor.advance();
        }
        seen.push(cursor.value());
    }
    assert!(seen.iter().any(|v| *v != seen[0]));
}

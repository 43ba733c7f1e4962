use edugame::level::LevelSystem;

#[test]
fn level_one_below_hundred() {
    let ls = LevelSystem;
    assert_eq!(ls.level_for_exp(0), 1);
    assert_eq!(ls.level_for_exp(1), 1);
    assert_eq!(ls.level_for_exp(99), 1);
}

#[test]
fn level_at_hundred_matches_formula() {
    let ls = LevelSystem;
    // 2 + floor(sqrt(100 / 2)) + 1 = 2 + 7 + 1
    assert_eq!(ls.level_for_exp(100), 10);
}

#[test]
fn level_is_monotonic_on_samples() {
    let ls = LevelSystem;
    let samples = [
        0u32, 1, 50, 99, 100, 101, 150, 200, 500, 1000, 1300, 2600, 5200, 10_000, 100_000,
        1_000_000, u32::MAX,
    ];
    let mut prev = 0u16;
    for &e in samples.iter() {
        let l = ls.level_for_exp(e);
        assert!(l >= prev, "level dropped at exp {}", e);
        prev = l;
    }
}

#[test]
fn level_specific_values() {
    let ls = LevelSystem;
    // 3 + isqrt(650) = 3 + 25
    assert_eq!(ls.level_for_exp(1300), 28);
    // 3 + isqrt(2600) = 3 + 50
    assert_eq!(ls.level_for_exp(5200), 53);
}

use sungod::{Ra, DEFAULT_RANDOM_SEED};

#[test]
fn first_words_for_seed_zero() {
    let mut ra = Ra::new(0);
    assert_eq!(ra.xorwow(), 0xac269f202407f888);
    assert_eq!(ra.xorwow(), 0xb0b258ed355887ad);
    assert_eq!(ra.xorwow(), 0x246592881c81ec09);
}

#[test]
fn first_words_for_default_seed() {
    let mut ra = Ra::new(DEFAULT_RANDOM_SEED);
    assert_eq!(ra.xorwow(), 0xd076ca27dd6f3c6d);
    assert_eq!(ra.xorwow(), 0x10a219c1979275fe);
    assert_eq!(ra.xorwow(), 0x9c34853a5f1862c0);
}

#[test]
fn default_uses_default_seed() {
    let mut a = Ra::default();
    let mut b = Ra::new(DEFAULT_RANDOM_SEED);
    for _ in 0..100 {
        assert_eq!(a.xorwow(), b.xorwow());
    }
}

#[test]
fn same_seed_same_words() {
    for seed in [0u64, 1, 42, DEFAULT_RANDOM_SEED, u64::MAX] {
        let mut a = Ra::new(seed);
        let mut b = Ra::new(seed);
        for _ in 0..10000 {
            assert_eq!(a.xorwow(), b.xorwow());
        }
    }
}

#[test]
fn different_seeds_differ() {
    let mut a = Ra::new(1);
    let mut b = Ra::new(2);
    assert_ne!(a.xorwow(), b.xorwow());
}

#[test]
fn copy_continues_independently() {
    let mut a = Ra::new(7);
    a.xorwow();
    let mut b = a;
    let from_a: Vec<u64> = (0..50).map(|_| a.xorwow()).collect();
    let from_b: Vec<u64> = (0..50).map(|_| b.xorwow()).collect();
    assert_eq!(from_a, from_b);
}

#[test]
fn consecutive_words_differ_for_default_seed() {
    let mut ra = Ra::new(0xCAFEBABEDEADBEEF);
    let first = ra.xorwow();
    let second = ra.xorwow();
    assert_ne!(first, second);
}

#[test]
fn seed_zero_is_not_degenerate() {
    let mut ra = Ra::new(0);
    let words: Vec<u64> = (0..8).map(|_| ra.xorwow()).collect();
    assert!(words.iter().any(|w| *w != 0));
    assert!(words.windows(2).all(|p| p[0] != p[1]));
}

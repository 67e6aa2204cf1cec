use midori_core::rng::Rng;

#[test]
fn test_deterministic_output() {
    // Same seed must produce same sequence
    let mut rng1 = Rng::from_seed(12345);
    let mut rng2 = Rng::from_seed(12345);

    for _ in 0..100 {
        assert_eq!(rng1.next_u64(), rng2.next_u64());
    }
}

#[test]
fn test_different_seeds_produce_different_output() {
    let mut rng1 = Rng::from_seed(12345);
    let mut rng2 = Rng::from_seed(54321);

    // Very unlikely to be equal with different seeds
    assert_ne!(rng1.next_u64(), rng2.next_u64());
}

#[test]
fn test_index() {
    let mut rng = Rng::from_seed(42);

    for _ in 0..1000 {
        let v = rng.index(10);
        assert!(v < 10, "index() out of bounds: {}", v);
    }
}

#[test]
fn test_known_sequence() {
    // Verify specific output for reproducibility across platforms
    let mut rng = Rng::from_seed(0);
    let expected = [rng.next_u64(), rng.next_u64(), rng.next_u64()];

    // Reset and verify
    let mut rng2 = Rng::from_seed(0);
    assert_eq!(rng2.next_u64(), expected[0]);
    assert_eq!(rng2.next_u64(), expected[1]);
    assert_eq!(rng2.next_u64(), expected[2]);
}

#[test]
fn seed_zero_stream_matches_reference_values() {
    let mut rng = Rng::from_seed(0);
    assert_eq!(rng.next_u64(), 0x99ec5f36cb75f2b4);
    assert_eq!(rng.next_u64(), 0xbf6e1f784956452a);
    assert_eq!(rng.next_u64(), 0x1a5f849d4933e6e0);
}

#[test]
fn seed_42_stream_matches_reference_values() {
    let mut rng = Rng::from_seed(42);
    assert_eq!(rng.next_u64(), 0x15780b2e0c2ec716);
    assert_eq!(rng.next_u64(), 0x6104d9866d113a7e);
    assert_eq!(rng.next_u64(), 0xae17533239e499a1);
}

#[test]
fn first_outputs_of_the_test_seeds() {
    assert_eq!(Rng::from_seed(12345).next_u64(), 0xbe6a36374160d49b);
    assert_eq!(Rng::from_seed(54321).next_u64(), 0x75cf9c1efbd8a641);
}

fn float_index(raw: u64, len: usize) -> usize {
    let unit = (raw >> 40) as f32 / (1u64 << 24) as f32;
    (unit * len as f32) as usize
}

#[test]
fn index_agrees_with_single_precision_scaling() {
    let lens: [usize; 12] = [
        1,
        2,
        3,
        10,
        1000,
        (1 << 24) - 1,
        1 << 24,
        (1 << 24) + 1,
        123_456_789,
        (1 << 40) + 12345,
        usize::MAX / 3,
        usize::MAX,
    ];
    for &len in &lens {
        let mut a = Rng::from_seed(7);
        let mut b = Rng::from_seed(7);
        for _ in 0..200 {
            let raw = b.next_u64();
            assert_eq!(a.index(len), float_index(raw, len), "len {len}");
        }
    }
}

#[test]
fn index_of_one_is_always_zero() {
    let mut rng = Rng::from_seed(99);
    for _ in 0..100 {
        assert_eq!(rng.index(1), 0);
    }
}

#[test]
fn index_advances_the_stream_like_next_u64() {
    let mut a = Rng::from_seed(5);
    let mut b = Rng::from_seed(5);
    a.index(17);
    b.next_u64();
    assert_eq!(a.next_u64(), b.next_u64());
}

#[test]
fn splitmix_step_advances_counter_by_the_golden_gamma() {
    let mut x = 0u64;
    let v = midori_core::rng::splitmix64(&mut x);
    assert_eq!(x, 0x9e3779b97f4a7c15);
    assert_eq!(v, 0xe220a8397b1dcdaf);
}

#[test]
fn draws_follow_the_stream_whatever_came_before() {
    let mut a = Rng::from_seed(777);
    let mut b = Rng::from_seed(777);
    let mut raw = Rng::from_seed(777);
    let stream: Vec<u64> = (0..4).map(|_| raw.next_u64()).collect();
    assert_eq!(a.index(10), b.index(10));
    assert_eq!(a.next_u64(), stream[1]);
    assert_eq!(b.index(1 << 20), ((stream[1] >> 40) >> 4) as usize);
    assert_eq!(a.index(3), b.index(3));
    assert_eq!(a.next_u64(), stream[3]);
    assert_eq!(b.next_u64(), stream[3]);
}

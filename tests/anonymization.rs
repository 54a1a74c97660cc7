use hwsurvey::anonymization::{round_cache, round_mem, GB, KB, MB};

#[test]
fn cache_binning_edges() {
    assert_eq!(round_cache(0), 0);
    assert_eq!(round_cache(1023), 0);
    assert_eq!(round_cache(1024), 1024);
    assert_eq!(round_cache(1025), 1024);
    assert_eq!(round_cache(268_435_455), 134_217_728);
    assert_eq!(round_cache(268_435_456), 268_435_456);
    assert_eq!(round_cache(1_000_000_000_000_000), 268_435_456);
}

#[test]
fn cache_binning_between_bins() {
    assert_eq!(round_cache(1536), KB);
    assert_eq!(round_cache(3 * GB), 256 * MB);
    assert_eq!(round_cache(33 * KB), 32 * KB);
    assert_eq!(round_cache(MB - 1), 32 * KB);
    assert_eq!(round_cache(MB), MB);
    assert_eq!(round_cache(3 * MB), MB);
    assert_eq!(round_cache(u64::MAX), u64::MAX);
}

#[test]
fn memory_binning() {
    assert_eq!(round_mem(0), 0);
    assert_eq!(round_mem(1_073_741_823), 0);
    assert_eq!(round_mem(1_073_741_824), 1_073_741_824);
    assert_eq!(round_mem(20 * (1u64 << 30)), 17_179_869_184);
    assert_eq!(round_mem(3 * GB), 2 * GB);
    assert_eq!(round_mem(16 * GB - 1), 8 * GB);
}

#[test]
fn cache_result_is_a_bin_at_most_the_input() {
    let bins = [
        0,
        KB,
        2 * KB,
        4 * KB,
        8 * KB,
        16 * KB,
        32 * KB,
        MB,
        4 * MB,
        8 * MB,
        16 * MB,
        32 * MB,
        64 * MB,
        128 * MB,
        256 * MB,
        u64::MAX,
    ];
    let mut x: u64 = 1;
    while x < u64::MAX / 3 {
        let r = round_cache(x);
        assert!(r <= x);
        assert!(bins.contains(&r));
        x = x * 3 + 1;
    }
}

#[test]
fn memory_rounding_is_monotone() {
    let samples = [0, 5, GB - 1, GB, GB + 1, 3 * GB, 8 * GB, 15 * GB, 16 * GB, 100 * GB, u64::MAX];
    for i in 0..samples.len() {
        for j in i..samples.len() {
            assert!(round_mem(samples[i]) <= round_mem(samples[j]));
        }
    }
}

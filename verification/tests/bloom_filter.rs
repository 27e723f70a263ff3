use spider_util::bloom_filter::BloomFilter;
use spider_util::error::SpiderError;
use spider_util::hashing::base_hashes;

fn filter(num_bits: u64, hash_functions: usize) -> BloomFilter {
    match BloomFilter::new(num_bits, hash_functions) {
        Ok(filter) => filter,
        Err(e) => panic!("a filter of {} bits was refused: {}", num_bits, e.to_string()),
    }
}

/// The bits of `f`, read one by one: with a second hash of zero every probe
/// of a key falls on its first hash.
fn bits(f: &BloomFilter, num_bits: u64) -> Vec<bool> {
    (0..num_bits).map(|p| f.might_contain_hashes(p, 0)).collect()
}

fn positions(key: &str, num_bits: u64, hash_functions: usize) -> Vec<u64> {
    let (h1, h2) = base_hashes(key);
    (0..hash_functions)
        .map(|i| h1.wrapping_add((i as u64).wrapping_mul(h2)) % num_bits)
        .collect()
}

fn predicted_rate(n: f64, m: f64, k: f64) -> f64 {
    (1.0 - (-k * n / m).exp()).powf(k)
}

#[test]
fn added_key_is_found() {
    let mut f = filter(640, 5);
    f.add("https://a.example/1");
    assert!(f.might_contain("https://a.example/1"));
}

#[test]
fn empty_filter_contains_nothing() {
    let f = filter(640, 5);
    assert!(!f.might_contain("https://a.example/1"));
    assert!(!f.might_contain(""));
    assert_eq!(bits(&f, 640), vec![false; 640]);
}

#[test]
fn zero_bits_are_refused() {
    assert!(matches!(BloomFilter::new(0, 5), Err(SpiderError::ConfigurationError(_))));
    assert!(matches!(BloomFilter::new(0, 1), Err(SpiderError::ConfigurationError(_))));
}

#[test]
fn refusal_says_why() {
    match BloomFilter::new(0, 5) {
        Err(e) => assert_eq!(
            e.to_string(),
            "Configuration error: a Bloom filter needs at least one bit"
        ),
        Ok(_) => panic!("a filter without bits was made"),
    }
}

#[test]
fn one_bit_is_accepted() {
    assert!(BloomFilter::new(1, 1).is_ok());
    assert!(BloomFilter::new(64, 1).is_ok());
    assert!(BloomFilter::new(65, 3).is_ok());
}

#[test]
fn one_bit_filter_saturates() {
    let mut f = filter(1, 1);
    assert!(!f.might_contain("x"));
    f.add("x");
    for i in 0..1000 {
        assert!(f.might_contain(&format!("key-{}", i)));
    }
    assert!(f.might_contain(""));
    assert!(f.might_contain("x"));
    assert!(f.might_contain("https://a.example/999"));
}

#[test]
fn one_bit_filter_saturates_with_many_probes() {
    let mut f = filter(1, 7);
    f.add("x");
    for i in 0..100 {
        assert!(f.might_contain(&format!("other-{}", i)));
    }
}

#[test]
fn no_false_negatives() {
    let mut f = filter(4096, 3);
    let keys: Vec<String> = (0..500).map(|i| format!("https://a.example/{}", i)).collect();
    for (n, key) in keys.iter().enumerate() {
        f.add(key);
        for earlier in &keys[..=n] {
            assert!(f.might_contain(earlier));
        }
    }
}

#[test]
fn no_false_negatives_in_a_crowded_filter() {
    let mut f = filter(77, 4);
    for i in 0..1000 {
        f.add(&format!("key-{}", i));
    }
    for i in 0..1000 {
        assert!(f.might_contain(&format!("key-{}", i)));
    }
}

#[test]
fn adding_twice_changes_nothing() {
    let mut once = filter(640, 5);
    once.add("https://a.example/1");
    let mut twice = filter(640, 5);
    twice.add("https://a.example/1");
    twice.add("https://a.example/1");
    assert_eq!(bits(&once, 640), bits(&twice, 640));

    let before = bits(&twice, 640);
    twice.add("https://a.example/1");
    assert_eq!(bits(&twice, 640), before);
}

#[test]
fn order_of_additions_does_not_matter() {
    let keys = ["alpha", "beta", "gamma", "delta", "https://a.example/1", ""];
    let mut forward = filter(1000, 4);
    for key in keys.iter() {
        forward.add(key);
    }
    let mut backward = filter(1000, 4);
    for key in keys.iter().rev() {
        backward.add(key);
    }
    let mut mixed = filter(1000, 4);
    for i in [3usize, 0, 5, 1, 4, 2, 0, 3] {
        mixed.add(keys[i]);
    }
    assert_eq!(bits(&forward, 1000), bits(&backward, 1000));
    assert_eq!(bits(&forward, 1000), bits(&mixed, 1000));
    for i in 0..2000 {
        let probe = format!("probe-{}", i);
        assert_eq!(forward.might_contain(&probe), backward.might_contain(&probe));
        assert_eq!(forward.might_contain(&probe), mixed.might_contain(&probe));
    }
}

#[test]
fn answers_do_not_change_without_additions() {
    let mut f = filter(200, 3);
    for i in 0..40 {
        f.add(&format!("key-{}", i));
    }
    for i in 0..500 {
        let probe = format!("probe-{}", i);
        let first = f.might_contain(&probe);
        for _ in 0..5 {
            assert_eq!(f.might_contain(&probe), first);
        }
    }
}

#[test]
fn bits_are_never_cleared() {
    let mut f = filter(300, 3);
    let mut raised = bits(&f, 300);
    for i in 0..120 {
        f.add(&format!("key-{}", i));
        let now = bits(&f, 300);
        for p in 0..300 {
            assert!(!raised[p] || now[p]);
        }
        raised = now;
    }
}

#[test]
fn an_addition_raises_at_most_as_many_bits_as_there_are_probes() {
    for (num_bits, hash_functions) in [(50u64, 1usize), (50, 3), (7, 5), (640, 5), (3, 2)] {
        let mut f = filter(num_bits, hash_functions);
        let mut raised = bits(&f, num_bits);
        for i in 0..60 {
            f.add(&format!("key-{}", i));
            let now = bits(&f, num_bits);
            let new = (0..num_bits as usize).filter(|&p| now[p] && !raised[p]).count();
            assert!(new <= hash_functions);
            raised = now;
        }
    }
}

#[test]
fn a_run_of_additions_raises_at_most_as_many_bits_as_it_makes_probes() {
    for (num_bits, hash_functions) in [(10_000u64, 5usize), (640, 3), (64, 2)] {
        let mut f = filter(num_bits, hash_functions);
        for n in 1..=40usize {
            f.add(&format!("https://a.example/{}", n));
            let raised = bits(&f, num_bits).iter().filter(|b| **b).count();
            assert!(raised >= 1);
            assert!(raised <= n * hash_functions);
            assert!(raised as u64 <= num_bits);
        }
    }
}

#[test]
fn add_raises_the_bits_of_the_probes_and_no_others() {
    for (num_bits, hash_functions) in [(640u64, 5usize), (64, 1), (65, 2), (7, 3), (1000, 10)] {
        let mut f = filter(num_bits, hash_functions);
        f.add("https://a.example/1");
        let expected = positions("https://a.example/1", num_bits, hash_functions);
        let found = bits(&f, num_bits);
        for p in 0..num_bits {
            assert_eq!(found[p as usize], expected.contains(&p));
        }
    }
}

#[test]
fn probe_positions_follow_the_formula() {
    let f = filter(7, 3);
    assert_eq!(f.bit_index_for_hashes(10, 3, 0), 3);
    assert_eq!(f.bit_index_for_hashes(10, 3, 1), 6);
    assert_eq!(f.bit_index_for_hashes(10, 3, 2), 2);
    // 2^64 - 1 + 1 * 2 wraps to 1.
    assert_eq!(f.bit_index_for_hashes(u64::MAX, 2, 1), 1);
    // 2 * 2^63 wraps to 0.
    assert_eq!(f.bit_index_for_hashes(12, 1 << 63, 2), 5);
    // 3 * (2^64 - 1) wraps to 2^64 - 3; with 5 that wraps to 2.
    assert_eq!(f.bit_index_for_hashes(5, u64::MAX, 3), 2);

    let g = filter(640, 5);
    assert_eq!(g.bit_index_for_hashes(1000, 7, 4), 388);
    assert_eq!(g.bit_index_for_hashes(u64::MAX, 0, 4), 255);

    let one = filter(1, 1);
    assert_eq!(one.bit_index_for_hashes(u64::MAX, u64::MAX, 12345), 0);
}

#[test]
fn probe_positions_of_a_key_come_from_its_base_hashes() {
    for (num_bits, hash_functions) in [(640u64, 5usize), (7, 3), (1, 1), (1 << 20, 9)] {
        let f = filter(num_bits, hash_functions);
        for key in ["", "x", "https://a.example/1"] {
            let expected = positions(key, num_bits, hash_functions + 3);
            for i in 0..hash_functions + 3 {
                assert_eq!(f.get_bit_index(key, i), expected[i]);
                assert_eq!(f.get_bit_index(key, i), f.get_bit_index(key, i));
            }
        }
    }
}

#[test]
fn probe_positions_are_in_range() {
    for num_bits in [1u64, 2, 63, 64, 65, 640, 1_000_003] {
        let f = filter(num_bits, 4);
        for key in ["", "a", "https://a.example/1", "\u{1F600}"] {
            let (h1, h2) = base_hashes(key);
            for i in 0..16 {
                assert!(f.get_bit_index(key, i) < num_bits);
                assert!(f.bit_index_for_hashes(h1, h2, i) < num_bits);
            }
        }
    }
}

#[test]
fn hashes_can_be_added_and_asked_for() {
    let mut f = filter(8, 2);
    // The probes of (1, 2) are 1 and 3.
    f.add_hashes(1, 2);
    let expected = [false, true, false, true, false, false, false, false];
    assert_eq!(bits(&f, 8), expected.to_vec());
    assert!(f.might_contain_hashes(1, 2));
    // The probes of (3, 6) are 3 and 1.
    assert!(f.might_contain_hashes(3, 6));
    // The probes of (2, 1) are 2 and 3.
    assert!(!f.might_contain_hashes(2, 1));
    // The probes of (3, 1) are 3 and 4.
    assert!(!f.might_contain_hashes(3, 1));
}

#[test]
fn keys_are_added_by_their_base_hashes() {
    let mut by_key = filter(640, 5);
    by_key.add("https://a.example/1");
    let mut by_hashes = filter(640, 5);
    let (h1, h2) = base_hashes("https://a.example/1");
    by_hashes.add_hashes(h1, h2);
    assert_eq!(bits(&by_key, 640), bits(&by_hashes, 640));
    assert!(by_key.might_contain_hashes(h1, h2));
}

#[test]
fn prediction_for_a_filter_of_ten_bits_per_key() {
    // (1 - e^(-1/2))^5
    let p = predicted_rate(1_000.0, 10_000.0, 5.0);
    assert!((p - 0.009430929).abs() < 1e-8, "predicted {}", p);
    // One key in a single bit: the filter is full.
    assert!((predicted_rate(1.0, 1.0, 1.0) - 0.632120559).abs() < 1e-8);
}

#[test]
fn false_positive_rate_is_near_the_prediction() {
    for (m, k, n) in [(10_000u64, 5usize, 1_000usize), (8_192, 3, 1_500), (20_000, 7, 2_000)] {
        let mut f = filter(m, k);
        for i in 0..n {
            f.add(&format!("https://a.example/seen/{}", i));
        }
        let trials = 20_000;
        let mut hits = 0;
        for i in 0..trials {
            if f.might_contain(&format!("https://b.example/fresh/{}", i)) {
                hits += 1;
            }
        }
        let observed = hits as f64 / trials as f64;
        let predicted = predicted_rate(n as f64, m as f64, k as f64);
        assert!(
            observed <= predicted + 0.01,
            "observed {} against a prediction of {}",
            observed,
            predicted
        );
        assert!(
            observed >= predicted / 4.0,
            "observed {} against a prediction of {}",
            observed,
            predicted
        );
    }
}

#[test]
fn one_url_in_640_bits() {
    let mut f = filter(640, 5);
    f.add("https://a.example/1");
    assert!(f.might_contain("https://a.example/1"));

    let trials = 10_000;
    let mut hits = 0;
    for i in 2..trials + 2 {
        if f.might_contain(&format!("https://a.example/{}", i)) {
            hits += 1;
        }
    }
    let observed = hits as f64 / trials as f64;
    assert!(observed <= predicted_rate(1.0, 640.0, 5.0) + 0.001);
}

#[test]
fn keys_are_compared_by_their_bytes() {
    let mut f = filter(100_000, 5);
    f.add("https://a.example/Page");
    assert!(f.might_contain("https://a.example/Page"));
    assert!(!f.might_contain("https://a.example/page"));
    assert!(!f.might_contain("https://a.example/Page/"));
    assert!(!f.might_contain(" https://a.example/Page"));
}

use plug_deploy::backoff::{next_backoff, BACKOFF_CAP_MS, BACKOFF_INITIAL_MS};

#[test]
fn backoff_exact_schedule() {
    let mut b = BACKOFF_INITIAL_MS;
    let expected = [1950, 2535, 3295, 4283, 5567, 7237, 9408, 12000, 12000];
    for e in expected {
        b = next_backoff(b);
        assert_eq!(b, e);
    }
}

#[test]
fn backoff_never_exceeds_cap_and_never_shrinks() {
    let mut b = 1500u64;
    for _ in 0..50 {
        let n = next_backoff(b);
        assert!(n >= b, "backoff shrank: {b} -> {n}");
        assert!(n <= 12000, "backoff over cap: {n}");
        b = n;
    }
    assert_eq!(b, BACKOFF_CAP_MS);
}

#[test]
fn backoff_holds_at_cap_and_clamps_above() {
    assert_eq!(next_backoff(BACKOFF_CAP_MS), BACKOFF_CAP_MS);
    assert_eq!(next_backoff(20000), BACKOFF_CAP_MS);
}

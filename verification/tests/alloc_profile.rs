use accretion::alloc_profile::{
    init_from_env_value, is_enabled, reset_counters, snapshot, AllocCounters,
    AllocProfileSnapshot,
};

#[test]
fn counters_track_live_peak_and_totals() {
    let mut c = AllocCounters::new(true);
    c.on_alloc(100);
    c.on_alloc(50);
    c.on_dealloc(120);
    let s = snapshot(&c);
    assert_eq!(s.live_bytes, 30);
    assert_eq!(s.peak_live_bytes, 150);
    assert_eq!((s.total_alloc_bytes, s.total_dealloc_bytes), (150, 120));
    assert_eq!((s.alloc_calls, s.dealloc_calls, s.realloc_calls), (2, 1, 0));
    assert_eq!(s.net_bytes(), 30);
}

#[test]
fn realloc_counts_growth_and_shrink() {
    let mut c = AllocCounters::new(true);
    c.on_alloc(10);
    c.on_realloc(10, 40);
    assert_eq!((c.live_bytes, c.peak_bytes, c.total_alloc_bytes), (40, 40, 40));
    c.on_realloc(40, 15);
    assert_eq!((c.live_bytes, c.peak_bytes, c.total_dealloc_bytes), (15, 40, 25));
    assert_eq!(c.realloc_calls, 2);
}

#[test]
fn recording_off_changes_nothing() {
    let mut c = AllocCounters::new(false);
    c.record_alloc(64, true);
    c.record_dealloc(64);
    c.record_realloc(1, 2, true);
    assert_eq!(snapshot(&c).alloc_calls, 0);
    assert!(!is_enabled(&c));
    c.enabled = true;
    c.record_alloc(64, false);
    assert_eq!(c.alloc_calls, 0);
    c.record_alloc(64, true);
    assert_eq!((c.alloc_calls, c.live_bytes), (1, 64));
    c.record_realloc(64, 128, false);
    assert_eq!(c.realloc_calls, 0);
}

#[test]
fn reset_zeroes_counts_and_keeps_switch() {
    let mut c = AllocCounters::new(true);
    c.on_alloc(7);
    c.on_realloc(7, 3);
    reset_counters(&mut c);
    let s = snapshot(&c);
    assert_eq!(s.live_bytes + s.peak_live_bytes, 0);
    assert_eq!(s.total_alloc_bytes + s.total_dealloc_bytes, 0);
    assert_eq!(s.alloc_calls + s.dealloc_calls + s.realloc_calls, 0);
    assert!(is_enabled(&c));
}

#[test]
fn dealloc_wraps_like_atomic_counters() {
    let mut c = AllocCounters::new(true);
    c.on_dealloc(1);
    assert_eq!(c.live_bytes, usize::MAX);
    let mut t = AllocCounters::new(true);
    t.total_alloc_bytes = u64::MAX;
    t.on_alloc(2);
    assert_eq!(t.total_alloc_bytes, 1);
}

#[test]
fn net_bytes_reads_totals_as_signed() {
    let s = AllocProfileSnapshot {
        live_bytes: 0,
        peak_live_bytes: 0,
        total_alloc_bytes: 10,
        total_dealloc_bytes: 25,
        alloc_calls: 0,
        dealloc_calls: 0,
        realloc_calls: 0,
    };
    assert_eq!(s.net_bytes(), -15);
}

#[test]
fn switch_values_that_enable_profiling() {
    let mut c = AllocCounters::new(false);
    for v in ["1", "true", "TRUE", "yes", "YES"] {
        c.enabled = false;
        init_from_env_value(&mut c, Some(v));
        assert!(c.enabled, "{v} should enable");
    }
    for v in ["0", "True", "on", "", "yes "] {
        c.enabled = true;
        init_from_env_value(&mut c, Some(v));
        assert!(!c.enabled, "{v} should not enable");
    }
    c.enabled = true;
    init_from_env_value(&mut c, None);
    assert!(!c.enabled);
}

#[test]
fn accounting_holds_after_reset_and_a_run_of_calls() {
    let mut c = AllocCounters::new(true);
    c.on_alloc(999);
    reset_counters(&mut c);
    let sizes: [(u8, usize, usize); 8] =
        [(0, 64, 0), (0, 32, 0), (2, 32, 128), (1, 64, 0), (0, 8, 0), (2, 128, 16), (1, 8, 0), (0, 1, 0)];
    for (kind, a, b) in sizes {
        match kind {
            0 => c.on_alloc(a),
            1 => c.on_dealloc(a),
            _ => c.on_realloc(a, b),
        }
        let s = snapshot(&c);
        assert_eq!(s.total_alloc_bytes - s.total_dealloc_bytes, s.live_bytes as u64);
        assert_eq!(s.net_bytes(), s.live_bytes as i64);
        assert!(s.peak_live_bytes >= s.live_bytes);
    }
    assert_eq!(c.live_bytes, 17);
    assert_eq!(c.peak_bytes, 192);
}

#[test]
fn net_bytes_reads_live_past_the_signed_range() {
    let c = AllocCounters {
        enabled: true,
        live_bytes: 6,
        peak_bytes: 6,
        total_alloc_bytes: (1u64 << 63) + 10,
        total_dealloc_bytes: (1u64 << 63) + 4,
        alloc_calls: 2,
        dealloc_calls: 1,
        realloc_calls: 0,
    };
    assert_eq!(snapshot(&c).net_bytes(), 6);
}

use webhook_bench::Gauge;

#[test]
fn fresh_gauge_holds_sentinels() {
    let g = Gauge::new();
    assert_eq!(g.count(), 0);
    assert_eq!(g.best_ms(), i64::MAX);
    assert_eq!(g.worst_ms(), i64::MIN);
}

#[test]
fn four_samples_statistics() {
    let mut g = Gauge::new();
    g.append(10);
    g.append(50);
    g.append(30);
    g.append(30);
    assert_eq!(g.count(), 4);
    assert_eq!(g.best_ms(), 10);
    assert_eq!(g.worst_ms(), 50);
    assert_eq!(g.avg_ms(), 30);
}

#[test]
fn append_order_is_irrelevant() {
    let samples = [7, 3, 3, 40, 12, 0, 25];
    let mut forward = Gauge::new();
    for s in samples {
        forward.append(s);
    }
    let mut backward = Gauge::new();
    for s in samples.iter().rev() {
        backward.append(*s);
    }
    assert_eq!(forward.count(), backward.count());
    assert_eq!(forward.best_ms(), backward.best_ms());
    assert_eq!(forward.worst_ms(), backward.worst_ms());
    assert_eq!(forward.avg_ms(), backward.avg_ms());
}

#[test]
fn average_truncates_toward_zero() {
    let mut g = Gauge::new();
    g.append(-5);
    g.append(-4);
    assert_eq!(g.avg_ms(), -4);
    let mut h = Gauge::new();
    h.append(5);
    h.append(4);
    assert_eq!(h.avg_ms(), 4);
}

#[test]
fn snapshot_is_independent_and_does_not_reset() {
    let mut g = Gauge::new();
    g.append(20);
    let snap = g.snapshot();
    g.append(80);
    assert_eq!(snap.count(), 1);
    assert_eq!(snap.best_ms(), 20);
    assert_eq!(snap.worst_ms(), 20);
    assert_eq!(g.count(), 2);
    assert_eq!(g.worst_ms(), 80);
}

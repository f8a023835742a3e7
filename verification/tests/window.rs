use telemetry_window::sample::{make_rsi_sample, make_trade_sample, token_name, RSIData};
use telemetry_window::store::{RetainedWindow, RETENTION_CAPACITY};

fn rsi_sample(token_n: u64, rsi_milli: u64, ts: &str) -> RSIData {
    make_rsi_sample(token_n, rsi_milli, ts.to_string())
}

#[test]
fn new_window_is_empty() {
    let w: RetainedWindow<RSIData> = RetainedWindow::new();
    assert_eq!(w.len(), 0);
    assert!(w.snapshot().is_empty());
}

#[test]
fn capacity_is_min_of_appends_and_retention() {
    for n in 0..25u64 {
        let mut w: RetainedWindow<RSIData> = RetainedWindow::new();
        for i in 0..n {
            w.append(rsi_sample(1, 30_000 + i, "t"));
        }
        let expected = if (n as usize) < RETENTION_CAPACITY { n as usize } else { RETENTION_CAPACITY };
        assert_eq!(w.len(), expected);
        assert_eq!(w.snapshot().len(), expected);
    }
}

#[test]
fn fifo_eviction_drops_the_oldest() {
    let mut w: RetainedWindow<RSIData> = RetainedWindow::new();
    for i in 0..11u64 {
        w.append(rsi_sample(1, 30_000 + i, "t"));
    }
    let snap = w.snapshot();
    assert_eq!(snap.len(), 10);
    for (k, s) in snap.iter().enumerate() {
        assert_eq!(s.rsi_milli, 30_001 + k as u64);
    }
}

#[test]
fn insertion_order_is_preserved() {
    let mut w: RetainedWindow<RSIData> = RetainedWindow::new();
    let values = [7u64, 3, 9, 1, 5];
    for (i, v) in values.iter().enumerate() {
        w.append(rsi_sample(1, 30_000 + v, &format!("t{}", i)));
    }
    let snap = w.snapshot();
    let got: Vec<u64> = snap.iter().map(|s| s.rsi_milli - 30_000).collect();
    assert_eq!(got, vec![7, 3, 9, 1, 5]);
    let stamps: Vec<&str> = snap.iter().map(|s| s.timestamp.as_str()).collect();
    assert_eq!(stamps, vec!["t0", "t1", "t2", "t3", "t4"]);
}

#[test]
fn snapshot_is_an_independent_copy() {
    let mut w: RetainedWindow<RSIData> = RetainedWindow::new();
    w.append(rsi_sample(2, 40_000, "a"));
    let snap = w.snapshot();
    w.append(rsi_sample(3, 50_000, "b"));
    assert_eq!(snap.len(), 1);
    assert_eq!(snap[0].rsi_milli, 40_000);
    assert_eq!(snap[0].token_address, "Token_2");
    assert_eq!(w.len(), 2);
}

#[test]
fn token_name_enumerates_the_pool() {
    assert_eq!(token_name(1), "Token_1");
    assert_eq!(token_name(2), "Token_2");
    assert_eq!(token_name(3), "Token_3");
    assert_eq!(token_name(4), "Token_4");
    assert_eq!(token_name(5), "Token_5");
}

#[test]
fn make_rsi_sample_sets_every_field() {
    let s = make_rsi_sample(2, 45_000, "2024-01-01T00:00:00+00:00".to_string());
    assert_eq!(s.token_address, "Token_2");
    assert_eq!(s.rsi_milli, 45_000);
    assert_eq!(s.timestamp, "2024-01-01T00:00:00+00:00");
}

#[test]
fn make_trade_sample_sets_every_field() {
    let s = make_trade_sample(5, 199_000, "2024-01-01T00:00:00+00:00".to_string());
    assert_eq!(s.token_address, "Token_5");
    assert_eq!(s.price_milli, 199_000);
    assert_eq!(s.timestamp, "2024-01-01T00:00:00+00:00");
}

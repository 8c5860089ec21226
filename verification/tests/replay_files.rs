use nse_pipeline::replay::{
    dash_parts, date_dir_parts, token_of_stem, QuoteFill, RecordedRow, ReplayQuote,
};

fn row(ts: i64, bid: i64, bq: i64, ask: i64, aq: i64) -> RecordedRow {
    RecordedRow { ts_ns: ts, bid_price: bid, bid_qty: bq, ask_price: ask, ask_qty: aq }
}

#[test]
fn one_sided_rows_are_filled_forward() {
    let mut f = QuoteFill::new();
    assert_eq!(f.on_row(row(1, 0, 0, 0, 0)), None);
    assert_eq!(
        f.on_row(row(2, 10_000, 0, 0, 0)),
        Some(ReplayQuote { ts_ns: 2, bid_price: 10_000, bid_qty: 1, ask_price: 10_000, ask_qty: 1 })
    );
    assert_eq!(
        f.on_row(row(3, 0, 0, 10_005, 3)),
        Some(ReplayQuote { ts_ns: 3, bid_price: 10_000, bid_qty: 1, ask_price: 10_005, ask_qty: 3 })
    );
    assert_eq!(
        f.on_row(row(4, 9_995, 7, 0, 0)),
        Some(ReplayQuote { ts_ns: 4, bid_price: 9_995, bid_qty: 7, ask_price: 10_005, ask_qty: 3 })
    );
}

#[test]
fn stem_tokens() {
    assert_eq!(token_of_stem("1594_1778668109000"), Some(1594));
    assert_eq!(token_of_stem("26009"), Some(26009));
    assert_eq!(token_of_stem("abc_1"), None);
    assert_eq!(token_of_stem("_1"), None);
    assert_eq!(token_of_stem("4294967296"), None);
}

#[test]
fn date_parts() {
    assert_eq!(
        date_dir_parts("2026-05-10"),
        Some(("2026".to_string(), "05".to_string(), "10".to_string()))
    );
    assert_eq!(date_dir_parts("2026-05"), None);
    assert_eq!(date_dir_parts("2026--05-10"), None);
    assert_eq!(dash_parts("a--b"), vec!["a".to_string(), String::new(), "b".to_string()]);
    assert_eq!(dash_parts(""), vec![String::new()]);
}

use nse_pipeline::window::Window;

#[test]
fn window_never_exceeds_capacity_and_evicts_oldest() {
    let mut w = Window::new(3, 0i64);
    assert_eq!(w.capacity(), 3);
    assert_eq!(w.push(1), None);
    assert_eq!(w.push(2), None);
    assert!(!w.is_full());
    assert_eq!(w.push(3), None);
    assert!(w.is_full());
    assert_eq!(w.push(4), Some(1));
    assert_eq!(w.push(5), Some(2));
    assert_eq!(w.len(), 3);
    assert_eq!((w.get(0), w.get(1), w.get(2)), (3, 4, 5));
    for k in 6..100 {
        w.push(k);
        assert!(w.len() <= 3);
    }
    assert_eq!((w.get(0), w.get(1), w.get(2)), (97, 98, 99));
    w.clear();
    assert_eq!(w.len(), 0);
    assert_eq!(w.push(7), None);
    assert_eq!(w.get(0), 7);
}

use chrono::{TimeZone, Utc};
use nse_pipeline::circuit::{
    grace_secs_from, jwt_token_from, panic_plan, panic_requests, public_ip_or_fallback, PanicPlan,
    Watchdog,
};
use nse_pipeline::orders::OrderSide;
use nse_pipeline::session::{
    apply_action, close_side, decide, entry_qty, is_past_ist_cutoff, session_step, CloseReason,
    Position, PositionSide, SessionDate, SessionStep, SignalReading, VwapAction,
};

fn ts_ist_ns(h: u32, m: u32) -> u64 {
    let utc_secs: i64 = {
        let ist_secs = (h as i64) * 3600 + (m as i64) * 60;
        let offset = 5 * 3600 + 30 * 60;
        let base: i64 = (2026 - 1970) * 365 * 86400 + 40 * 86400;
        base + ist_secs - offset
    };
    (utc_secs as u64) * 1_000_000_000
}

fn ist_ns(y: i32, mo: u32, d: u32, h: u32, mi: u32) -> u64 {
    let utc = Utc.with_ymd_and_hms(y, mo, d, h, mi, 0).unwrap() - chrono::Duration::minutes(330);
    utc.timestamp_nanos_opt().unwrap() as u64
}

#[test]
fn cutoff_detection() {
    assert!(is_past_ist_cutoff(ts_ist_ns(14, 45), 14, 45));
    assert!(!is_past_ist_cutoff(ts_ist_ns(14, 44), 14, 45));
}

#[test]
fn cutoff_later_hours_and_minutes() {
    assert!(is_past_ist_cutoff(ist_ns(2026, 5, 10, 15, 0), 14, 45));
    assert!(is_past_ist_cutoff(ist_ns(2026, 5, 10, 14, 59), 14, 45));
    assert!(!is_past_ist_cutoff(ist_ns(2026, 5, 10, 9, 15), 14, 45));
}

#[test]
fn pre_open_ticks_are_ignored() {
    assert_eq!(session_step(ts_ist_ns(9, 10), None), SessionStep::PreOpen);
    assert!(matches!(session_step(ts_ist_ns(9, 20), None), SessionStep::NewSession(_)));
}

#[test]
fn session_resets_on_new_day_only() {
    let day1 = ist_ns(2026, 5, 10, 9, 30);
    let d = match session_step(day1, None) {
        SessionStep::NewSession(d) => d,
        other => panic!("unexpected {other:?}"),
    };
    assert_eq!(d, SessionDate { year: 2026, month: 5, day: 10 });
    assert_eq!(session_step(ist_ns(2026, 5, 10, 15, 0), Some(d)), SessionStep::Continue);
    assert_eq!(
        session_step(ist_ns(2026, 5, 11, 9, 15), Some(d)),
        SessionStep::NewSession(SessionDate { year: 2026, month: 5, day: 11 })
    );
    assert_eq!(session_step(ist_ns(2026, 5, 11, 9, 14), Some(d)), SessionStep::PreOpen);
}

fn reading() -> SignalReading {
    SignalReading {
        warmed_up: true,
        stats_ready: true,
        past_cutoff: false,
        long_reverted: false,
        short_reverted: false,
        entry_strength: false,
        below_mean: false,
        entry_qty: 10,
    }
}

const FLAT: Position = Position { side: PositionSide::Flat, qty: 0 };

#[test]
fn entry_against_the_deviation() {
    let mut s = reading();
    s.entry_strength = true;
    s.below_mean = true;
    assert_eq!(
        decide(FLAT, s),
        VwapAction::Enter { order_side: OrderSide::Buy, qty: 10, new_side: PositionSide::Long }
    );
    s.below_mean = false;
    assert_eq!(
        decide(FLAT, s),
        VwapAction::Enter { order_side: OrderSide::Sell, qty: 10, new_side: PositionSide::Short }
    );
    s.entry_qty = 0;
    assert_eq!(decide(FLAT, s), VwapAction::Nothing);
}

#[test]
fn cutoff_closes_and_blocks_entries() {
    let mut s = reading();
    s.past_cutoff = true;
    s.entry_strength = true;
    assert_eq!(decide(FLAT, s), VwapAction::Nothing);
    let long = Position { side: PositionSide::Long, qty: 20 };
    let a = decide(long, s);
    assert_eq!(a, VwapAction::Close { side: PositionSide::Long, qty: 20, reason: CloseReason::MisCutoff });
    assert_eq!(apply_action(long, a), FLAT);
}

#[test]
fn reversion_closes_and_warm_up_waits() {
    let mut s = reading();
    s.short_reverted = true;
    let short = Position { side: PositionSide::Short, qty: 5 };
    assert_eq!(
        decide(short, s),
        VwapAction::Close { side: PositionSide::Short, qty: 5, reason: CloseReason::ZReversion }
    );
    s.warmed_up = false;
    assert_eq!(decide(short, s), VwapAction::Nothing);
    assert_eq!(close_side(PositionSide::Short), Some(OrderSide::Buy));
    assert_eq!(close_side(PositionSide::Long), Some(OrderSide::Sell));
    assert_eq!(close_side(PositionSide::Flat), None);
}

#[test]
fn entry_quantity_clamped() {
    assert_eq!(entry_qty(0, 50, 200), 0);
    assert_eq!(entry_qty(10, 0, 200), 1);
    assert_eq!(entry_qty(10, 20, 200), 20);
    assert_eq!(entry_qty(100, 300, 200), 200);
}

#[test]
fn watchdog_grace_and_timeout() {
    let mut w = Watchdog::new(1_000, 10);
    assert!(!w.trips(1_000 + 5_000_000_000));
    let after_grace = 1_000 + 10_000_000_000;
    assert!(w.trips(after_grace));
    w.on_message(true, after_grace);
    assert!(!w.trips(after_grace + 50_000_000));
    assert!(w.trips(after_grace + 50_000_001));
    w.on_message(false, after_grace + 60_000_000);
    assert!(w.trips(after_grace + 60_000_000));
}

#[test]
fn grace_setting_parses_or_defaults() {
    assert_eq!(grace_secs_from(None), 10);
    assert_eq!(grace_secs_from(Some("30")), 30);
    assert_eq!(grace_secs_from(Some("+7")), 7);
    assert_eq!(grace_secs_from(Some("-1")), 10);
    assert_eq!(grace_secs_from(Some("soon")), 10);
    assert_eq!(grace_secs_from(Some("18446744073709551615")), u64::MAX);
    assert_eq!(grace_secs_from(Some("18446744073709551616")), 10);
}

#[test]
fn jwt_token_sources() {
    assert_eq!(jwt_token_from(Some("env".to_string()), Some("file".to_string())), "env");
    assert_eq!(jwt_token_from(Some(String::new()), Some("  file\n".to_string())), "file");
    assert_eq!(jwt_token_from(None, None), "");
}

#[test]
fn panic_plan_order_of_rules() {
    assert_eq!(panic_plan(true, "", ""), PanicPlan::DryRunExit);
    assert_eq!(panic_plan(false, "", "k"), PanicPlan::MissingAuthExit);
    assert_eq!(panic_plan(false, "j", ""), PanicPlan::MissingAuthExit);
    assert_eq!(panic_plan(false, "j", "k"), PanicPlan::CancelAndExit);
}

#[test]
fn panic_requests_cancel_then_exit() {
    let r = panic_requests("jwt", "key", &public_ip_or_fallback(None));
    assert_eq!(r.len(), 2);
    assert!(r[0].url.ends_with("/order/v1/cancelAllOrders"));
    assert!(r[1].url.ends_with("/order/v1/exitAllPositions"));
    assert_eq!(r[0].headers[0], ("Authorization".to_string(), "Bearer jwt".to_string()));
    assert_eq!(r[1].headers[7], ("X-ClientPublicIP".to_string(), "0.0.0.0".to_string()));
    assert_eq!(r[0].headers.len(), 10);
    assert_eq!(public_ip_or_fallback(Some("1.2.3.4".to_string())), "1.2.3.4");
}

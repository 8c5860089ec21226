use chrono::{Duration, TimeZone, Utc};
use nse_pipeline::risk::{
    check_freeze_qty, check_lot_size, check_physical_settlement, check_stt_trap,
    InstrumentRiskConfig, NseRiskCheck, NseRiskConfig, RiskCheckResult, RiskRejectionReason,
    SttTrapCheckResult,
};

const FREEZE: u64 = 45_000;

fn ns(dt: chrono::DateTime<Utc>) -> i64 {
    dt.timestamp_nanos_opt().unwrap()
}

#[test]
fn at_80_pct_is_approved() {
    let cap = (FREEZE as f64 * 0.80).floor() as u64;
    assert_eq!(check_freeze_qty(cap, FREEZE, "NIFTY"), RiskCheckResult::Approved);
}

#[test]
fn above_80_pct_is_rejected() {
    let over = (FREEZE as f64 * 0.80).floor() as u64 + 1;
    let result = check_freeze_qty(over, FREEZE, "NIFTY");
    assert!(matches!(result, RiskCheckResult::Rejected { .. }));
}

#[test]
fn at_freeze_qty_itself_is_rejected() {
    let result = check_freeze_qty(FREEZE, FREEZE, "NIFTY");
    assert!(matches!(result, RiskCheckResult::Rejected { .. }));
}

#[test]
fn below_cap_is_approved() {
    assert_eq!(check_freeze_qty(75, FREEZE, "NIFTY"), RiskCheckResult::Approved);
}

#[test]
fn zero_qty_is_approved() {
    assert_eq!(check_freeze_qty(0, FREEZE, "NIFTY"), RiskCheckResult::Approved);
}

#[test]
fn exact_multiple_is_approved() {
    assert_eq!(check_lot_size(75, 75, "NIFTY26JUNFUT"), RiskCheckResult::Approved);
    assert_eq!(check_lot_size(150, 75, "NIFTY26JUNFUT"), RiskCheckResult::Approved);
    assert_eq!(check_lot_size(750, 75, "NIFTY26JUNFUT"), RiskCheckResult::Approved);
}

#[test]
fn fractional_lot_is_rejected() {
    let result = check_lot_size(76, 75, "NIFTY26JUNFUT");
    assert!(matches!(result, RiskCheckResult::Rejected { .. }));
}

#[test]
fn one_unit_below_lot_is_rejected() {
    let result = check_lot_size(74, 75, "NIFTY26JUNFUT");
    assert!(matches!(result, RiskCheckResult::Rejected { .. }));
}

#[test]
fn zero_lot_size_in_config_is_rejected() {
    let result = check_lot_size(75, 0, "NIFTY26JUNFUT");
    assert!(matches!(result, RiskCheckResult::Rejected { .. }));
}

#[test]
fn zero_qty_is_approved_as_multiple_of_any_lot() {
    assert_eq!(check_lot_size(0, 75, "NIFTY26JUNFUT"), RiskCheckResult::Approved);
}

fn phys_expiry() -> chrono::DateTime<Utc> {
    Utc.with_ymd_and_hms(2026, 6, 26, 8, 0, 0).unwrap()
}

const THRESHOLD: u64 = 90;

#[test]
fn non_physical_instrument_is_always_approved() {
    let now = phys_expiry() - Duration::minutes(30);
    let result =
        check_physical_settlement("NIFTY26JUNFUT", false, ns(phys_expiry()), ns(now), THRESHOLD);
    assert_eq!(result, RiskCheckResult::Approved);
}

#[test]
fn physical_outside_window_is_approved() {
    let now = phys_expiry() - Duration::minutes(120);
    let result = check_physical_settlement(
        "RELIANCE26JUN3000CE",
        true,
        ns(phys_expiry()),
        ns(now),
        THRESHOLD,
    );
    assert_eq!(result, RiskCheckResult::Approved);
}

#[test]
fn physical_at_threshold_boundary_is_approved() {
    let now = phys_expiry() - Duration::minutes(90);
    let result = check_physical_settlement(
        "RELIANCE26JUN3000CE",
        true,
        ns(phys_expiry()),
        ns(now),
        THRESHOLD,
    );
    assert_eq!(result, RiskCheckResult::Approved);
}

#[test]
fn physical_inside_window_is_rejected() {
    let now = phys_expiry() - Duration::minutes(89);
    let result = check_physical_settlement(
        "RELIANCE26JUN3000CE",
        true,
        ns(phys_expiry()),
        ns(now),
        THRESHOLD,
    );
    assert!(matches!(result, RiskCheckResult::Rejected { .. }));
}

#[test]
fn physical_already_expired_is_rejected() {
    let now = phys_expiry() + Duration::minutes(5);
    let result = check_physical_settlement(
        "RELIANCE26JUN3000CE",
        true,
        ns(phys_expiry()),
        ns(now),
        THRESHOLD,
    );
    assert!(matches!(result, RiskCheckResult::Rejected { .. }));
}

fn stt_expiry() -> chrono::DateTime<Utc> {
    Utc.with_ymd_and_hms(2026, 6, 26, 10, 0, 0).unwrap()
}

#[test]
fn well_before_expiry_is_clear() {
    let now = stt_expiry() - Duration::minutes(120);
    let result = check_stt_trap("NIFTY26JUN22000CE", ns(stt_expiry()), ns(now), 60);
    assert_eq!(result, SttTrapCheckResult::Clear);
}

#[test]
fn at_threshold_is_warning() {
    let now = stt_expiry() - Duration::minutes(60);
    let result = check_stt_trap("NIFTY26JUN22000CE", ns(stt_expiry()), ns(now), 60);
    assert_eq!(result, SttTrapCheckResult::Clear);
}

#[test]
fn inside_threshold_is_warning() {
    let now = stt_expiry() - Duration::minutes(59);
    let result = check_stt_trap("NIFTY26JUN22000CE", ns(stt_expiry()), ns(now), 60);
    assert!(matches!(result, SttTrapCheckResult::Warning { .. }));
}

#[test]
fn already_expired_is_clear() {
    let now = stt_expiry() + Duration::minutes(10);
    let result = check_stt_trap("NIFTY26JUN22000CE", ns(stt_expiry()), ns(now), 60);
    assert_eq!(result, SttTrapCheckResult::Clear);
}

fn nifty_check() -> NseRiskCheck {
    let mut config = NseRiskConfig::default();
    config.max_position_lots = 50;
    config.stt_trap_warning_minutes_before_expiry = 60;
    config.physical_settlement_reject_minutes_before_expiry = 90;
    config.instruments.insert(
        "NIFTY26JUNFUT".to_string(),
        InstrumentRiskConfig { lot_size: 75, freeze_qty: 45_000, physical_settlement: false },
    );
    config.instruments.insert(
        "RELIANCE26JUN3000CE".to_string(),
        InstrumentRiskConfig { lot_size: 250, freeze_qty: 10_000, physical_settlement: true },
    );
    NseRiskCheck::new(config)
}

fn now() -> i64 {
    ns(Utc.with_ymd_and_hms(2026, 6, 1, 4, 0, 0).unwrap())
}

fn expiry() -> chrono::DateTime<Utc> {
    Utc.with_ymd_and_hms(2026, 6, 26, 10, 0, 0).unwrap()
}

#[test]
fn valid_nifty_order_approved() {
    let check = nifty_check();
    let result = check.validate("NIFTY26JUNFUT", 75, Some(ns(expiry())), now(), false);
    assert_eq!(result, RiskCheckResult::Approved);
}

#[test]
fn valid_multi_lot_nifty_approved() {
    let check = nifty_check();
    let result = check.validate("NIFTY26JUNFUT", 750, Some(ns(expiry())), now(), false);
    assert_eq!(result, RiskCheckResult::Approved);
}

#[test]
fn fractional_lot_rejected() {
    let check = nifty_check();
    let result = check.validate("NIFTY26JUNFUT", 76, Some(ns(expiry())), now(), false);
    assert!(matches!(
        result,
        RiskCheckResult::Rejected { reason: RiskRejectionReason::InvalidLotSize { .. }, .. }
    ));
}

#[test]
fn one_below_lot_rejected() {
    let check = nifty_check();
    let result = check.validate("NIFTY26JUNFUT", 74, Some(ns(expiry())), now(), false);
    assert!(matches!(result, RiskCheckResult::Rejected { .. }));
}

#[test]
fn exceeds_80pct_freeze_cap_rejected() {
    let check = nifty_check();
    let result = check.validate("NIFTY26JUNFUT", 36_075, Some(ns(expiry())), now(), false);
    assert!(matches!(
        result,
        RiskCheckResult::Rejected { reason: RiskRejectionReason::ExceedsFreeze { .. }, .. }
    ));
}

#[test]
fn at_80pct_freeze_cap_approved() {
    let check = nifty_check();
    let result = check.validate("NIFTY26JUNFUT", 36_000, Some(ns(expiry())), now(), false);
    assert_eq!(result, RiskCheckResult::Approved);
}

#[test]
fn stock_option_inside_expiry_window_rejected() {
    let check = nifty_check();
    let close_to_expiry = expiry() - Duration::minutes(30);
    let result = check.validate(
        "RELIANCE26JUN3000CE",
        250,
        Some(ns(expiry())),
        ns(close_to_expiry),
        false,
    );
    assert!(matches!(
        result,
        RiskCheckResult::Rejected { reason: RiskRejectionReason::PhysicalSettlementRisk { .. }, .. }
    ));
}

#[test]
fn stock_option_before_window_approved() {
    let check = nifty_check();
    let early = expiry() - Duration::minutes(120);
    let result =
        check.validate("RELIANCE26JUN3000CE", 250, Some(ns(expiry())), ns(early), false);
    assert_eq!(result, RiskCheckResult::Approved);
}

#[test]
fn unknown_instrument_rejected() {
    let check = nifty_check();
    let result = check.validate("UNKNOWN_FUT", 100, None, now(), false);
    assert!(matches!(
        result,
        RiskCheckResult::Rejected { reason: RiskRejectionReason::UnknownInstrument { .. }, .. }
    ));
}

// ---- Own tests: exact messages and laws on concrete values ----

#[test]
fn lot_size_rejection_carries_quantity_and_lot() {
    match check_lot_size(76, 75, "NIFTY26JUNFUT") {
        RiskCheckResult::Rejected { reason, .. } => assert_eq!(
            reason,
            RiskRejectionReason::InvalidLotSize {
                qty: 76,
                lot_size: 75,
                symbol: "NIFTY26JUNFUT".to_string()
            }
        ),
        RiskCheckResult::Approved => panic!("expected a rejection"),
    }
}

#[test]
fn freeze_cap_is_floor_of_four_fifths() {
    // 80% of 10_001 is 8000.8: the cap is 8000.
    assert_eq!(check_freeze_qty(8_000, 10_001, "X"), RiskCheckResult::Approved);
    assert!(matches!(check_freeze_qty(8_001, 10_001, "X"), RiskCheckResult::Rejected { .. }));
}

#[test]
fn freeze_rejection_downward_closed() {
    // Every quantity above a rejected one is rejected too.
    for q in 36_001..36_100u64 {
        assert!(matches!(check_freeze_qty(q, FREEZE, "N"), RiskCheckResult::Rejected { .. }));
    }
}

#[test]
fn stt_warning_carries_minutes() {
    let now = stt_expiry() - Duration::minutes(59);
    match check_stt_trap("NIFTY26JUN22000CE", ns(stt_expiry()), ns(now), 60) {
        SttTrapCheckResult::Warning { minutes_remaining, threshold_minutes, .. } => {
            assert_eq!(minutes_remaining, 59);
            assert_eq!(threshold_minutes, 60);
        }
        SttTrapCheckResult::Clear => panic!("expected a warning"),
    }
}

#[test]
fn physical_rejection_minutes_rounded_toward_zero() {
    // 89 minutes and 30 seconds remaining count as 89 whole minutes.
    let now = phys_expiry() - Duration::seconds(89 * 60 + 30);
    match check_physical_settlement("R", true, ns(phys_expiry()), ns(now), THRESHOLD) {
        RiskCheckResult::Rejected { reason, .. } => assert_eq!(
            reason,
            RiskRejectionReason::PhysicalSettlementRisk { symbol: "R".to_string(), minutes_remaining: 89 }
        ),
        RiskCheckResult::Approved => panic!("expected a rejection"),
    }
}

#[test]
fn physical_flag_from_config_applies_without_caller_flag() {
    let check = nifty_check();
    let result = check.validate(
        "RELIANCE26JUN3000CE",
        250,
        Some(ns(expiry())),
        ns(expiry() - Duration::minutes(10)),
        false,
    );
    assert!(matches!(result, RiskCheckResult::Rejected { .. }));
}

#[test]
fn no_expiry_skips_time_checks() {
    let check = nifty_check();
    let result = check.validate("RELIANCE26JUN3000CE", 250, None, now(), true);
    assert_eq!(result, RiskCheckResult::Approved);
}

#[test]
fn default_config_values() {
    let c = NseRiskConfig::default();
    assert_eq!(c.max_position_lots, 50);
    assert_eq!(c.stt_trap_warning_minutes_before_expiry, 60);
    assert_eq!(c.physical_settlement_reject_minutes_before_expiry, 90);
    assert!(c.instrument("NIFTY26JUNFUT").is_none());
}

//! NSE F&O pre-trade risk checks.
//!
//! Checks run in order:
//! 1. lot size: `qty % lot_size == 0`;
//! 2. freeze quantity: `qty <= 80%` of the NSE freeze quantity;
//! 3. STT trap: a warning for long options near expiry, never a rejection;
//! 4. physical settlement: stock F&O orders inside the pre-expiry window are
//!    rejected.
//!
//! Every threshold comes from the configuration.  Instants are UTC
//! nanoseconds and the current time is always passed in.

use vstd::prelude::*;
use vstd::hash_map::StringHashMap;
use crate::clock::{minutes_between, minutes_until};
use crate::text::{decimal_text, push_decimal, push_signed_decimal, signed_decimal_text};

verus! {

/// Structured reason attached to every rejection.
#[derive(Debug, Clone, PartialEq, Eq)]
pub enum RiskRejectionReason {
    /// The quantity is not a whole number of lots (or the lot size is 0).
    InvalidLotSize { qty: u64, lot_size: u64, symbol: String },
    /// The quantity exceeds 80% of the NSE freeze quantity.
    ExceedsFreeze { qty: u64, freeze_qty: u64, cap: u64, symbol: String },
    /// A physically settled contract is inside the pre-expiry window or expired.
    PhysicalSettlementRisk { symbol: String, minutes_remaining: i64 },
    /// The instrument has no risk configuration.
    UnknownInstrument { symbol: String },
}

/// Outcome of a pre-trade check; anything but `Approved` is a hard stop.
#[derive(Debug, Clone, PartialEq, Eq)]
pub enum RiskCheckResult {
    Approved,
    Rejected { reason: RiskRejectionReason, message: String },
}

/// The mathematical value of a rejection reason (strings as character sequences).
pub enum RejectionModel {
    InvalidLotSize { qty: u64, lot_size: u64, symbol: Seq<char> },
    ExceedsFreeze { qty: u64, freeze_qty: u64, cap: u64, symbol: Seq<char> },
    PhysicalSettlementRisk { symbol: Seq<char>, minutes_remaining: i64 },
    UnknownInstrument { symbol: Seq<char> },
}

/// The mathematical value of a check result.
pub enum RiskOutcome {
    Approved,
    Rejected { reason: RejectionModel, message: Seq<char> },
}

impl View for RiskRejectionReason {
    type V = RejectionModel;

    open spec fn view(&self) -> RejectionModel {
        match self {
            RiskRejectionReason::InvalidLotSize { qty, lot_size, symbol } => {
                RejectionModel::InvalidLotSize { qty: *qty, lot_size: *lot_size, symbol: symbol@ }
            },
            RiskRejectionReason::ExceedsFreeze { qty, freeze_qty, cap, symbol } => {
                RejectionModel::ExceedsFreeze {
                    qty: *qty,
                    freeze_qty: *freeze_qty,
                    cap: *cap,
                    symbol: symbol@,
                }
            },
            RiskRejectionReason::PhysicalSettlementRisk { symbol, minutes_remaining } => {
                RejectionModel::PhysicalSettlementRisk {
                    symbol: symbol@,
                    minutes_remaining: *minutes_remaining,
                }
            },
            RiskRejectionReason::UnknownInstrument { symbol } => {
                RejectionModel::UnknownInstrument { symbol: symbol@ }
            },
        }
    }
}

impl View for RiskCheckResult {
    type V = RiskOutcome;

    open spec fn view(&self) -> RiskOutcome {
        match self {
            RiskCheckResult::Approved => RiskOutcome::Approved,
            RiskCheckResult::Rejected { reason, message } => {
                RiskOutcome::Rejected { reason: reason@, message: message@ }
            },
        }
    }
}

// ---------------------------------------------------------------------------
// Lot size
// ---------------------------------------------------------------------------

/// Message for a lot size of 0 in the configuration.
pub open spec fn zero_lot_message(symbol: Seq<char>) -> Seq<char> {
    "["@ + symbol + "] lot_size=0 is invalid in config"@
}

/// Message for a quantity that is not a multiple of the lot size.
pub open spec fn fractional_lot_message(symbol: Seq<char>, qty: u64, lot_size: u64) -> Seq<char> {
    "["@ + symbol + "] qty="@ + decimal_text(qty as nat) + " is not a multiple of lot_size="@
        + decimal_text(lot_size as nat) + " (remainder="@ + decimal_text((qty % lot_size) as nat)
        + ")"@
}

/// What the lot-size check returns.
pub open spec fn spec_check_lot_size(qty: u64, lot_size: u64, symbol: Seq<char>) -> RiskOutcome {
    if lot_size == 0 {
        RiskOutcome::Rejected {
            reason: RejectionModel::InvalidLotSize { qty, lot_size, symbol },
            message: zero_lot_message(symbol),
        }
    } else if qty % lot_size != 0 {
        RiskOutcome::Rejected {
            reason: RejectionModel::InvalidLotSize { qty, lot_size, symbol },
            message: fractional_lot_message(symbol, qty, lot_size),
        }
    } else {
        RiskOutcome::Approved
    }
}

/// Approves `qty` when it is a whole multiple of a non-zero `lot_size`;
/// otherwise rejects with `InvalidLotSize`.
pub fn check_lot_size(qty: u64, lot_size: u64, symbol: &str) -> (r: RiskCheckResult)
    ensures
        r@ == spec_check_lot_size(qty, lot_size, symbol@),
{
    if lot_size == 0 {
        let mut message = String::from_str("[");
        message.append(symbol);
        message.append("] lot_size=0 is invalid in config");
        return RiskCheckResult::Rejected {
            reason: RiskRejectionReason::InvalidLotSize {
                qty,
                lot_size,
                symbol: String::from_str(symbol),
            },
            message,
        };
    }
    if qty % lot_size != 0 {
        let mut message = String::from_str("[");
        message.append(symbol);
        message.append("] qty=");
        push_decimal(&mut message, qty);
        message.append(" is not a multiple of lot_size=");
        push_decimal(&mut message, lot_size);
        message.append(" (remainder=");
        push_decimal(&mut message, qty % lot_size);
        message.append(")");
        RiskCheckResult::Rejected {
            reason: RiskRejectionReason::InvalidLotSize {
                qty,
                lot_size,
                symbol: String::from_str(symbol),
            },
            message,
        }
    } else {
        RiskCheckResult::Approved
    }
}

// ---------------------------------------------------------------------------
// Freeze quantity
// ---------------------------------------------------------------------------

/// The order cap: 80% of the freeze quantity, rounded down.
pub open spec fn freeze_cap(freeze_qty: u64) -> int {
    (4 * freeze_qty) / 5
}

/// Message for a quantity above the freeze cap.
pub open spec fn freeze_message(symbol: Seq<char>, qty: u64, cap: u64, freeze_qty: u64) -> Seq<char> {
    "["@ + symbol + "] qty="@ + decimal_text(qty as nat) + " exceeds 80% freeze cap="@
        + decimal_text(cap as nat) + " (freeze_qty="@ + decimal_text(freeze_qty as nat) + ")"@
}

/// What the freeze-quantity check returns.
pub open spec fn spec_check_freeze_qty(qty: u64, freeze_qty: u64, symbol: Seq<char>) -> RiskOutcome {
    let cap = freeze_cap(freeze_qty) as u64;
    if qty > cap {
        RiskOutcome::Rejected {
            reason: RejectionModel::ExceedsFreeze { qty, freeze_qty, cap, symbol },
            message: freeze_message(symbol, qty, cap, freeze_qty),
        }
    } else {
        RiskOutcome::Approved
    }
}

/// 80% of `freeze_qty`, rounded down, computed without overflow.
fn cap_of(freeze_qty: u64) -> (cap: u64)
    ensures
        cap == freeze_cap(freeze_qty),
{
    let q = freeze_qty / 5;
    let r = freeze_qty % 5;
    assert(4 * freeze_qty == 20 * q + 4 * r);
    q * 4 + (r * 4) / 5
}

/// Approves `qty` when it is at most 80% of `freeze_qty` (rounded down);
/// otherwise rejects with `ExceedsFreeze` carrying that cap.
pub fn check_freeze_qty(qty: u64, freeze_qty: u64, symbol: &str) -> (r: RiskCheckResult)
    ensures
        r@ == spec_check_freeze_qty(qty, freeze_qty, symbol@),
{
    let cap = cap_of(freeze_qty);
    if qty > cap {
        let mut message = String::from_str("[");
        message.append(symbol);
        message.append("] qty=");
        push_decimal(&mut message, qty);
        message.append(" exceeds 80% freeze cap=");
        push_decimal(&mut message, cap);
        message.append(" (freeze_qty=");
        push_decimal(&mut message, freeze_qty);
        message.append(")");
        RiskCheckResult::Rejected {
            reason: RiskRejectionReason::ExceedsFreeze {
                qty,
                freeze_qty,
                cap,
                symbol: String::from_str(symbol),
            },
            message,
        }
    } else {
        RiskCheckResult::Approved
    }
}

// ---------------------------------------------------------------------------
// Physical settlement
// ---------------------------------------------------------------------------

/// Message for an order on a contract that has already expired.
pub open spec fn expired_message(symbol: Seq<char>, minutes: i64) -> Seq<char> {
    "["@ + symbol + "] contract has already expired ("@ + signed_decimal_text(minutes as int)
        + " min); no new orders accepted"@
}

/// Message for an order inside the physical-settlement window.
pub open spec fn settlement_window_message(symbol: Seq<char>, minutes: i64, threshold: u64) -> Seq<
    char,
> {
    "["@ + symbol + "] physical-settlement stock F&O within "@ + signed_decimal_text(minutes as int)
        + " min of expiry (threshold="@ + decimal_text(threshold as nat)
        + " min). Flatten position before accepting new orders."@
}

/// What the physical-settlement check returns.
pub open spec fn spec_check_physical_settlement(
    symbol: Seq<char>,
    is_physical_settlement: bool,
    expiry_ns: i64,
    now_ns: i64,
    reject_minutes: u64,
) -> RiskOutcome {
    let minutes = minutes_between(expiry_ns, now_ns) as i64;
    if !is_physical_settlement {
        RiskOutcome::Approved
    } else if minutes < 0 {
        RiskOutcome::Rejected {
            reason: RejectionModel::PhysicalSettlementRisk { symbol, minutes_remaining: minutes },
            message: expired_message(symbol, minutes),
        }
    } else if minutes < reject_minutes as i64 {
        RiskOutcome::Rejected {
            reason: RejectionModel::PhysicalSettlementRisk { symbol, minutes_remaining: minutes },
            message: settlement_window_message(symbol, minutes, reject_minutes),
        }
    } else {
        RiskOutcome::Approved
    }
}

/// Rejects orders on physically settled contracts once expiry is less than
/// `reject_minutes_before_expiry` whole minutes away, or already past.
/// Cash-settled contracts are always approved.
pub fn check_physical_settlement(
    symbol: &str,
    is_physical_settlement: bool,
    expiry_ns: i64,
    now_ns: i64,
    reject_minutes_before_expiry: u64,
) -> (r: RiskCheckResult)
    ensures
        r@ == spec_check_physical_settlement(
            symbol@,
            is_physical_settlement,
            expiry_ns,
            now_ns,
            reject_minutes_before_expiry,
        ),
{
    if !is_physical_settlement {
        return RiskCheckResult::Approved;
    }
    let minutes_remaining = minutes_until(expiry_ns, now_ns);
    if minutes_remaining < 0 {
        let mut message = String::from_str("[");
        message.append(symbol);
        message.append("] contract has already expired (");
        push_signed_decimal(&mut message, minutes_remaining);
        message.append(" min); no new orders accepted");
        return RiskCheckResult::Rejected {
            reason: RiskRejectionReason::PhysicalSettlementRisk {
                symbol: String::from_str(symbol),
                minutes_remaining,
            },
            message,
        };
    }
    if minutes_remaining < reject_minutes_before_expiry as i64 {
        let mut message = String::from_str("[");
        message.append(symbol);
        message.append("] physical-settlement stock F&O within ");
        push_signed_decimal(&mut message, minutes_remaining);
        message.append(" min of expiry (threshold=");
        push_decimal(&mut message, reject_minutes_before_expiry);
        message.append(" min). Flatten position before accepting new orders.");
        RiskCheckResult::Rejected {
            reason: RiskRejectionReason::PhysicalSettlementRisk {
                symbol: String::from_str(symbol),
                minutes_remaining,
            },
            message,
        }
    } else {
        RiskCheckResult::Approved
    }
}

// ---------------------------------------------------------------------------
// STT trap
// ---------------------------------------------------------------------------

/// Outcome of the STT-trap check.
#[derive(Debug, Clone, PartialEq, Eq)]
pub enum SttTrapCheckResult {
    /// Not close to expiry, or already expired.
    Clear,
    /// Close the position before expiry.
    Warning { symbol: String, minutes_remaining: i64, threshold_minutes: u64 },
}

/// The mathematical value of an STT-trap outcome.
pub enum SttTrapModel {
    Clear,
    Warning { symbol: Seq<char>, minutes_remaining: i64, threshold_minutes: u64 },
}

impl View for SttTrapCheckResult {
    type V = SttTrapModel;

    open spec fn view(&self) -> SttTrapModel {
        match self {
            SttTrapCheckResult::Clear => SttTrapModel::Clear,
            SttTrapCheckResult::Warning { symbol, minutes_remaining, threshold_minutes } => {
                SttTrapModel::Warning {
                    symbol: symbol@,
                    minutes_remaining: *minutes_remaining,
                    threshold_minutes: *threshold_minutes,
                }
            },
        }
    }
}

/// What the STT-trap check returns.
pub open spec fn spec_check_stt_trap(
    symbol: Seq<char>,
    expiry_ns: i64,
    now_ns: i64,
    threshold_minutes: u64,
) -> SttTrapModel {
    let minutes = minutes_between(expiry_ns, now_ns) as i64;
    if minutes < 0 {
        SttTrapModel::Clear
    } else if minutes < threshold_minutes as i64 {
        SttTrapModel::Warning { symbol, minutes_remaining: minutes, threshold_minutes }
    } else {
        SttTrapModel::Clear
    }
}

/// Warns when a long option is less than `threshold_minutes` whole minutes
/// from expiry; clear before that window and after expiry.
pub fn check_stt_trap(symbol: &str, expiry_ns: i64, now_ns: i64, threshold_minutes: u64) -> (r:
    SttTrapCheckResult)
    ensures
        r@ == spec_check_stt_trap(symbol@, expiry_ns, now_ns, threshold_minutes),
{
    let minutes_remaining = minutes_until(expiry_ns, now_ns);
    if minutes_remaining < 0 {
        return SttTrapCheckResult::Clear;
    }
    if minutes_remaining < threshold_minutes as i64 {
        SttTrapCheckResult::Warning {
            symbol: String::from_str(symbol),
            minutes_remaining,
            threshold_minutes,
        }
    } else {
        SttTrapCheckResult::Clear
    }
}

// ---------------------------------------------------------------------------
// Configuration
// ---------------------------------------------------------------------------

/// Per-instrument risk parameters.
#[derive(Debug, Clone, Copy, PartialEq, Eq)]
pub struct InstrumentRiskConfig {
    /// Units per lot.
    pub lot_size: u64,
    /// NSE per-order freeze quantity, in units.
    pub freeze_qty: u64,
    /// The contract settles by physical delivery (stock F&O).
    pub physical_settlement: bool,
}

/// The NSE risk configuration that the checks read.
pub struct NseRiskConfig {
    /// Maximum number of lots per instrument.
    pub max_position_lots: u64,
    /// Minutes before expiry at which the STT-trap warning starts.
    pub stt_trap_warning_minutes_before_expiry: u64,
    /// Minutes before expiry from which physically settled orders are rejected.
    pub physical_settlement_reject_minutes_before_expiry: u64,
    /// Per-instrument parameters, keyed by symbol.
    pub instruments: StringHashMap<InstrumentRiskConfig>,
}

impl Default for NseRiskConfig {
    /// Paper-trading defaults: 50 lots, a 60-minute STT window, a 90-minute
    /// physical-settlement window, and no instruments.
    fn default() -> (c: Self)
        ensures
            c.max_position_lots == 50,
            c.stt_trap_warning_minutes_before_expiry == 60,
            c.physical_settlement_reject_minutes_before_expiry == 90,
            c.instruments@ == Map::<Seq<char>, InstrumentRiskConfig>::empty(),
    {
        NseRiskConfig {
            max_position_lots: 50,
            stt_trap_warning_minutes_before_expiry: 60,
            physical_settlement_reject_minutes_before_expiry: 90,
            instruments: StringHashMap::new(),
        }
    }
}

impl NseRiskConfig {
    /// The configuration of `symbol`, if it has one.
    pub fn instrument(&self, symbol: &str) -> (r: Option<&InstrumentRiskConfig>)
        ensures
            match r {
                Some(c) => self.instruments@.contains_key(symbol@) && *c == self.instruments@[symbol@],
                None => !self.instruments@.contains_key(symbol@),
            },
    {
        self.instruments.get(symbol)
    }
}

// ---------------------------------------------------------------------------
// Validation
// ---------------------------------------------------------------------------

/// Message for an instrument without configuration.
pub open spec fn unknown_message(symbol: Seq<char>) -> Seq<char> {
    "["@ + symbol + "] instrument not found in nse_risk.toml; cannot validate lot_size or freeze_qty"@
}

/// What `validate` returns for this configuration and order.
pub open spec fn spec_validate(
    cfg: &NseRiskConfig,
    symbol: Seq<char>,
    qty: u64,
    expiry_ns: Option<i64>,
    now_ns: i64,
    is_physical_settlement: bool,
) -> RiskOutcome {
    if !cfg.instruments@.contains_key(symbol) {
        RiskOutcome::Rejected {
            reason: RejectionModel::UnknownInstrument { symbol },
            message: unknown_message(symbol),
        }
    } else {
        let inst = cfg.instruments@[symbol];
        let ls = spec_check_lot_size(qty, inst.lot_size, symbol);
        let fq = spec_check_freeze_qty(qty, inst.freeze_qty, symbol);
        if !(ls is Approved) {
            ls
        } else if !(fq is Approved) {
            fq
        } else {
            match expiry_ns {
                None => RiskOutcome::Approved,
                Some(expiry) => if is_physical_settlement || inst.physical_settlement {
                    spec_check_physical_settlement(
                        symbol,
                        true,
                        expiry,
                        now_ns,
                        cfg.physical_settlement_reject_minutes_before_expiry,
                    )
                } else {
                    RiskOutcome::Approved
                },
            }
        }
    }
}

/// Pre-trade gate for NSE F&O orders.
pub struct NseRiskCheck {
    config: NseRiskConfig,
}

impl NseRiskCheck {
    /// The configuration orders are checked against.
    pub closed spec fn spec_config(&self) -> &NseRiskConfig {
        &self.config
    }

    /// A gate over `config`.
    pub fn new(config: NseRiskConfig) -> (c: Self)
        ensures
            *c.spec_config() == config,
    {
        Self { config }
    }

    /// The underlying configuration.
    pub fn config(&self) -> (c: &NseRiskConfig)
        ensures
            *c == *self.spec_config(),
    {
        &self.config
    }

    /// Validates an order against every NSE F&O rule, in order: unknown
    /// instrument, lot size, freeze quantity, then (when an expiry is given)
    /// the STT-trap warning, which never rejects, and the physical-settlement
    /// window for physically settled contracts (flagged by the caller or the
    /// configuration).  The first failing check decides the rejection.
    pub fn validate(
        &self,
        symbol: &str,
        qty: u64,
        expiry_ns: Option<i64>,
        now_ns: i64,
        is_physical_settlement: bool,
    ) -> (r: RiskCheckResult)
        ensures
            r@ == spec_validate(
                self.spec_config(),
                symbol@,
                qty,
                expiry_ns,
                now_ns,
                is_physical_settlement,
            ),
    {
        let inst = match self.config.instrument(symbol) {
            Some(c) => *c,
            None => {
                let mut message = String::from_str("[");
                message.append(symbol);
                message.append(
                    "] instrument not found in nse_risk.toml; cannot validate lot_size or freeze_qty",
                );
                return RiskCheckResult::Rejected {
                    reason: RiskRejectionReason::UnknownInstrument {
                        symbol: String::from_str(symbol),
                    },
                    message,
                };
            },
        };
        let ls = check_lot_size(qty, inst.lot_size, symbol);
        if !matches!(ls, RiskCheckResult::Approved) {
            return ls;
        }
        let fq = check_freeze_qty(qty, inst.freeze_qty, symbol);
        if !matches!(fq, RiskCheckResult::Approved) {
            return fq;
        }
        if let Some(expiry) = expiry_ns {
            let _warning = check_stt_trap(
                symbol,
                expiry,
                now_ns,
                self.config.stt_trap_warning_minutes_before_expiry,
            );
            if is_physical_settlement || inst.physical_settlement {
                let ps = check_physical_settlement(
                    symbol,
                    true,
                    expiry,
                    now_ns,
                    self.config.physical_settlement_reject_minutes_before_expiry,
                );
                if !matches!(ps, RiskCheckResult::Approved) {
                    return ps;
                }
            }
        }
        RiskCheckResult::Approved
    }
}

// ---------------------------------------------------------------------------
// Laws
// ---------------------------------------------------------------------------

/// An order is approved exactly when its instrument is configured, its
/// quantity is a whole number of (non-zero) lots, it is at most 80% of the
/// freeze quantity, and, when an expiry is given for a physically settled
/// contract, expiry is still at least the configured number of whole
/// minutes away.
pub proof fn law_approval_characterised(
    cfg: &NseRiskConfig,
    symbol: Seq<char>,
    qty: u64,
    expiry_ns: Option<i64>,
    now_ns: i64,
    is_physical_settlement: bool,
)
    ensures
        (spec_validate(cfg, symbol, qty, expiry_ns, now_ns, is_physical_settlement) is Approved)
            <==> {
            &&& cfg.instruments@.contains_key(symbol)
            &&& cfg.instruments@[symbol].lot_size > 0
            &&& qty % cfg.instruments@[symbol].lot_size == 0
            &&& qty <= freeze_cap(cfg.instruments@[symbol].freeze_qty)
            &&& (expiry_ns is Some && (is_physical_settlement
                || cfg.instruments@[symbol].physical_settlement) ==> {
                let m = minutes_between(expiry_ns->0, now_ns) as i64;
                0 <= m && m >= cfg.physical_settlement_reject_minutes_before_expiry as i64
            })
        },
{
}

/// A quantity that is not a whole number of lots is always rejected for
/// its lot size, whatever the other inputs.
pub proof fn law_fractional_lot_rejected(
    cfg: &NseRiskConfig,
    symbol: Seq<char>,
    qty: u64,
    expiry_ns: Option<i64>,
    now_ns: i64,
    is_physical_settlement: bool,
)
    requires
        cfg.instruments@.contains_key(symbol),
        cfg.instruments@[symbol].lot_size > 0,
        qty % cfg.instruments@[symbol].lot_size != 0,
    ensures
        spec_validate(cfg, symbol, qty, expiry_ns, now_ns, is_physical_settlement) matches
            RiskOutcome::Rejected { reason: RejectionModel::InvalidLotSize { .. }, .. },
{
}

/// A whole number of lots within the freeze cap is approved when no expiry
/// check applies.
pub proof fn law_lots_within_cap_approved(
    cfg: &NseRiskConfig,
    symbol: Seq<char>,
    qty: u64,
    now_ns: i64,
    is_physical_settlement: bool,
)
    requires
        cfg.instruments@.contains_key(symbol),
        cfg.instruments@[symbol].lot_size > 0,
        qty % cfg.instruments@[symbol].lot_size == 0,
        qty <= freeze_cap(cfg.instruments@[symbol].freeze_qty),
    ensures
        spec_validate(cfg, symbol, qty, None, now_ns, is_physical_settlement) is Approved,
{
}

/// A quantity above 80% of the freeze quantity is always rejected.
pub proof fn law_above_cap_rejected(
    cfg: &NseRiskConfig,
    symbol: Seq<char>,
    qty: u64,
    expiry_ns: Option<i64>,
    now_ns: i64,
    is_physical_settlement: bool,
)
    requires
        cfg.instruments@.contains_key(symbol),
        qty > freeze_cap(cfg.instruments@[symbol].freeze_qty),
    ensures
        spec_validate(cfg, symbol, qty, expiry_ns, now_ns, is_physical_settlement) is Rejected,
{
}

/// The STT-trap threshold never changes the outcome: two configurations
/// that differ only there give the same answer for every order.
pub proof fn law_stt_trap_never_decides(
    cfg1: &NseRiskConfig,
    cfg2: &NseRiskConfig,
    symbol: Seq<char>,
    qty: u64,
    expiry_ns: Option<i64>,
    now_ns: i64,
    is_physical_settlement: bool,
)
    requires
        cfg1.instruments@ == cfg2.instruments@,
        cfg1.physical_settlement_reject_minutes_before_expiry
            == cfg2.physical_settlement_reject_minutes_before_expiry,
    ensures
        spec_validate(cfg1, symbol, qty, expiry_ns, now_ns, is_physical_settlement) == spec_validate(
            cfg2,
            symbol,
            qty,
            expiry_ns,
            now_ns,
            is_physical_settlement,
        ),
{
}

/// If a quantity passes the freeze check, every smaller quantity does too.
pub proof fn law_freeze_downward_closed(q1: u64, q2: u64, freeze_qty: u64, symbol: Seq<char>)
    requires
        spec_check_freeze_qty(q1, freeze_qty, symbol) is Approved,
        q2 <= q1,
    ensures
        spec_check_freeze_qty(q2, freeze_qty, symbol) is Approved,
{
}

/// The cap is exactly 80% of the freeze quantity where that is whole, and
/// otherwise the largest quantity below 80% of it.
pub proof fn law_freeze_cap_is_eighty_percent(freeze_qty: u64, qty: u64)
    ensures
        (qty <= freeze_cap(freeze_qty)) <==> (5 * qty <= 4 * freeze_qty),
{
}

} // verus!

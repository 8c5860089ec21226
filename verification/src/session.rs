//! The NSE trading session as the intraday strategy sees it: when a tick
//! belongs to a session, when the square-off cutoff has passed, and what
//! the strategy does with its position for a given reading of its signal.
//! The signal statistics themselves are floating point and computed
//! outside; they come in here as the comparisons the rules need.

use vstd::prelude::*;
use crate::clock::{IstClock, ist_clock, ist_clock_of};
use crate::orders::OrderSide;

verus! {

/// Session open in IST: 09:15.
pub const SESSION_OPEN_HOUR: u32 = 9;

/// Session open in IST: 09:15.
pub const SESSION_OPEN_MIN: u32 = 15;

/// Nanoseconds per second.
pub const NANOS_PER_SEC: u64 = 1_000_000_000;

/// The IST wall clock at a tick time in Unix nanoseconds (whole seconds).
pub open spec fn tick_clock(ts_ns: u64) -> IstClock {
    ist_clock_of((ts_ns / NANOS_PER_SEC) as int)
}

/// The IST wall clock at `ts_ns` Unix nanoseconds.
pub fn ist_at(ts_ns: u64) -> (c: IstClock)
    ensures
        c == tick_clock(ts_ns),
{
    let secs = ts_ns / NANOS_PER_SEC;
    assert(secs <= 18_446_744_073u64);
    match ist_clock(secs as i64) {
        Some(c) => c,
        None => IstClock { year: 0, month: 0, day: 0, hour: 0, minute: 0 },
    }
}

/// A reading is at or past `hour:minute` on its day.
pub open spec fn at_or_past(c: IstClock, hour: u32, minute: u32) -> bool {
    c.hour > hour || (c.hour == hour && c.minute >= minute)
}

/// Whether the IST time of `ts_ns` is at or past `cutoff_hour:cutoff_min`,
/// the square-off deadline of intraday positions.
pub fn is_past_ist_cutoff(ts_ns: u64, cutoff_hour: u32, cutoff_min: u32) -> (b: bool)
    ensures
        b == at_or_past(tick_clock(ts_ns), cutoff_hour, cutoff_min),
{
    let c = ist_at(ts_ns);
    c.hour > cutoff_hour || (c.hour == cutoff_hour && c.minute >= cutoff_min)
}

/// The IST calendar day of a session.
#[derive(Debug, Clone, Copy, PartialEq, Eq)]
pub struct SessionDate {
    pub year: i32,
    pub month: u32,
    pub day: u32,
}

/// The calendar day of a reading.
pub open spec fn date_of(c: IstClock) -> SessionDate {
    SessionDate { year: c.year, month: c.month, day: c.day }
}

/// What a tick means for the session state.
#[derive(Debug, Clone, Copy, PartialEq, Eq)]
pub enum SessionStep {
    /// Before 09:15 IST: the tick is ignored.
    PreOpen,
    /// The tick belongs to the running session.
    Continue,
    /// The tick opens a new session on this day: statistics start over.
    NewSession(SessionDate),
}

/// The session rule: ticks before 09:15 IST are ignored; the first tick of
/// an IST calendar day other than the current session's opens a new session.
pub open spec fn spec_session_step(ts_ns: u64, current: Option<SessionDate>) -> SessionStep {
    let c = tick_clock(ts_ns);
    if !at_or_past(c, SESSION_OPEN_HOUR, SESSION_OPEN_MIN) {
        SessionStep::PreOpen
    } else if current == Some(date_of(c)) {
        SessionStep::Continue
    } else {
        SessionStep::NewSession(date_of(c))
    }
}

/// Classifies a tick at `ts_ns` against the current session day.
pub fn session_step(ts_ns: u64, current: Option<SessionDate>) -> (s: SessionStep)
    ensures
        s == spec_session_step(ts_ns, current),
{
    let c = ist_at(ts_ns);
    if c.hour < SESSION_OPEN_HOUR || (c.hour == SESSION_OPEN_HOUR && c.minute < SESSION_OPEN_MIN) {
        return SessionStep::PreOpen;
    }
    let today = SessionDate { year: c.year, month: c.month, day: c.day };
    match current {
        Some(d) => if d.year == today.year && d.month == today.month && d.day == today.day {
            SessionStep::Continue
        } else {
            SessionStep::NewSession(today)
        },
        None => SessionStep::NewSession(today),
    }
}

/// The strategy's position in one instrument.
#[derive(Debug, Clone, Copy, PartialEq, Eq)]
pub enum PositionSide {
    Flat,
    Long,
    Short,
}

/// Position held in one instrument: a side and an absolute quantity.
#[derive(Debug, Clone, Copy, PartialEq, Eq)]
pub struct Position {
    pub side: PositionSide,
    pub qty: u64,
}

/// Why a position is closed.
#[derive(Debug, Clone, Copy, PartialEq, Eq)]
pub enum CloseReason {
    /// The intraday square-off cutoff has passed.
    MisCutoff,
    /// The signal has reverted toward the mean.
    ZReversion,
}

/// The signal as the rules read it.  `z` is the distance of the price from
/// the session mean in rolling standard deviations.
#[derive(Debug, Clone, Copy, PartialEq, Eq)]
pub struct SignalReading {
    /// At least `min_samples` ticks are in the session.
    pub warmed_up: bool,
    /// Mean, deviation and `z` could all be computed.
    pub stats_ready: bool,
    /// The tick is at or past the square-off cutoff.
    pub past_cutoff: bool,
    /// `z >= -exit_z`: a long has reverted.
    pub long_reverted: bool,
    /// `z <= exit_z`: a short has reverted.
    pub short_reverted: bool,
    /// `|z| >= threshold`: strong enough to enter.
    pub entry_strength: bool,
    /// `z < 0`: the price is below its mean.
    pub below_mean: bool,
    /// Quantity an entry would trade (0: none).
    pub entry_qty: u64,
}

/// What the strategy does on a tick.
#[derive(Debug, Clone, Copy, PartialEq, Eq)]
pub enum VwapAction {
    Nothing,
    /// Close the position with a market order on the opposite side.
    Close { side: PositionSide, qty: u64, reason: CloseReason },
    /// Enter with a market order.
    Enter { order_side: OrderSide, qty: u64, new_side: PositionSide },
}

/// The decision rule, in priority order: nothing before warm-up or without
/// statistics; past the cutoff, close any position and never enter; close a
/// long or a short that has reverted; from flat, enter against the
/// deviation (buy below the mean, sell above) when the signal is strong
/// enough and the quantity is not 0.
pub open spec fn spec_decide(pos: Position, s: SignalReading) -> VwapAction {
    if !s.warmed_up || !s.stats_ready {
        VwapAction::Nothing
    } else if s.past_cutoff {
        if pos.side != PositionSide::Flat {
            VwapAction::Close { side: pos.side, qty: pos.qty, reason: CloseReason::MisCutoff }
        } else {
            VwapAction::Nothing
        }
    } else if pos.side == PositionSide::Long && s.long_reverted {
        VwapAction::Close { side: pos.side, qty: pos.qty, reason: CloseReason::ZReversion }
    } else if pos.side == PositionSide::Short && s.short_reverted {
        VwapAction::Close { side: pos.side, qty: pos.qty, reason: CloseReason::ZReversion }
    } else if pos.side == PositionSide::Flat && s.entry_strength && s.entry_qty > 0 {
        if s.below_mean {
            VwapAction::Enter { order_side: OrderSide::Buy, qty: s.entry_qty, new_side: PositionSide::Long }
        } else {
            VwapAction::Enter {
                order_side: OrderSide::Sell,
                qty: s.entry_qty,
                new_side: PositionSide::Short,
            }
        }
    } else {
        VwapAction::Nothing
    }
}

/// Decides what to do with position `pos` for the signal reading `s`.
pub fn decide(pos: Position, s: SignalReading) -> (a: VwapAction)
    ensures
        a == spec_decide(pos, s),
{
    if !s.warmed_up || !s.stats_ready {
        return VwapAction::Nothing;
    }
    if s.past_cutoff {
        return match pos.side {
            PositionSide::Flat => VwapAction::Nothing,
            _ => VwapAction::Close { side: pos.side, qty: pos.qty, reason: CloseReason::MisCutoff },
        };
    }
    match pos.side {
        PositionSide::Long => if s.long_reverted {
            VwapAction::Close { side: pos.side, qty: pos.qty, reason: CloseReason::ZReversion }
        } else {
            VwapAction::Nothing
        },
        PositionSide::Short => if s.short_reverted {
            VwapAction::Close { side: pos.side, qty: pos.qty, reason: CloseReason::ZReversion }
        } else {
            VwapAction::Nothing
        },
        PositionSide::Flat => if s.entry_strength && s.entry_qty > 0 {
            if s.below_mean {
                VwapAction::Enter {
                    order_side: OrderSide::Buy,
                    qty: s.entry_qty,
                    new_side: PositionSide::Long,
                }
            } else {
                VwapAction::Enter {
                    order_side: OrderSide::Sell,
                    qty: s.entry_qty,
                    new_side: PositionSide::Short,
                }
            }
        } else {
            VwapAction::Nothing
        },
    }
}


/// The entry quantity rule: nothing when the capital buys no whole unit
/// (`base` 0); otherwise the signal-scaled quantity, at least 1 and at most
/// `max_qty`.
pub open spec fn spec_entry_qty(base: u64, scaled: u64, max_qty: u64) -> u64 {
    if base == 0 {
        0
    } else {
        let at_least_one = if scaled < 1 { 1 } else { scaled };
        if at_least_one > max_qty { max_qty } else { at_least_one }
    }
}

/// The quantity of an entry from `base` whole units of capital and their
/// signal-scaled count `scaled`, capped at `max_qty`.
pub fn entry_qty(base: u64, scaled: u64, max_qty: u64) -> (q: u64)
    ensures
        q == spec_entry_qty(base, scaled, max_qty),
        base > 0 ==> q <= max_qty,
{
    if base == 0 {
        return 0;
    }
    let at_least_one = if scaled < 1 { 1 } else { scaled };
    if at_least_one > max_qty { max_qty } else { at_least_one }
}

/// The order side that closes a position on `side` (none from flat).
pub open spec fn spec_close_side(side: PositionSide) -> Option<OrderSide> {
    match side {
        PositionSide::Long => Some(OrderSide::Sell),
        PositionSide::Short => Some(OrderSide::Buy),
        PositionSide::Flat => None,
    }
}

/// The order side that closes a position on `side`: sell a long, buy back a
/// short; a flat position needs no order.
pub fn close_side(side: PositionSide) -> (o: Option<OrderSide>)
    ensures
        o == spec_close_side(side),
{
    match side {
        PositionSide::Long => Some(OrderSide::Sell),
        PositionSide::Short => Some(OrderSide::Buy),
        PositionSide::Flat => None,
    }
}

/// The position after an action has been executed.
pub open spec fn spec_after(pos: Position, a: VwapAction) -> Position {
    match a {
        VwapAction::Nothing => pos,
        VwapAction::Close { side, .. } => if side == PositionSide::Flat {
            pos
        } else {
            Position { side: PositionSide::Flat, qty: 0 }
        },
        VwapAction::Enter { qty, new_side, .. } => Position { side: new_side, qty },
    }
}

/// Applies an executed action to the position: a close flattens it, an
/// entry takes the new side and quantity.
pub fn apply_action(pos: Position, a: VwapAction) -> (p: Position)
    ensures
        p == spec_after(pos, a),
{
    match a {
        VwapAction::Nothing => pos,
        VwapAction::Close { side, .. } => match side {
            PositionSide::Flat => pos,
            _ => Position { side: PositionSide::Flat, qty: 0 },
        },
        VwapAction::Enter { qty, new_side, .. } => Position { side: new_side, qty },
    }
}

/// A position is consistent when it is flat exactly when its quantity is 0.
pub open spec fn consistent(p: Position) -> bool {
    (p.side == PositionSide::Flat) <==> (p.qty == 0)
}

/// Positions stay consistent: from a consistent position, whatever the
/// signal, executing the decided action leaves a consistent position.
pub proof fn law_position_consistent(pos: Position, s: SignalReading)
    requires
        consistent(pos),
    ensures
        consistent(spec_after(pos, spec_decide(pos, s))),
{
}

/// No entry at or after the cutoff, and no position survives a tick past
/// the cutoff once the strategy is warmed up with statistics.
pub proof fn law_cutoff_flattens(pos: Position, s: SignalReading)
    requires
        s.past_cutoff,
    ensures
        !(spec_decide(pos, s) is Enter),
        s.warmed_up && s.stats_ready ==> spec_after(pos, spec_decide(pos, s)).side
            == PositionSide::Flat,
{
}

/// One position at a time: an entry is only ever decided from flat.
pub proof fn law_entry_only_from_flat(pos: Position, s: SignalReading)
    requires
        spec_decide(pos, s) is Enter,
    ensures
        pos.side == PositionSide::Flat,
{
}

/// Pre-open ticks never touch the session: a tick before 09:15 IST is
/// ignored whatever the current session.
pub proof fn law_pre_open_ignored(ts_ns: u64, current: Option<SessionDate>)
    requires
        !at_or_past(tick_clock(ts_ns), SESSION_OPEN_HOUR, SESSION_OPEN_MIN),
    ensures
        spec_session_step(ts_ns, current) == SessionStep::PreOpen,
{
}

/// A long exits on its own reversion: once warmed up with statistics and
/// before the cutoff, a long whose signal has come back to `z >= -exit_z`
/// is closed for reversion with its whole quantity, it is held otherwise,
/// and the short side's reading plays no part.
pub proof fn law_long_reversion_exit(pos: Position, s: SignalReading, other: bool)
    requires
        s.warmed_up,
        s.stats_ready,
        !s.past_cutoff,
        pos.side == PositionSide::Long,
    ensures
        s.long_reverted ==> (spec_decide(pos, s) matches VwapAction::Close { side, qty, reason }
            && side == PositionSide::Long && qty == pos.qty && reason == CloseReason::ZReversion),
        !s.long_reverted ==> spec_decide(pos, s) is Nothing,
        spec_decide(pos, s) == spec_decide(pos, (SignalReading { short_reverted: other, ..s })),
{
}

/// A short exits on its own reversion: once warmed up with statistics and
/// before the cutoff, a short whose signal has come back to `z <= exit_z`
/// is closed for reversion with its whole quantity, it is held otherwise,
/// and the long side's reading plays no part.
pub proof fn law_short_reversion_exit(pos: Position, s: SignalReading, other: bool)
    requires
        s.warmed_up,
        s.stats_ready,
        !s.past_cutoff,
        pos.side == PositionSide::Short,
    ensures
        s.short_reverted ==> (spec_decide(pos, s) matches VwapAction::Close { side, qty, reason }
            && side == PositionSide::Short && qty == pos.qty && reason == CloseReason::ZReversion),
        !s.short_reverted ==> spec_decide(pos, s) is Nothing,
        spec_decide(pos, s) == spec_decide(pos, (SignalReading { long_reverted: other, ..s })),
{
}

} // verus!

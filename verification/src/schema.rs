//! The packet model and the normalised tick schema.
//!
//! Angel One sends prices as integer paise (₹245.50 is 24550).  The library
//! keeps every price in paise; the conversion to rupees happens where a
//! value leaves the library.  The two cumulative order quantities that the
//! broker sends as IEEE-754 doubles are kept as their raw 64-bit pattern.

use vstd::prelude::*;
use crate::decimal::{parse_i32, spec_parse_i32};

verus! {

/// Broker exchange identifiers used in subscriptions and present in every
/// binary packet.
#[derive(Debug, Clone, Copy, PartialEq, Eq, Hash)]
pub enum ExchangeType {
    NseCm,
    NseFo,
    BseCm,
    BseFo,
    McxFo,
    NcxFo,
    CdeFo,
}

/// The wire code of each exchange type.
pub open spec fn exchange_code(e: ExchangeType) -> u8 {
    match e {
        ExchangeType::NseCm => 1,
        ExchangeType::NseFo => 2,
        ExchangeType::BseCm => 3,
        ExchangeType::BseFo => 4,
        ExchangeType::McxFo => 5,
        ExchangeType::NcxFo => 7,
        ExchangeType::CdeFo => 13,
    }
}

/// The exchange type whose wire code is `v`, if any.
pub open spec fn exchange_from_code(v: u8) -> Option<ExchangeType> {
    if v == 1 {
        Some(ExchangeType::NseCm)
    } else if v == 2 {
        Some(ExchangeType::NseFo)
    } else if v == 3 {
        Some(ExchangeType::BseCm)
    } else if v == 4 {
        Some(ExchangeType::BseFo)
    } else if v == 5 {
        Some(ExchangeType::McxFo)
    } else if v == 7 {
        Some(ExchangeType::NcxFo)
    } else if v == 13 {
        Some(ExchangeType::CdeFo)
    } else {
        None
    }
}

impl ExchangeType {
    /// Decodes a wire code; `None` for codes that name no exchange.
    pub fn from_u8(v: u8) -> (r: Option<Self>)
        ensures
            r == exchange_from_code(v),
    {
        match v {
            1 => Some(Self::NseCm),
            2 => Some(Self::NseFo),
            3 => Some(Self::BseCm),
            4 => Some(Self::BseFo),
            5 => Some(Self::McxFo),
            7 => Some(Self::NcxFo),
            13 => Some(Self::CdeFo),
            _ => None,
        }
    }

    /// The wire code of this exchange type.
    pub fn code(&self) -> (c: u8)
        ensures
            c == exchange_code(*self),
    {
        match self {
            Self::NseCm => 1,
            Self::NseFo => 2,
            Self::BseCm => 3,
            Self::BseFo => 4,
            Self::McxFo => 5,
            Self::NcxFo => 7,
            Self::CdeFo => 13,
        }
    }
}

/// Data granularity modes of the WebSocket v2 stream.
#[derive(Debug, Clone, Copy, PartialEq, Eq, Hash)]
pub enum SubscriptionMode {
    Ltp,
    Quote,
    SnapQuote,
    Depth,
}

/// The wire code of each subscription mode.
pub open spec fn mode_code(m: SubscriptionMode) -> u8 {
    match m {
        SubscriptionMode::Ltp => 1,
        SubscriptionMode::Quote => 2,
        SubscriptionMode::SnapQuote => 3,
        SubscriptionMode::Depth => 4,
    }
}

/// The subscription mode whose wire code is `v`, if any.
pub open spec fn mode_from_code(v: u8) -> Option<SubscriptionMode> {
    if v == 1 {
        Some(SubscriptionMode::Ltp)
    } else if v == 2 {
        Some(SubscriptionMode::Quote)
    } else if v == 3 {
        Some(SubscriptionMode::SnapQuote)
    } else if v == 4 {
        Some(SubscriptionMode::Depth)
    } else {
        None
    }
}

impl SubscriptionMode {
    /// Decodes a wire code; `None` for codes that name no mode.
    pub fn from_u8(v: u8) -> (r: Option<Self>)
        ensures
            r == mode_from_code(v),
    {
        match v {
            1 => Some(Self::Ltp),
            2 => Some(Self::Quote),
            3 => Some(Self::SnapQuote),
            4 => Some(Self::Depth),
            _ => None,
        }
    }

    /// The wire code of this mode.
    pub fn code(&self) -> (c: u8)
        ensures
            c == mode_code(*self),
    {
        match self {
            Self::Ltp => 1,
            Self::Quote => 2,
            Self::SnapQuote => 3,
            Self::Depth => 4,
        }
    }
}

/// Decoding a code gives back the value that has it, and only codes that
/// some value has decode at all.
pub proof fn law_wire_codes_round_trip(e: ExchangeType, m: SubscriptionMode, v: u8)
    ensures
        exchange_from_code(exchange_code(e)) == Some(e),
        mode_from_code(mode_code(m)) == Some(m),
        exchange_from_code(v) matches Some(x) ==> exchange_code(x) == v,
        mode_from_code(v) matches Some(x) ==> mode_code(x) == v,
{
}

/// Additional OHLCV fields of Quote (mode 2) and SnapQuote (mode 3) packets.
/// Prices are paise; the two total quantities are raw IEEE-754 bit patterns.
#[derive(Debug, Clone)]
pub struct QuoteData {
    pub last_traded_qty: i64,
    pub avg_traded_price: i64,
    pub volume: i64,
    pub total_buy_qty_bits: u64,
    pub total_sell_qty_bits: u64,
    pub open: i64,
    pub high: i64,
    pub low: i64,
    pub close: i64,
}

/// One price level of the order-book depth.
#[derive(Debug, Clone, Copy)]
pub struct DepthEntry {
    pub flag: u16,
    pub qty: i64,
    pub price: i64,
    pub num_orders: u16,
}

/// SnapQuote-only fields (mode 3).
#[derive(Debug, Clone)]
pub struct SnapQuoteData {
    pub last_traded_timestamp: i64,
    pub open_interest: i64,
    pub oi_change_pct: i64,
    pub upper_circuit: i64,
    pub lower_circuit: i64,
    pub week_52_high: i64,
    pub week_52_low: i64,
    pub best_5_buy: Vec<DepthEntry>,
    pub best_5_sell: Vec<DepthEntry>,
}

/// One decoded binary packet, before normalisation.
#[derive(Debug, Clone)]
pub struct ParsedPacket {
    pub mode: SubscriptionMode,
    pub exchange: ExchangeType,
    pub token: String,
    pub sequence_number: i64,
    pub exchange_timestamp: i64,
    pub last_traded_price: i64,
    /// Present when the mode is Quote or SnapQuote and the frame is long enough.
    pub quote: Option<QuoteData>,
    /// Present only when the mode is SnapQuote and the frame is long enough.
    pub snap: Option<SnapQuoteData>,
}

/// The canonical tick.  Every price field is integer paise (the rupee value
/// times 100); `total_buy_qty_bits` and `total_sell_qty_bits` are the raw
/// IEEE-754 bits of the broker's doubles.
///
/// Bid levels come from the packet's `best_5_sell`, ask levels from
/// `best_5_buy`: the broker's flag names are inverted relative to the book
/// side, as observed on live data.  Missing levels are zero.
#[derive(Debug, Clone, Copy, PartialEq, Eq)]
pub struct Tick {
    pub ts_ns: i64,
    pub inst_id: i32,
    pub side: i8,
    pub price: i64,
    pub qty: i64,
    pub seq_no: i64,
    pub best_bid_price: i64,
    pub best_bid_qty: i64,
    pub best_ask_price: i64,
    pub best_ask_qty: i64,
    pub bid_price_2: i64,
    pub bid_qty_2: i64,
    pub bid_price_3: i64,
    pub bid_qty_3: i64,
    pub bid_price_4: i64,
    pub bid_qty_4: i64,
    pub bid_price_5: i64,
    pub bid_qty_5: i64,
    pub ask_price_2: i64,
    pub ask_qty_2: i64,
    pub ask_price_3: i64,
    pub ask_qty_3: i64,
    pub ask_price_4: i64,
    pub ask_qty_4: i64,
    pub ask_price_5: i64,
    pub ask_qty_5: i64,
    /// Wall-clock receive time supplied by the caller; diagnostic only.
    pub ts_recv_ns: i64,
    /// Wire code of the exchange the packet arrived on.
    pub exchange_type: i16,
    pub volume: i64,
    pub avg_traded_price: i64,
    pub total_buy_qty_bits: u64,
    pub total_sell_qty_bits: u64,
    pub open: i64,
    pub high: i64,
    pub low: i64,
    pub close: i64,
    pub last_trade_ts_ns: i64,
    pub open_interest: i64,
    pub oi_change_pct_raw: i64,
    pub upper_circuit: i64,
    pub lower_circuit: i64,
    pub week_52_high: i64,
    pub week_52_low: i64,
    pub best_bid_num_orders: i32,
    pub best_ask_num_orders: i32,
    pub bid_num_orders_2: i32,
    pub bid_num_orders_3: i32,
    pub bid_num_orders_4: i32,
    pub bid_num_orders_5: i32,
    pub ask_num_orders_2: i32,
    pub ask_num_orders_3: i32,
    pub ask_num_orders_4: i32,
    pub ask_num_orders_5: i32,
}

/// Milliseconds to nanoseconds fits an `i64`.
pub open spec fn ms_to_ns_fits(ms: i64) -> bool {
    i64::MIN <= ms * 1_000_000 <= i64::MAX
}

/// The one level of a ladder at `i`, or zeros where the ladder is shorter.
pub open spec fn ladder_level(v: Seq<DepthEntry>, i: int) -> (i64, i64, i32) {
    if 0 <= i < v.len() {
        (v[i].price, v[i].qty, v[i].num_orders as i32)
    } else {
        (0, 0, 0)
    }
}

/// The bid ladder of a packet (its `best_5_sell`), empty without SnapQuote data.
pub open spec fn bid_ladder(p: ParsedPacket) -> Seq<DepthEntry> {
    match p.snap {
        Some(s) => s.best_5_sell@,
        None => Seq::empty(),
    }
}

/// The ask ladder of a packet (its `best_5_buy`), empty without SnapQuote data.
pub open spec fn ask_ladder(p: ParsedPacket) -> Seq<DepthEntry> {
    match p.snap {
        Some(s) => s.best_5_buy@,
        None => Seq::empty(),
    }
}

/// The tick that `to_tick` produces from `p`, given the instrument id the
/// token parses to and the caller's receive time.
pub open spec fn spec_tick(p: ParsedPacket, inst_id: i32, ts_recv_ns: i64) -> Tick {
    let b = bid_ladder(p);
    let a = ask_ladder(p);
    Tick {
        ts_ns: (p.exchange_timestamp * 1_000_000) as i64,
        inst_id,
        side: 0,
        price: p.last_traded_price,
        qty: match p.quote { Some(q) => q.last_traded_qty, None => 0 },
        seq_no: p.sequence_number,
        best_bid_price: ladder_level(b, 0).0,
        best_bid_qty: ladder_level(b, 0).1,
        best_ask_price: ladder_level(a, 0).0,
        best_ask_qty: ladder_level(a, 0).1,
        bid_price_2: ladder_level(b, 1).0,
        bid_qty_2: ladder_level(b, 1).1,
        bid_price_3: ladder_level(b, 2).0,
        bid_qty_3: ladder_level(b, 2).1,
        bid_price_4: ladder_level(b, 3).0,
        bid_qty_4: ladder_level(b, 3).1,
        bid_price_5: ladder_level(b, 4).0,
        bid_qty_5: ladder_level(b, 4).1,
        ask_price_2: ladder_level(a, 1).0,
        ask_qty_2: ladder_level(a, 1).1,
        ask_price_3: ladder_level(a, 2).0,
        ask_qty_3: ladder_level(a, 2).1,
        ask_price_4: ladder_level(a, 3).0,
        ask_qty_4: ladder_level(a, 3).1,
        ask_price_5: ladder_level(a, 4).0,
        ask_qty_5: ladder_level(a, 4).1,
        ts_recv_ns,
        exchange_type: exchange_code(p.exchange) as i16,
        volume: match p.quote { Some(q) => q.volume, None => 0 },
        avg_traded_price: match p.quote { Some(q) => q.avg_traded_price, None => 0 },
        total_buy_qty_bits: match p.quote { Some(q) => q.total_buy_qty_bits, None => 0 },
        total_sell_qty_bits: match p.quote { Some(q) => q.total_sell_qty_bits, None => 0 },
        open: match p.quote { Some(q) => q.open, None => 0 },
        high: match p.quote { Some(q) => q.high, None => 0 },
        low: match p.quote { Some(q) => q.low, None => 0 },
        close: match p.quote { Some(q) => q.close, None => 0 },
        last_trade_ts_ns: match p.snap {
            Some(s) => (s.last_traded_timestamp * 1_000_000) as i64,
            None => 0,
        },
        open_interest: match p.snap { Some(s) => s.open_interest, None => 0 },
        oi_change_pct_raw: match p.snap { Some(s) => s.oi_change_pct, None => 0 },
        upper_circuit: match p.snap { Some(s) => s.upper_circuit, None => 0 },
        lower_circuit: match p.snap { Some(s) => s.lower_circuit, None => 0 },
        week_52_high: match p.snap { Some(s) => s.week_52_high, None => 0 },
        week_52_low: match p.snap { Some(s) => s.week_52_low, None => 0 },
        best_bid_num_orders: ladder_level(b, 0).2,
        best_ask_num_orders: ladder_level(a, 0).2,
        bid_num_orders_2: ladder_level(b, 1).2,
        bid_num_orders_3: ladder_level(b, 2).2,
        bid_num_orders_4: ladder_level(b, 3).2,
        bid_num_orders_5: ladder_level(b, 4).2,
        ask_num_orders_2: ladder_level(a, 1).2,
        ask_num_orders_3: ladder_level(a, 2).2,
        ask_num_orders_4: ladder_level(a, 3).2,
        ask_num_orders_5: ladder_level(a, 4).2,
    }
}

/// The level of `v` at `i`, or zeros where `v` is shorter.
fn level_at(v: &Vec<DepthEntry>, i: usize) -> (r: (i64, i64, i32))
    ensures
        r == ladder_level(v@, i as int),
{
    if i < v.len() {
        let e = v[i];
        (e.price, e.qty, e.num_orders as i32)
    } else {
        (0, 0, 0)
    }
}

impl ParsedPacket {
    /// Both millisecond timestamps of the packet convert to nanoseconds
    /// without leaving the `i64` range.
    pub open spec fn timestamps_fit(&self) -> bool {
        &&& ms_to_ns_fits(self.exchange_timestamp)
        &&& (self.snap matches Some(s) ==> ms_to_ns_fits(s.last_traded_timestamp))
    }

    /// Tests `timestamps_fit`; a caller checks it before `to_tick`.
    pub fn timestamps_in_range(&self) -> (b: bool)
        ensures
            b == self.timestamps_fit(),
    {
        let lim: i64 = i64::MAX / 1_000_000;
        let ok_exchange = -lim <= self.exchange_timestamp && self.exchange_timestamp <= lim;
        let ok_snap = match &self.snap {
            Some(s) => -lim <= s.last_traded_timestamp && s.last_traded_timestamp <= lim,
            None => true,
        };
        ok_exchange && ok_snap
    }

    /// Converts the packet into the normalised [`Tick`].
    ///
    /// The token is parsed as an `i32` instrument id (0 when it does not
    /// parse).  The depth ladders are mapped with the documented inversion:
    /// bids from `best_5_sell`, asks from `best_5_buy`.  `ts_recv_ns` is the
    /// caller's receive time, metadata only.
    pub fn to_tick(&self, ts_recv_ns: i64) -> (t: Tick)
        requires
            self.timestamps_fit(),
        ensures
            t == spec_tick(
                *self,
                match spec_parse_i32(self.token@) { Some(v) => v, None => 0 },
                ts_recv_ns,
            ),
    {
        let inst_id = match parse_i32(self.token.as_str()) {
            Some(v) => v,
            None => 0,
        };
        let empty: Vec<DepthEntry> = Vec::new();
        let (bids, asks) = match &self.snap {
            Some(s) => (&s.best_5_sell, &s.best_5_buy),
            None => (&empty, &empty),
        };
        assert(bids@ == bid_ladder(*self));
        assert(asks@ == ask_ladder(*self));
        let b0 = level_at(bids, 0);
        let b1 = level_at(bids, 1);
        let b2 = level_at(bids, 2);
        let b3 = level_at(bids, 3);
        let b4 = level_at(bids, 4);
        let a0 = level_at(asks, 0);
        let a1 = level_at(asks, 1);
        let a2 = level_at(asks, 2);
        let a3 = level_at(asks, 3);
        let a4 = level_at(asks, 4);
        let (qty, volume, avg, tbq, tsq, open, high, low, close) = match &self.quote {
            Some(q) => (
                q.last_traded_qty,
                q.volume,
                q.avg_traded_price,
                q.total_buy_qty_bits,
                q.total_sell_qty_bits,
                q.open,
                q.high,
                q.low,
                q.close,
            ),
            None => (0, 0, 0, 0, 0, 0, 0, 0, 0),
        };
        let (ltt, oi, oic, uc, lc, wh, wl) = match &self.snap {
            Some(s) => (
                s.last_traded_timestamp * 1_000_000,
                s.open_interest,
                s.oi_change_pct,
                s.upper_circuit,
                s.lower_circuit,
                s.week_52_high,
                s.week_52_low,
            ),
            None => (0, 0, 0, 0, 0, 0, 0),
        };
        Tick {
            ts_ns: self.exchange_timestamp * 1_000_000,
            inst_id,
            side: 0,
            price: self.last_traded_price,
            qty,
            seq_no: self.sequence_number,
            best_bid_price: b0.0,
            best_bid_qty: b0.1,
            best_ask_price: a0.0,
            best_ask_qty: a0.1,
            bid_price_2: b1.0,
            bid_qty_2: b1.1,
            bid_price_3: b2.0,
            bid_qty_3: b2.1,
            bid_price_4: b3.0,
            bid_qty_4: b3.1,
            bid_price_5: b4.0,
            bid_qty_5: b4.1,
            ask_price_2: a1.0,
            ask_qty_2: a1.1,
            ask_price_3: a2.0,
            ask_qty_3: a2.1,
            ask_price_4: a3.0,
            ask_qty_4: a3.1,
            ask_price_5: a4.0,
            ask_qty_5: a4.1,
            ts_recv_ns,
            exchange_type: self.exchange.code() as i16,
            volume,
            avg_traded_price: avg,
            total_buy_qty_bits: tbq,
            total_sell_qty_bits: tsq,
            open,
            high,
            low,
            close,
            last_trade_ts_ns: ltt,
            open_interest: oi,
            oi_change_pct_raw: oic,
            upper_circuit: uc,
            lower_circuit: lc,
            week_52_high: wh,
            week_52_low: wl,
            best_bid_num_orders: b0.2,
            best_ask_num_orders: a0.2,
            bid_num_orders_2: b1.2,
            bid_num_orders_3: b2.2,
            bid_num_orders_4: b3.2,
            bid_num_orders_5: b4.2,
            ask_num_orders_2: a1.2,
            ask_num_orders_3: a2.2,
            ask_num_orders_4: a3.2,
            ask_num_orders_5: a4.2,
        }
    }
}

/// `p` with quote `q`.
pub open spec fn with_quote(p: ParsedPacket, q: QuoteData) -> ParsedPacket {
    ParsedPacket { quote: Some(q), ..p }
}

/// `q` with cumulative volume `v`.
pub open spec fn with_volume(q: QuoteData, v: i64) -> QuoteData {
    QuoteData { volume: v, ..q }
}

/// `q` with last traded quantity `n`.
pub open spec fn with_last_qty(q: QuoteData, n: i64) -> QuoteData {
    QuoteData { last_traded_qty: n, ..q }
}

/// A tick's quantity is the last traded quantity of the packet's quote (0
/// without a quote), and its volume the quote's cumulative volume: the two
/// are separate fields, so changing the volume of a packet leaves the
/// tick's quantity unchanged and changing the last traded quantity leaves
/// its volume unchanged.
pub proof fn law_tick_quantity_and_volume(p: ParsedPacket, q: QuoteData, inst_id: i32, ts: i64)
    ensures
        p.quote matches Some(x) ==> spec_tick(p, inst_id, ts).qty == x.last_traded_qty
            && spec_tick(p, inst_id, ts).volume == x.volume,
        p.quote is None ==> spec_tick(p, inst_id, ts).qty == 0 && spec_tick(p, inst_id, ts).volume == 0,
        p.quote matches Some(x) ==> spec_tick(with_quote(p, with_volume(x, q.volume)), inst_id, ts).qty
            == spec_tick(p, inst_id, ts).qty,
        p.quote matches Some(x) ==> spec_tick(
            with_quote(p, with_last_qty(x, q.last_traded_qty)),
            inst_id,
            ts,
        ).volume == spec_tick(p, inst_id, ts).volume,
{
}

} // verus!

//! Decoder for the Angel One SmartAPI WebSocket v2 binary packets.
//!
//! Packets are little-endian:
//!
//! | Offset | Size | Field                          |
//! |--------|------|--------------------------------|
//! | 0      | 1    | subscription mode              |
//! | 1      | 1    | exchange type                  |
//! | 2      | 25   | token, NUL-terminated ASCII    |
//! | 27     | 8    | sequence number                |
//! | 35     | 8    | exchange timestamp (ms)        |
//! | 43     | 8    | last traded price (paise)      |
//! | 51     | 72   | Quote fields (modes 2 and 3)   |
//! | 123    | 256  | SnapQuote fields (mode 3)      |

use vstd::prelude::*;
use vstd::slice::slice_subrange;
use crate::le_bytes::{le_i64, le_u16, le_u64, read_i64_le, read_u16_le, read_u64_le};
use crate::schema::{
    DepthEntry, ExchangeType, ParsedPacket, QuoteData, SnapQuoteData, SubscriptionMode,
    exchange_from_code, mode_from_code,
};

verus! {

/// Why a frame could not be decoded.
#[derive(Debug, Clone, PartialEq, Eq)]
pub enum ParseError {
    /// Shorter than the fixed header.
    TooShort { expected: usize, actual: usize },
    /// The mode byte names no subscription mode.
    UnknownMode(u8),
    /// The exchange byte names no exchange.
    UnknownExchange(u8),
}

/// Fixed header length: mode, exchange, token, sequence, timestamp, price.
pub const MIN_PACKET_LEN: usize = 51;

/// Quote mode extends the packet to this length.
pub const QUOTE_PACKET_LEN: usize = 123;

/// SnapQuote mode extends the packet to this length.
pub const SNAP_QUOTE_PACKET_LEN: usize = 379;

/// Name for the text that `String::from_utf8_lossy` makes of `bytes`.
pub uninterp spec fn utf8_lossy(bytes: Seq<u8>) -> Seq<char>;

/// Each byte read as the character with that code.
pub open spec fn ascii_chars(bytes: Seq<u8>) -> Seq<char> {
    bytes.map_values(|b: u8| b as char)
}

/// `String::from_utf8_lossy`: the text of `bytes` with each invalid UTF-8
/// sequence replaced by U+FFFD.  Stated here: the result is a function of
/// the bytes, and bytes that are all ASCII (itself valid UTF-8) come back
/// one character per byte.  What it makes of other bytes is left to the name.
#[verifier::external_body]
fn from_utf8_lossy(bytes: &[u8]) -> (s: String)
    ensures
        s@ == utf8_lossy(bytes@),
        (forall|i: int| 0 <= i < bytes@.len() ==> bytes@[i] < 128) ==> s@ == ascii_chars(bytes@),
{
    String::from_utf8_lossy(bytes).into_owned()
}

/// Index of the first NUL byte of `b`, or its length when there is none.
pub open spec fn nul_end(b: Seq<u8>) -> int
    decreases b.len(),
{
    if b.len() == 0 {
        0
    } else if b[0] == 0 {
        0
    } else {
        1 + nul_end(b.drop_first())
    }
}

proof fn lemma_nul_end(b: Seq<u8>, i: int)
    requires
        0 <= i <= b.len(),
        forall|j: int| 0 <= j < i ==> b[j] != 0,
        i == b.len() || b[i] == 0,
    ensures
        nul_end(b) == i,
    decreases i,
{
    if i > 0 {
        let t = b.drop_first();
        assert forall|j: int| 0 <= j < i - 1 implies t[j] != 0 by {
            assert(t[j] == b[j + 1]);
        }
        lemma_nul_end(t, i - 1);
    }
}

/// The token text of a token field: the bytes before the first NUL, decoded.
pub open spec fn token_text(buf: Seq<u8>) -> Seq<char> {
    utf8_lossy(buf.take(nul_end(buf)))
}

/// Decodes the NUL-terminated token field into a string.
pub fn parse_token(buf: &[u8]) -> (s: String)
    ensures
        s@ == token_text(buf@),
        (forall|i: int| 0 <= i < buf@.len() ==> buf@[i] < 128)
            ==> s@ == ascii_chars(buf@.take(nul_end(buf@))),
{
    let n = buf.len();
    let mut end: usize = 0;
    while end < n && buf[end] != 0
        invariant
            end <= n,
            n == buf@.len(),
            forall|j: int| 0 <= j < end ==> buf@[j] != 0,
        decreases n - end,
    {
        end = end + 1;
    }
    proof {
        lemma_nul_end(buf@, end as int);
    }
    let head = slice_subrange(buf, 0, end);
    assert(head@ =~= buf@.take(end as int));
    from_utf8_lossy(head)
}

/// The depth record of `data` that starts at byte `20 * k`: flag (u16),
/// quantity (i64), price (i64), order count (u16).
pub open spec fn depth_record(data: Seq<u8>, k: int) -> DepthEntry {
    DepthEntry {
        flag: le_u16(data, 20 * k) as u16,
        qty: le_i64(data, 20 * k + 2) as i64,
        price: le_i64(data, 20 * k + 10) as i64,
        num_orders: le_u16(data, 20 * k + 18) as u16,
    }
}

/// The whole 20-byte depth records of `data`, in order.
pub open spec fn depth_records(data: Seq<u8>) -> Seq<DepthEntry> {
    Seq::new((data.len() / 20) as nat, |k: int| depth_record(data, k))
}

/// The entries of `s` whose flag is 0, in order.
pub open spec fn flagged_buy(s: Seq<DepthEntry>) -> Seq<DepthEntry>
    decreases s.len(),
{
    if s.len() == 0 {
        Seq::empty()
    } else if s.last().flag == 0 {
        flagged_buy(s.drop_last()).push(s.last())
    } else {
        flagged_buy(s.drop_last())
    }
}

/// The entries of `s` whose flag is not 0, in order.
pub open spec fn flagged_sell(s: Seq<DepthEntry>) -> Seq<DepthEntry>
    decreases s.len(),
{
    if s.len() == 0 {
        Seq::empty()
    } else if s.last().flag != 0 {
        flagged_sell(s.drop_last()).push(s.last())
    } else {
        flagged_sell(s.drop_last())
    }
}

/// Splits the depth block into the flag-0 ("buy") and the other ("sell")
/// records, each in the order they appear.
pub fn parse_best_5(data: &[u8]) -> (r: (Vec<DepthEntry>, Vec<DepthEntry>))
    ensures
        r.0@ == flagged_buy(depth_records(data@)),
        r.1@ == flagged_sell(depth_records(data@)),
{
    let mut buys: Vec<DepthEntry> = Vec::with_capacity(5);
    let mut sells: Vec<DepthEntry> = Vec::with_capacity(5);
    let n = data.len();
    let count = n / 20;
    let ghost recs = depth_records(data@);
    let mut k: usize = 0;
    while k < count
        invariant
            k <= count,
            count == data@.len() / 20,
            n == data@.len(),
            recs == depth_records(data@),
            buys@ == flagged_buy(recs.take(k as int)),
            sells@ == flagged_sell(recs.take(k as int)),
        decreases count - k,
    {
        assert(20 * k + 20 <= data@.len()) by (nonlinear_arith)
            requires
                k < count,
                count == data@.len() / 20,
        ;
        let base = 20 * k;
        let entry = DepthEntry {
            flag: read_u16_le(data, base),
            qty: read_i64_le(data, base + 2),
            price: read_i64_le(data, base + 10),
            num_orders: read_u16_le(data, base + 18),
        };
        assert(entry == recs[k as int]);
        assert(recs.take(k + 1).drop_last() =~= recs.take(k as int));
        assert(recs.take(k + 1).last() == entry);
        if entry.flag == 0 {
            buys.push(entry);
        } else {
            sells.push(entry);
        }
        k = k + 1;
    }
    assert(recs.take(count as int) =~= recs);
    (buys, sells)
}

/// The Quote fields a frame carries.
pub open spec fn spec_quote(data: Seq<u8>) -> QuoteData {
    QuoteData {
        last_traded_qty: le_i64(data, 51) as i64,
        avg_traded_price: le_i64(data, 59) as i64,
        volume: le_i64(data, 67) as i64,
        total_buy_qty_bits: le_u64(data, 75) as u64,
        total_sell_qty_bits: le_u64(data, 83) as u64,
        open: le_i64(data, 91) as i64,
        high: le_i64(data, 99) as i64,
        low: le_i64(data, 107) as i64,
        close: le_i64(data, 115) as i64,
    }
}

/// The SnapQuote fields of a frame match `s`.
pub open spec fn snap_matches(s: SnapQuoteData, data: Seq<u8>) -> bool {
    &&& s.last_traded_timestamp == le_i64(data, 123)
    &&& s.open_interest == le_i64(data, 131)
    &&& s.oi_change_pct == le_i64(data, 139)
    &&& s.upper_circuit == le_i64(data, 347)
    &&& s.lower_circuit == le_i64(data, 355)
    &&& s.week_52_high == le_i64(data, 363)
    &&& s.week_52_low == le_i64(data, 371)
    &&& s.best_5_buy@ == flagged_buy(depth_records(data.subrange(147, 347)))
    &&& s.best_5_sell@ == flagged_sell(depth_records(data.subrange(147, 347)))
}

/// `p` is the packet that a frame of at least the fixed header length,
/// whose mode and exchange bytes are known, decodes to.
pub open spec fn packet_matches(p: ParsedPacket, data: Seq<u8>) -> bool {
    let mode = p.mode;
    &&& mode_from_code(data[0]) == Some(mode)
    &&& exchange_from_code(data[1]) == Some(p.exchange)
    &&& p.token@ == token_text(data.subrange(2, 27))
    &&& p.sequence_number == le_i64(data, 27)
    &&& p.exchange_timestamp == le_i64(data, 35)
    &&& p.last_traded_price == le_i64(data, 43)
    &&& (p.quote is Some <==> ((mode == SubscriptionMode::Quote || mode
        == SubscriptionMode::SnapQuote) && data.len() >= QUOTE_PACKET_LEN))
    &&& (p.quote matches Some(q) ==> q == spec_quote(data))
    &&& (p.snap is Some <==> (mode == SubscriptionMode::SnapQuote && data.len()
        >= SNAP_QUOTE_PACKET_LEN))
    &&& (p.snap matches Some(s) ==> snap_matches(s, data))
}

/// Decodes one binary WebSocket frame.
///
/// Fails with `TooShort` below the 51-byte header, then with `UnknownMode`
/// or `UnknownExchange` (in that order) for bytes that name nothing.
/// Quote fields are decoded for modes Quote and SnapQuote when the frame
/// reaches 123 bytes; SnapQuote fields for mode SnapQuote when it reaches
/// 379 bytes.
pub fn parse_binary_packet(data: &[u8]) -> (r: Result<ParsedPacket, ParseError>)
    ensures
        data@.len() < MIN_PACKET_LEN ==> r == Err::<ParsedPacket, ParseError>(
            ParseError::TooShort { expected: MIN_PACKET_LEN, actual: data@.len() as usize },
        ),
        data@.len() >= MIN_PACKET_LEN && mode_from_code(data@[0]) is None ==> r == Err::<
            ParsedPacket,
            ParseError,
        >(ParseError::UnknownMode(data@[0])),
        data@.len() >= MIN_PACKET_LEN && mode_from_code(data@[0]) is Some && exchange_from_code(
            data@[1],
        ) is None ==> r == Err::<ParsedPacket, ParseError>(ParseError::UnknownExchange(data@[1])),
        data@.len() >= MIN_PACKET_LEN && mode_from_code(data@[0]) is Some && exchange_from_code(
            data@[1],
        ) is Some ==> (r matches Ok(p) && packet_matches(p, data@)),
{
    if data.len() < MIN_PACKET_LEN {
        return Err(ParseError::TooShort { expected: MIN_PACKET_LEN, actual: data.len() });
    }
    let mode_raw = data[0];
    let exchange_raw = data[1];
    let mode = match SubscriptionMode::from_u8(mode_raw) {
        Some(m) => m,
        None => return Err(ParseError::UnknownMode(mode_raw)),
    };
    let exchange = match ExchangeType::from_u8(exchange_raw) {
        Some(e) => e,
        None => return Err(ParseError::UnknownExchange(exchange_raw)),
    };
    let token = parse_token(slice_subrange(data, 2, 27));
    let sequence_number = read_i64_le(data, 27);
    let exchange_timestamp = read_i64_le(data, 35);
    let last_traded_price = read_i64_le(data, 43);

    let quote_mode = matches!(mode, SubscriptionMode::Quote | SubscriptionMode::SnapQuote);
    let quote = if quote_mode && data.len() >= QUOTE_PACKET_LEN {
        Some(
            QuoteData {
                last_traded_qty: read_i64_le(data, 51),
                avg_traded_price: read_i64_le(data, 59),
                volume: read_i64_le(data, 67),
                total_buy_qty_bits: read_u64_le(data, 75),
                total_sell_qty_bits: read_u64_le(data, 83),
                open: read_i64_le(data, 91),
                high: read_i64_le(data, 99),
                low: read_i64_le(data, 107),
                close: read_i64_le(data, 115),
            },
        )
    } else {
        None
    };

    let snap_mode = matches!(mode, SubscriptionMode::SnapQuote);
    let snap = if snap_mode && data.len() >= SNAP_QUOTE_PACKET_LEN {
        let best_5 = parse_best_5(slice_subrange(data, 147, 347));
        Some(
            SnapQuoteData {
                last_traded_timestamp: read_i64_le(data, 123),
                open_interest: read_i64_le(data, 131),
                oi_change_pct: read_i64_le(data, 139),
                upper_circuit: read_i64_le(data, 347),
                lower_circuit: read_i64_le(data, 355),
                week_52_high: read_i64_le(data, 363),
                week_52_low: read_i64_le(data, 371),
                best_5_buy: best_5.0,
                best_5_sell: best_5.1,
            },
        )
    } else {
        None
    };

    Ok(
        ParsedPacket {
            mode,
            exchange,
            token,
            sequence_number,
            exchange_timestamp,
            last_traded_price,
            quote,
            snap,
        },
    )
}

} // verus!

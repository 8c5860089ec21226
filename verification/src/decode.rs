//! SnapQuote packets to top-of-book quotes and order-book snapshots.
//!
//! Prices stay raw paise with precision 2 (raw 24550 is ₹245.50); sizes are
//! raw with precision 0.  A snapshot is one `Clear` followed by one `Add`
//! per usable level; the last delta carries `F_LAST | F_SNAPSHOT | F_MBP`.

use vstd::prelude::*;
use crate::orders::OrderSide;
use crate::schema::{DepthEntry, ParsedPacket};

verus! {

/// Decoding errors of the adapter.
#[derive(Debug, Clone, PartialEq, Eq)]
pub enum DecodeError {
    TooShort { expected: usize, actual: usize },
    NoDepthData { mode: u8 },
    NoBidLevels { inst_id: u32 },
    NoAskLevels { inst_id: u32 },
}

/// Record flag: last delta of an event.
pub const F_LAST: u8 = 128;

/// Record flag: part of a snapshot.
pub const F_SNAPSHOT: u8 = 32;

/// Record flag: market-by-price book.
pub const F_MBP: u8 = 16;

/// Top of book of one packet.
#[derive(Debug, Clone, Copy, PartialEq, Eq)]
pub struct QuoteTop {
    /// Best bid in raw paise (precision 2).
    pub bid_price_raw: i64,
    /// Best ask in raw paise (precision 2).
    pub ask_price_raw: i64,
    /// Best bid size (precision 0).
    pub bid_size_raw: u64,
    /// Best ask size (precision 0).
    pub ask_size_raw: u64,
    /// Exchange time in nanoseconds.
    pub ts_event_ns: u64,
    /// Time the caller initialised the record.
    pub ts_init_ns: u64,
}

/// One order-book delta.
#[derive(Debug, Clone, Copy, PartialEq, Eq)]
pub enum BookDelta {
    /// Wipe the book before a full snapshot.
    Clear { sequence: u64, ts_event_ns: u64, ts_init_ns: u64 },
    /// Add one aggregated price level.
    Add {
        side: OrderSide,
        price_raw: i64,
        size_raw: u64,
        order_id: u64,
        flags: u8,
        sequence: u64,
        ts_event_ns: u64,
        ts_init_ns: u64,
    },
}

/// Exchange milliseconds as event nanoseconds, as `ms as u64 * 1_000_000`.
pub open spec fn event_ns(ms: i64) -> int {
    (ms as u64) as int * 1_000_000
}

/// The event time of `p` fits a `u64`.
pub open spec fn event_time_fits(p: ParsedPacket) -> bool {
    event_ns(p.exchange_timestamp) <= u64::MAX
}

/// What `packet_to_quote_tick` yields: `None` without SnapQuote data, with
/// an empty side, or when both best prices are 0; otherwise the best bid
/// from `best_5_sell[0]` and the best ask from `best_5_buy[0]`.
pub open spec fn spec_quote_top(p: ParsedPacket, ts_init_ns: u64) -> Option<QuoteTop> {
    match p.snap {
        None => None,
        Some(s) => if s.best_5_sell@.len() == 0 || s.best_5_buy@.len() == 0 {
            None
        } else {
            let bid = s.best_5_sell@[0];
            let ask = s.best_5_buy@[0];
            if bid.price == 0 && ask.price == 0 {
                None
            } else {
                Some(
                    QuoteTop {
                        bid_price_raw: bid.price,
                        ask_price_raw: ask.price,
                        bid_size_raw: bid.qty as u64,
                        ask_size_raw: ask.qty as u64,
                        ts_event_ns: event_ns(p.exchange_timestamp) as u64,
                        ts_init_ns,
                    },
                )
            }
        },
    }
}

/// The event time is needed exactly when a quote is produced.
pub open spec fn quote_needs_event_time(p: ParsedPacket) -> bool {
    spec_quote_top(p, 0) is Some
}

/// Top of book of a packet.  The broker's flag names are inverted relative
/// to the book: `best_5_sell[0]` is the best bid and `best_5_buy[0]` the
/// best ask.  Never fails.
pub fn packet_to_quote_tick(packet: &ParsedPacket, ts_init_ns: u64) -> (r: Result<
    Option<QuoteTop>,
    DecodeError,
>)
    requires
        quote_needs_event_time(*packet) ==> event_time_fits(*packet),
    ensures
        r == Ok::<Option<QuoteTop>, DecodeError>(spec_quote_top(*packet, ts_init_ns)),
{
    let snap = match &packet.snap {
        Some(s) => s,
        None => return Ok(None),
    };
    if snap.best_5_sell.len() == 0 || snap.best_5_buy.len() == 0 {
        return Ok(None);
    }
    let bid = snap.best_5_sell[0];
    let ask = snap.best_5_buy[0];
    if bid.price == 0 && ask.price == 0 {
        return Ok(None);
    }
    let ts_event_ns = (packet.exchange_timestamp as u64) * 1_000_000;
    Ok(
        Some(
            QuoteTop {
                bid_price_raw: bid.price,
                ask_price_raw: ask.price,
                bid_size_raw: bid.qty as u64,
                ask_size_raw: ask.qty as u64,
                ts_event_ns,
                ts_init_ns,
            },
        ),
    )
}

/// Flags of a snapshot delta: `F_SNAPSHOT | F_MBP`, plus `F_LAST` on the last.
pub open spec fn spec_snapshot_flags(is_last: bool) -> u8 {
    if is_last {
        (F_LAST + F_SNAPSHOT + F_MBP) as u8
    } else {
        (F_SNAPSHOT + F_MBP) as u8
    }
}

/// Builds the flags byte of a snapshot delta.
pub fn snapshot_flags(is_last: bool) -> (flags: u8)
    ensures
        flags == spec_snapshot_flags(is_last),
{
    let mut flags = F_SNAPSHOT | F_MBP;
    assert(F_SNAPSHOT | F_MBP == 48u8) by (bit_vector);
    if is_last {
        assert(48u8 | F_LAST == 176u8) by (bit_vector);
        flags = flags | F_LAST;
    }
    flags
}

/// A level is usable when both its price and quantity are positive.
pub open spec fn is_usable(e: DepthEntry) -> bool {
    e.price > 0 && e.qty > 0
}

/// The usable levels of `s`, in order.
pub open spec fn usable_levels(s: Seq<DepthEntry>) -> Seq<DepthEntry>
    decreases s.len(),
{
    if s.len() == 0 {
        Seq::empty()
    } else if is_usable(s.last()) {
        usable_levels(s.drop_last()).push(s.last())
    } else {
        usable_levels(s.drop_last())
    }
}

/// The `Add` delta of one level.
pub open spec fn add_delta(
    side: OrderSide,
    e: DepthEntry,
    order_id: int,
    is_last: bool,
    sequence: u64,
    ts_event_ns: u64,
    ts_init_ns: u64,
) -> BookDelta {
    BookDelta::Add {
        side,
        price_raw: e.price,
        size_raw: e.qty as u64,
        order_id: order_id as u64,
        flags: spec_snapshot_flags(is_last),
        sequence,
        ts_event_ns,
        ts_init_ns,
    }
}

/// The bid-side adds: usable bid levels (`best_5_sell`), ids from 0, the last one final
/// only when there are no ask levels.
pub open spec fn bid_adds(
    bids: Seq<DepthEntry>,
    asks_len: int,
    sequence: u64,
    ts_event_ns: u64,
    ts_init_ns: u64,
) -> Seq<BookDelta> {
    Seq::new(
        bids.len(),
        |i: int|
            add_delta(
                OrderSide::Buy,
                bids[i],
                i,
                asks_len == 0 && i == bids.len() - 1,
                sequence,
                ts_event_ns,
                ts_init_ns,
            ),
    )
}

/// The ask-side adds: usable ask levels (`best_5_buy`), ids after the bids, the last one final.
pub open spec fn ask_adds(
    asks: Seq<DepthEntry>,
    bids_len: int,
    sequence: u64,
    ts_event_ns: u64,
    ts_init_ns: u64,
) -> Seq<BookDelta> {
    Seq::new(
        asks.len(),
        |i: int|
            add_delta(
                OrderSide::Sell,
                asks[i],
                bids_len + i,
                i == asks.len() - 1,
                sequence,
                ts_event_ns,
                ts_init_ns,
            ),
    )
}

/// What `packet_to_order_book_deltas` yields: `None` without SnapQuote data
/// or without any usable level; otherwise a `Clear`, then one `Add` per
/// usable bid level, then one per usable ask level.  As for quotes, the
/// broker's flag names are inverted: the bids (side Buy) are the
/// `best_5_sell` levels and the asks (side Sell) the `best_5_buy` levels.
pub open spec fn spec_book_deltas(p: ParsedPacket, ts_init_ns: u64) -> Option<Seq<BookDelta>> {
    match p.snap {
        None => None,
        Some(s) => {
            let bids = usable_levels(s.best_5_sell@);
            let asks = usable_levels(s.best_5_buy@);
            let sequence = p.sequence_number as u64;
            let ts_event = event_ns(p.exchange_timestamp) as u64;
            if bids.len() + asks.len() == 0 {
                None
            } else {
                Some(
                    seq![BookDelta::Clear { sequence, ts_event_ns: ts_event, ts_init_ns }] + bid_adds(
                        bids,
                        asks.len() as int,
                        sequence,
                        ts_event,
                        ts_init_ns,
                    ) + ask_adds(asks, bids.len() as int, sequence, ts_event, ts_init_ns),
                )
            }
        },
    }
}

/// The usable levels of `v`.
fn collect_usable(v: &Vec<DepthEntry>) -> (r: Vec<DepthEntry>)
    ensures
        r@ == usable_levels(v@),
        r@.len() <= v@.len(),
{
    let mut out: Vec<DepthEntry> = Vec::new();
    let n = v.len();
    let mut i: usize = 0;
    while i < n
        invariant
            i <= n,
            n == v@.len(),
            out@ == usable_levels(v@.take(i as int)),
            out@.len() <= i,
        decreases n - i,
    {
        let e = v[i];
        assert(v@.take(i + 1).drop_last() =~= v@.take(i as int));
        assert(v@.take(i + 1).last() == e);
        if e.price > 0 && e.qty > 0 {
            out.push(e);
        }
        i = i + 1;
    }
    assert(v@.take(n as int) =~= v@);
    out
}

/// Converts a SnapQuote packet into an order-book snapshot and records its
/// sequence number in `last_seq_no` (a gap in the sequence is allowed: a
/// snapshot is complete on its own).  Never fails.
pub fn packet_to_order_book_deltas(
    packet: &ParsedPacket,
    last_seq_no: &mut i64,
    ts_init_ns: u64,
) -> (r: Result<Option<Vec<BookDelta>>, DecodeError>)
    requires
        packet.snap is Some ==> event_time_fits(*packet),
        packet.snap matches Some(s) ==> s.best_5_buy@.len() + s.best_5_sell@.len() < usize::MAX,
    ensures
        r matches Ok(o) && match (o, spec_book_deltas(*packet, ts_init_ns)) {
            (None, None) => true,
            (Some(v), Some(s)) => v@ == s,
            _ => false,
        },
        *final(last_seq_no) == if packet.snap is Some {
            packet.sequence_number
        } else {
            *old(last_seq_no)
        },
{
    let snap = match &packet.snap {
        Some(s) => s,
        None => return Ok(None),
    };
    let sequence = packet.sequence_number as u64;
    let ts_event_ns = (packet.exchange_timestamp as u64) * 1_000_000;
    *last_seq_no = packet.sequence_number;

    let bids = collect_usable(&snap.best_5_sell);
    let asks = collect_usable(&snap.best_5_buy);
    let nb = bids.len();
    let na = asks.len();
    if nb == 0 && na == 0 {
        return Ok(None);
    }
    let ghost clear = BookDelta::Clear { sequence, ts_event_ns, ts_init_ns };
    let ghost bid_part = bid_adds(bids@, na as int, sequence, ts_event_ns, ts_init_ns);
    let ghost ask_part = ask_adds(asks@, nb as int, sequence, ts_event_ns, ts_init_ns);
    let mut deltas: Vec<BookDelta> = Vec::with_capacity(11);
    deltas.push(BookDelta::Clear { sequence, ts_event_ns, ts_init_ns });
    let mut i: usize = 0;
    while i < nb
        invariant
            i <= nb,
            nb == bids@.len(),
            na == asks@.len(),
            bid_part == bid_adds(bids@, na as int, sequence, ts_event_ns, ts_init_ns),
            deltas@ == seq![clear] + bid_part.take(i as int),
        decreases nb - i,
    {
        let e = bids[i];
        let is_last = na == 0 && i == nb - 1;
        let flags = snapshot_flags(is_last);
        deltas.push(
            BookDelta::Add {
                side: OrderSide::Buy,
                price_raw: e.price,
                size_raw: e.qty as u64,
                order_id: i as u64,
                flags,
                sequence,
                ts_event_ns,
                ts_init_ns,
            },
        );
        assert(bid_part.take(i + 1) =~= bid_part.take(i as int).push(bid_part[i as int]));
        i = i + 1;
    }
    assert(bid_part.take(nb as int) =~= bid_part);
    let mut j: usize = 0;
    while j < na
        invariant
            j <= na,
            nb == bids@.len(),
            na == asks@.len(),
            nb + na < usize::MAX,
            ask_part == ask_adds(asks@, nb as int, sequence, ts_event_ns, ts_init_ns),
            deltas@ == seq![clear] + bid_part + ask_part.take(j as int),
        decreases na - j,
    {
        let e = asks[j];
        let is_last = j == na - 1;
        let flags = snapshot_flags(is_last);
        deltas.push(
            BookDelta::Add {
                side: OrderSide::Sell,
                price_raw: e.price,
                size_raw: e.qty as u64,
                order_id: (nb + j) as u64,
                flags,
                sequence,
                ts_event_ns,
                ts_init_ns,
            },
        );
        assert(ask_part.take(j + 1) =~= ask_part.take(j as int).push(ask_part[j as int]));
        j = j + 1;
    }
    assert(ask_part.take(na as int) =~= ask_part);
    Ok(Some(deltas))
}

/// Shape of every snapshot: a single leading `Clear`, then `Add`s whose
/// order ids count up from 0, all flagged snapshot and market-by-price, and
/// `F_LAST` on the final delta only.  Its length is one more than the
/// number of usable levels on both sides.
pub proof fn law_snapshot_shape(p: ParsedPacket, ts_init_ns: u64)
    requires
        spec_book_deltas(p, ts_init_ns) is Some,
    ensures
        ({
            let d = spec_book_deltas(p, ts_init_ns)->0;
            let s = p.snap->0;
            &&& d.len() == 1 + usable_levels(s.best_5_sell@).len() + usable_levels(s.best_5_buy@).len()
            &&& d[0] is Clear
            &&& forall|k: int| 1 <= k < d.len() ==> (#[trigger] d[k] matches BookDelta::Add {
                order_id,
                flags,
                ..
            } && order_id == (k - 1) as u64 && (flags == (if k == d.len() - 1 {
                176u8
            } else {
                48u8
            })))
        }),
{
    let d = spec_book_deltas(p, ts_init_ns)->0;
    let s = p.snap->0;
    let bids = usable_levels(s.best_5_sell@);
    let asks = usable_levels(s.best_5_buy@);
    assert forall|k: int| 1 <= k < d.len() implies (#[trigger] d[k] matches BookDelta::Add {
        order_id,
        flags,
        ..
    } && order_id == (k - 1) as u64 && (flags == (if k == d.len() - 1 {
        176u8
    } else {
        48u8
    }))) by {
        if k <= bids.len() {
            assert(d[k] == bid_adds(
                bids,
                asks.len() as int,
                p.sequence_number as u64,
                event_ns(p.exchange_timestamp) as u64,
                ts_init_ns,
            )[k - 1]);
        } else {
            assert(d[k] == ask_adds(
                asks,
                bids.len() as int,
                p.sequence_number as u64,
                event_ns(p.exchange_timestamp) as u64,
                ts_init_ns,
            )[k - 1 - bids.len()]);
        }
    }
}

/// Every level becomes the delta of its own price and quantity: in a
/// snapshot, the `k`-th bid delta (after the `Clear`) is a Buy at the price
/// of the `k`-th usable bid level with that level's quantity as its size,
/// and the asks follow as Sells in the same way; order counts never enter.
pub proof fn law_snapshot_levels(p: ParsedPacket, ts_init_ns: u64)
    requires
        spec_book_deltas(p, ts_init_ns) is Some,
    ensures
        ({
            let d = spec_book_deltas(p, ts_init_ns)->0;
            let s = p.snap->0;
            let bids = usable_levels(s.best_5_sell@);
            let asks = usable_levels(s.best_5_buy@);
            &&& forall|k: int|
                0 <= k < bids.len() ==> (#[trigger] d[k + 1] matches BookDelta::Add {
                    side,
                    price_raw,
                    size_raw,
                    ..
                } && side == OrderSide::Buy && price_raw == bids[k].price && size_raw
                    == bids[k].qty as u64)
            &&& forall|k: int|
                0 <= k < asks.len() ==> (#[trigger] d[k + 1 + bids.len()] matches BookDelta::Add {
                    side,
                    price_raw,
                    size_raw,
                    ..
                } && side == OrderSide::Sell && price_raw == asks[k].price && size_raw
                    == asks[k].qty as u64)
        }),
{
    let d = spec_book_deltas(p, ts_init_ns)->0;
    let s = p.snap->0;
    let bids = usable_levels(s.best_5_sell@);
    let asks = usable_levels(s.best_5_buy@);
    let seqn = p.sequence_number as u64;
    let tev = event_ns(p.exchange_timestamp) as u64;
    assert forall|k: int| 0 <= k < bids.len() implies (#[trigger] d[k + 1] matches BookDelta::Add {
        side,
        price_raw,
        size_raw,
        ..
    } && side == OrderSide::Buy && price_raw == bids[k].price && size_raw == bids[k].qty as u64) by {
        assert(d[k + 1] == bid_adds(bids, asks.len() as int, seqn, tev, ts_init_ns)[k]);
    }
    assert forall|k: int| 0 <= k < asks.len() implies (#[trigger] d[k + 1 + bids.len()] matches BookDelta::Add {
        side,
        price_raw,
        size_raw,
        ..
    } && side == OrderSide::Sell && price_raw == asks[k].price && size_raw == asks[k].qty as u64) by {
        assert(d[k + 1 + bids.len()] == ask_adds(asks, bids.len() as int, seqn, tev, ts_init_ns)[k]);
    }
}

} // verus!

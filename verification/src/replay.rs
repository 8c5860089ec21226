//! Replaying recorded ticks: which day directory a date names, which token
//! a recorded file holds, and how the alternating one-sided depth of the
//! recording is filled forward into two-sided quotes.

use vstd::prelude::*;
use crate::decimal::{parse_u32, spec_parse_u32};

verus! {

/// One recorded row: best bid and ask in paise with their sizes; a price of
/// 0 means the packet had no level on that side.
#[derive(Debug, Clone, Copy, PartialEq, Eq)]
pub struct RecordedRow {
    pub ts_ns: i64,
    pub bid_price: i64,
    pub bid_qty: i64,
    pub ask_price: i64,
    pub ask_qty: i64,
}

/// A two-sided quote for the replay engine.
#[derive(Debug, Clone, Copy, PartialEq, Eq)]
pub struct ReplayQuote {
    pub ts_ns: i64,
    pub bid_price: i64,
    pub bid_qty: i64,
    pub ask_price: i64,
    pub ask_qty: i64,
}

/// The last level seen on each side (price 0: never seen).
#[derive(Debug, Clone, Copy, PartialEq, Eq)]
pub struct QuoteFill {
    pub last_bid_price: i64,
    pub last_bid_qty: i64,
    pub last_ask_price: i64,
    pub last_ask_qty: i64,
}

/// `max(q, 1)`.
pub open spec fn at_least_one(q: i64) -> i64 {
    if q < 1 {
        1
    } else {
        q
    }
}

/// The fill state after `r`: a side with a positive price replaces that
/// side's last level (its size at least 1).
pub open spec fn spec_fill_state(s: QuoteFill, r: RecordedRow) -> QuoteFill {
    QuoteFill {
        last_bid_price: if r.bid_price > 0 { r.bid_price } else { s.last_bid_price },
        last_bid_qty: if r.bid_price > 0 { at_least_one(r.bid_qty) } else { s.last_bid_qty },
        last_ask_price: if r.ask_price > 0 { r.ask_price } else { s.last_ask_price },
        last_ask_qty: if r.ask_price > 0 { at_least_one(r.ask_qty) } else { s.last_ask_qty },
    }
}

/// The quote a fill state gives at `ts_ns`: none before either side has been
/// seen; a side never seen takes the other side's level (zero spread).
pub open spec fn spec_fill_quote(s: QuoteFill, ts_ns: i64) -> Option<ReplayQuote> {
    if s.last_bid_price <= 0 && s.last_ask_price <= 0 {
        None
    } else {
        let has_bid = s.last_bid_price > 0;
        let has_ask = s.last_ask_price > 0;
        Some(
            ReplayQuote {
                ts_ns,
                bid_price: if has_bid { s.last_bid_price } else { s.last_ask_price },
                bid_qty: if has_bid { s.last_bid_qty } else { s.last_ask_qty },
                ask_price: if has_ask { s.last_ask_price } else { s.last_bid_price },
                ask_qty: if has_ask { s.last_ask_qty } else { s.last_bid_qty },
            },
        )
    }
}

impl QuoteFill {
    /// No side seen yet; sizes start at 1.
    pub fn new() -> (s: Self)
        ensures
            s == (QuoteFill { last_bid_price: 0, last_bid_qty: 1, last_ask_price: 0, last_ask_qty: 1 }),
    {
        QuoteFill { last_bid_price: 0, last_bid_qty: 1, last_ask_price: 0, last_ask_qty: 1 }
    }

    /// Takes in one recorded row and gives the quote to replay for it, if any.
    pub fn on_row(&mut self, r: RecordedRow) -> (q: Option<ReplayQuote>)
        ensures
            *final(self) == spec_fill_state(*old(self), r),
            q == spec_fill_quote(*final(self), r.ts_ns),
    {
        if r.bid_price > 0 {
            self.last_bid_price = r.bid_price;
            self.last_bid_qty = if r.bid_qty < 1 { 1 } else { r.bid_qty };
        }
        if r.ask_price > 0 {
            self.last_ask_price = r.ask_price;
            self.last_ask_qty = if r.ask_qty < 1 { 1 } else { r.ask_qty };
        }
        if self.last_bid_price <= 0 && self.last_ask_price <= 0 {
            return None;
        }
        let has_bid = self.last_bid_price > 0;
        let has_ask = self.last_ask_price > 0;
        Some(
            ReplayQuote {
                ts_ns: r.ts_ns,
                bid_price: if has_bid { self.last_bid_price } else { self.last_ask_price },
                bid_qty: if has_bid { self.last_bid_qty } else { self.last_ask_qty },
                ask_price: if has_ask { self.last_ask_price } else { self.last_bid_price },
                ask_qty: if has_ask { self.last_ask_qty } else { self.last_bid_qty },
            },
        )
    }
}

/// Every replayed quote is two-sided and uncrossed by construction of its
/// sides: once a side has been seen, both prices are positive, and sizes are
/// never below 1 when they start at 1.
pub proof fn law_fill_quotes_two_sided(s: QuoteFill, r: RecordedRow)
    requires
        s.last_bid_qty >= 1,
        s.last_ask_qty >= 1,
    ensures
        spec_fill_state(s, r).last_bid_qty >= 1,
        spec_fill_state(s, r).last_ask_qty >= 1,
        spec_fill_quote(spec_fill_state(s, r), r.ts_ns) matches Some(q) ==> q.bid_price > 0
            && q.ask_price > 0 && q.bid_qty >= 1 && q.ask_qty >= 1,
        (r.bid_price > 0 || r.ask_price > 0) ==> spec_fill_quote(spec_fill_state(s, r), r.ts_ns) is Some,
{
}

/// The text before the first occurrence of `sep`, or all of it.
pub open spec fn before_first(s: Seq<char>, sep: char) -> Seq<char>
    decreases s.len(),
{
    if s.len() == 0 {
        s
    } else if s[0] == sep {
        Seq::empty()
    } else {
        seq![s[0]] + before_first(s.drop_first(), sep)
    }
}

/// The token a recorded file's stem names: the part before the first `_`
/// (`{token}_{flush_millis}`, or `{token}` alone), read as a `u32`.
pub open spec fn spec_token_of_stem(stem: Seq<char>) -> Option<u32> {
    spec_parse_u32(before_first(stem, '_'))
}

/// Reads the token a recorded file's stem names; `None` when that part is
/// not a `u32`.
pub fn token_of_stem(stem: &str) -> (t: Option<u32>)
    ensures
        t == spec_token_of_stem(stem@),
{
    let n = stem.unicode_len();
    let mut i: usize = 0;
    while i < n && stem.get_char(i) != '_'
        invariant
            i <= n,
            n == stem@.len(),
            forall|j: int| 0 <= j < i ==> stem@[j] != '_',
        decreases n - i,
    {
        i = i + 1;
    }
    proof {
        lemma_before_first(stem@, '_', i as int);
    }
    let head = stem.substring_char(0, i);
    parse_u32(head)
}

proof fn lemma_before_first(s: Seq<char>, sep: char, i: int)
    requires
        0 <= i <= s.len(),
        forall|j: int| 0 <= j < i ==> s[j] != sep,
        i == s.len() || s[i] == sep,
    ensures
        before_first(s, sep) == s.take(i),
    decreases i,
{
    if i == 0 {
        assert(s.take(0) =~= Seq::<char>::empty());
    } else {
        let t = s.drop_first();
        assert forall|j: int| 0 <= j < i - 1 implies t[j] != sep by {
            assert(t[j] == s[j + 1]);
        }
        lemma_before_first(t, sep, i - 1);
        assert(seq![s[0]] + t.take(i - 1) =~= s.take(i));
    }
}

/// The parts of a date text between `-` signs, e.g. `2026-05-10` to
/// `2026`, `05`, `10`; a date directory needs exactly three.
pub open spec fn spec_dash_parts(s: Seq<char>) -> Seq<Seq<char>>
    decreases s.len(),
{
    if s.len() == 0 {
        seq![Seq::empty()]
    } else {
        let rest = spec_dash_parts(s.drop_last());
        if s.last() == '-' {
            rest.push(Seq::empty())
        } else {
            rest.update(rest.len() - 1, rest.last().push(s.last()))
        }
    }
}

proof fn lemma_dash_parts_nonempty(s: Seq<char>)
    ensures
        spec_dash_parts(s).len() >= 1,
    decreases s.len(),
{
    if s.len() > 0 {
        lemma_dash_parts_nonempty(s.drop_last());
    }
}

/// The texts of a list of strings.
pub open spec fn texts_of(v: Seq<String>) -> Seq<Seq<char>> {
    v.map_values(|p: String| p@)
}

/// Splits a date text at every `-`, as `str::split('-')` does.
pub fn dash_parts(s: &str) -> (parts: Vec<String>)
    ensures
        texts_of(parts@) == spec_dash_parts(s@),
{
    let n = s.unicode_len();
    let mut parts: Vec<String> = Vec::new();
    let mut start: usize = 0;
    let mut i: usize = 0;
    assert(s@.take(0).len() == 0);
    assert(texts_of(parts@) =~= Seq::<Seq<char>>::empty());
    assert(s@.subrange(0, 0) =~= Seq::<char>::empty());
    assert(texts_of(parts@).push(s@.subrange(0, 0)) =~= spec_dash_parts(s@.take(0)));
    while i < n
        invariant
            n == s@.len(),
            start <= i <= n,
            texts_of(parts@).push(s@.subrange(start as int, i as int)) == spec_dash_parts(
                s@.take(i as int),
            ),
        decreases n - i,
    {
        let c = s.get_char(i);
        let ghost pre = s@.take(i as int);
        let ghost post = s@.take((i + 1) as int);
        let ghost rest = spec_dash_parts(pre);
        proof {
            assert(post.drop_last() =~= pre);
            assert(post.last() == c);
        }
        if c == '-' {
            let ghost before = texts_of(parts@);
            let ghost s0 = start;
            let part = String::from_str(s.substring_char(start, i));
            assert(part@ == s@.subrange(s0 as int, i as int));
            parts.push(part);
            start = i + 1;
            proof {
                assert(texts_of(parts@) =~= before.push(s@.subrange(s0 as int, i as int)));
                assert(s@.subrange(start as int, (i + 1) as int) =~= Seq::<char>::empty());
                assert(texts_of(parts@).push(s@.subrange(start as int, (i + 1) as int)) =~= rest.push(
                    Seq::<char>::empty(),
                ));
            }
        } else {
            proof {
                let before = texts_of(parts@);
                assert(s@.subrange(start as int, (i + 1) as int) =~= s@.subrange(start as int, i as int).push(c));
                assert(rest.last() == s@.subrange(start as int, i as int));
                assert(before.push(s@.subrange(start as int, (i + 1) as int)) =~= rest.update(
                    rest.len() - 1,
                    rest.last().push(c),
                ));
            }
        }
        i = i + 1;
    }
    let last = String::from_str(s.substring_char(start, n));
    parts.push(last);
    assert(s@.take(n as int) =~= s@);
    assert(s@.subrange(start as int, n as int) == s@.subrange(start as int, s@.len() as int));
    parts
}

/// The year, month and day directories a replay date names: the three
/// `-`-separated parts of `YYYY-MM-DD`; `None` when there are not exactly
/// three parts.
pub fn date_dir_parts(date: &str) -> (r: Option<(String, String, String)>)
    ensures
        match r {
            Some((y, m, d)) => spec_dash_parts(date@).len() == 3 && y@ == spec_dash_parts(date@)[0]
                && m@ == spec_dash_parts(date@)[1] && d@ == spec_dash_parts(date@)[2],
            None => spec_dash_parts(date@).len() != 3,
        },
{
    let mut parts = dash_parts(date);
    if parts.len() != 3 {
        return None;
    }
    let ghost v = texts_of(parts@);
    let d = parts.pop().unwrap();
    let m = parts.pop().unwrap();
    let y = parts.pop().unwrap();
    assert(v[2] == d@ && v[1] == m@ && v[0] == y@);
    Some((y, m, d))
}

} // verus!

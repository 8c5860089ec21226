//! The storage fan-out: which ticks are stored, how the cold sink buffers
//! them per instrument until a flush, where the flushed files go, and when
//! the hot sink flushes.  Writing Parquet files and talking to QuestDB are
//! done outside with what these functions decide.

use vstd::prelude::*;
use crate::schema::Tick;
use crate::text::{decimal_text, push_decimal, push_signed_decimal, signed_decimal_text};

verus! {

/// Rows buffered in the cold sink that force a flush.
pub const MAX_BUFFER_ROWS: usize = 500_000;

/// Minutes between two time-based flushes of the cold sink.
pub const FLUSH_INTERVAL_MINS: u64 = 60;

/// Rows buffered in the hot sink that force a flush.
pub const QUESTDB_FLUSH_THRESHOLD: u64 = 1_000;

/// Hot-sink write errors that are logged; later ones are only counted.
pub const LOGGED_QUESTDB_ERRORS: u64 = 5;

/// QuestDB address used when `QUESTDB_ILP_ADDR` is not set.
pub const DEFAULT_QUESTDB_ADDR: &'static str = "localhost:9000";

/// A tick whose quote is crossed by more than 5% of the ask: at the open
/// the broker sends the circuit limits in the depth fields, which would
/// look like such a quote.  Only ticks with a positive ask are judged.
pub open spec fn spec_crossed(t: Tick) -> bool {
    t.best_ask_price > 0 && 20 * abs_diff(t.best_bid_price as int, t.best_ask_price as int)
        > t.best_ask_price
}

/// `|a - b|`.
pub open spec fn abs_diff(a: int, b: int) -> int {
    if a >= b {
        a - b
    } else {
        b - a
    }
}

/// Whether the storage consumer drops `t`: its bid and ask are more than
/// 5% of the ask apart (`|bid - ask| / ask > 0.05`, in exact arithmetic on
/// paise).
pub fn is_crossed_quote(t: &Tick) -> (b: bool)
    ensures
        b == spec_crossed(*t),
{
    if t.best_ask_price <= 0 {
        return false;
    }
    let bid = t.best_bid_price as i128;
    let ask = t.best_ask_price as i128;
    let diff: i128 = if bid >= ask { bid - ask } else { ask - bid };
    20 * diff > ask
}

/// The buffered rows of instrument `id` in a list of groups.
pub open spec fn rows_in(g: Seq<(i32, Seq<Tick>)>, id: i32) -> Seq<Tick>
    decreases g.len(),
{
    if g.len() == 0 {
        Seq::empty()
    } else if g.last().0 == id {
        g.last().1
    } else {
        rows_in(g.drop_last(), id)
    }
}

/// No two groups have the same instrument.
pub open spec fn keys_distinct(g: Seq<(i32, Seq<Tick>)>) -> bool {
    forall|i: int, j: int| 0 <= i < j < g.len() ==> (#[trigger] g[i]).0 != (#[trigger] g[j]).0
}

/// The groups as instrument ids and row sequences.
pub open spec fn groups_view(g: Seq<(i32, Vec<Tick>)>) -> Seq<(i32, Seq<Tick>)> {
    g.map_values(|p: (i32, Vec<Tick>)| (p.0, p.1@))
}

/// Whether some group has instrument `id`.
pub open spec fn has_key(g: Seq<(i32, Seq<Tick>)>, id: i32) -> bool {
    exists|i: int| 0 <= i < g.len() && (#[trigger] g[i]).0 == id
}

proof fn lemma_rows_absent(g: Seq<(i32, Seq<Tick>)>, id: i32)
    requires
        !has_key(g, id),
    ensures
        rows_in(g, id) == Seq::<Tick>::empty(),
    decreases g.len(),
{
    if g.len() > 0 {
        let p = g.drop_last();
        assert(!has_key(p, id)) by {
            if has_key(p, id) {
                let i = choose|i: int| 0 <= i < p.len() && (#[trigger] p[i]).0 == id;
                assert(g[i] == p[i]);
            }
        }
        assert(g[g.len() - 1] == g.last());
        lemma_rows_absent(p, id);
    }
}

proof fn lemma_rows_update(g: Seq<(i32, Seq<Tick>)>, k: int, t: Tick, x: i32)
    requires
        keys_distinct(g),
        0 <= k < g.len(),
    ensures
        rows_in(g.update(k, (g[k].0, g[k].1.push(t))), x) == if x == g[k].0 {
            rows_in(g, x).push(t)
        } else {
            rows_in(g, x)
        },
        x == g[k].0 ==> rows_in(g, x) == g[k].1,
    decreases g.len(),
{
    let n = g.update(k, (g[k].0, g[k].1.push(t)));
    if k == g.len() - 1 {
        assert(n.drop_last() =~= g.drop_last());
        if x == g[k].0 {
        } else {
        }
    } else {
        let p = g.drop_last();
        assert(n.drop_last() =~= p.update(k, (p[k].0, p[k].1.push(t))));
        assert(keys_distinct(p)) by {
            assert forall|i: int, j: int| 0 <= i < j < p.len() implies (#[trigger] p[i]).0
                != (#[trigger] p[j]).0 by {
                assert(g[i] == p[i] && g[j] == p[j]);
            }
        }
        assert(g.last().0 != g[k].0) by {
            assert(g[g.len() - 1] == g.last());
        }
        lemma_rows_update(p, k, t, x);
    }
}

/// The cold sink's in-memory buffer: rows grouped per instrument in the
/// order instruments first appear, and the count of rows pushed since the
/// last completed flush.
pub struct TickBuffer {
    groups: Vec<(i32, Vec<Tick>)>,
    total_rows: usize,
}

impl TickBuffer {
    #[verifier::type_invariant]
    spec fn inv(self) -> bool {
        keys_distinct(groups_view(self.groups@))
    }

    /// The buffered rows of instrument `id`, oldest first.
    pub closed spec fn rows(&self, id: i32) -> Seq<Tick> {
        rows_in(groups_view(self.groups@), id)
    }

    /// Rows pushed since the last completed flush.
    pub closed spec fn total(&self) -> nat {
        self.total_rows as nat
    }

    /// An empty buffer.
    pub fn new() -> (b: Self)
        ensures
            forall|id: i32| #[trigger] b.rows(id) == Seq::<Tick>::empty(),
            b.total() == 0,
    {
        let b = TickBuffer { groups: Vec::new(), total_rows: 0 };
        assert forall|id: i32| #[trigger] b.rows(id) == Seq::<Tick>::empty() by {
            assert(groups_view(b.groups@).len() == 0);
        }
        b
    }

    /// Rows pushed since the last completed flush.
    pub fn total_rows(&self) -> (n: usize)
        ensures
            n == self.total(),
    {
        self.total_rows
    }

    /// Appends `t` to its instrument's rows; returns whether the buffer has
    /// reached 500,000 rows and must be flushed.
    pub fn push(&mut self, t: Tick) -> (flush_due: bool)
        requires
            old(self).total() < usize::MAX,
        ensures
            final(self).rows(t.inst_id) == old(self).rows(t.inst_id).push(t),
            forall|id: i32| id != t.inst_id ==> #[trigger] final(self).rows(id) == old(self).rows(id),
            final(self).total() == old(self).total() + 1,
            flush_due == (final(self).total() >= MAX_BUFFER_ROWS),
    {
        proof {
            use_type_invariant(&*self);
        }
        let ghost g0 = groups_view(self.groups@);
        let n = self.groups.len();
        let mut k: usize = 0;
        while k < n && self.groups[k].0 != t.inst_id
            invariant
                n == self.groups@.len(),
                k <= n,
                g0 == groups_view(self.groups@),
                forall|j: int| 0 <= j < k ==> (#[trigger] self.groups@[j]).0 != t.inst_id,
            decreases n - k,
        {
            k = k + 1;
        }
        assert(forall|j: int| 0 <= j < k ==> (#[trigger] g0[j]).0 != t.inst_id) by {
            assert forall|j: int| 0 <= j < k implies (#[trigger] g0[j]).0 != t.inst_id by {
                assert(g0[j].0 == self.groups@[j].0);
            }
        }
        let mut groups: Vec<(i32, Vec<Tick>)> = Vec::new();
        std::mem::swap(&mut groups, &mut self.groups);
        if k < n {
            let (id, mut rows) = groups.remove(k);
            rows.push(t);
            groups.insert(k, (id, rows));
            proof {
                assert(groups_view(groups@) =~= g0.update(k as int, (g0[k as int].0, g0[k as int].1.push(t))));
                assert forall|x: i32| #[trigger] rows_in(groups_view(groups@), x) == if x == t.inst_id {
                    rows_in(g0, x).push(t)
                } else {
                    rows_in(g0, x)
                } by {
                    lemma_rows_update(g0, k as int, t, x);
                }
                assert(keys_distinct(groups_view(groups@))) by {
                    let gv = groups_view(groups@);
                    assert forall|i: int, j: int| 0 <= i < j < gv.len() implies (#[trigger] gv[i]).0
                        != (#[trigger] gv[j]).0 by {
                        assert(gv[i].0 == g0[i].0 && gv[j].0 == g0[j].0);
                    }
                }
            }
        } else {
            let mut rows: Vec<Tick> = Vec::new();
            rows.push(t);
            groups.push((t.inst_id, rows));
            proof {
                let gv = groups_view(groups@);
                assert(gv =~= g0.push((t.inst_id, seq![t])));
                assert(!has_key(g0, t.inst_id)) by {
                    if has_key(g0, t.inst_id) {
                        let i = choose|i: int| 0 <= i < g0.len() && (#[trigger] g0[i]).0 == t.inst_id;
                    }
                }
                lemma_rows_absent(g0, t.inst_id);
                assert(gv.drop_last() =~= g0);
                assert(rows_in(gv, t.inst_id) =~= rows_in(g0, t.inst_id).push(t));
                assert(keys_distinct(gv)) by {
                    assert forall|i: int, j: int| 0 <= i < j < gv.len() implies (#[trigger] gv[i]).0
                        != (#[trigger] gv[j]).0 by {
                        if j == g0.len() {
                            assert(gv[i] == g0[i]);
                        } else {
                            assert(gv[i] == g0[i] && gv[j] == g0[j]);
                        }
                    }
                }
            }
        }
        self.groups = groups;
        self.total_rows = self.total_rows + 1;
        self.total_rows >= MAX_BUFFER_ROWS
    }

    /// Takes every buffered group out, in the order instruments first
    /// appeared; the row count stays until the flush completes.
    pub fn drain(&mut self) -> (g: Vec<(i32, Vec<Tick>)>)
        ensures
            forall|id: i32| #[trigger] rows_in(groups_view(g@), id) == old(self).rows(id),
            keys_distinct(groups_view(g@)),
            forall|id: i32| #[trigger] final(self).rows(id) == Seq::<Tick>::empty(),
            final(self).total() == old(self).total(),
    {
        proof {
            use_type_invariant(&*self);
        }
        let mut g: Vec<(i32, Vec<Tick>)> = Vec::new();
        std::mem::swap(&mut g, &mut self.groups);
        assert forall|id: i32| #[trigger] self.rows(id) == Seq::<Tick>::empty() by {
            assert(groups_view(self.groups@).len() == 0);
        }
        g
    }

    /// Records a completed flush: the row count starts over.
    pub fn mark_flushed(&mut self)
        ensures
            final(self).total() == 0,
            forall|id: i32| #[trigger] final(self).rows(id) == old(self).rows(id),
    {
        proof {
            use_type_invariant(&*self);
        }
        self.total_rows = 0;
    }
}

/// Whether a time-based flush is due `elapsed_secs` after the last one.
pub fn time_flush_due(elapsed_secs: u64) -> (b: bool)
    ensures
        b == (elapsed_secs >= FLUSH_INTERVAL_MINS * 60),
{
    elapsed_secs >= FLUSH_INTERVAL_MINS * 60
}

/// `n` written with at least two digits, as `{:02}` does.
pub open spec fn two_digits(n: nat) -> Seq<char> {
    if n < 10 {
        "0"@ + decimal_text(n)
    } else {
        decimal_text(n)
    }
}

/// `n` written with at least four digits, as chrono's `%Y` does for years
/// 0 to 9999.
pub open spec fn four_digits(n: nat) -> Seq<char> {
    if n < 10 {
        "000"@ + decimal_text(n)
    } else if n < 100 {
        "00"@ + decimal_text(n)
    } else if n < 1000 {
        "0"@ + decimal_text(n)
    } else {
        decimal_text(n)
    }
}

/// The directory of a flush day below the sink's base: `YYYY/MM/DD`.
pub open spec fn spec_day_dir(year: u32, month: u32, day: u32) -> Seq<char> {
    four_digits(year as nat) + "/"@ + two_digits(month as nat) + "/"@ + two_digits(day as nat)
}

/// The directory of the UTC day `year-month-day` below the sink's base.
pub fn day_dir(year: u32, month: u32, day: u32) -> (s: String)
    requires
        year <= 9999,
    ensures
        s@ == spec_day_dir(year, month, day),
{
    let mut s = String::new();
    if year < 10 {
        s.append("000");
    } else if year < 100 {
        s.append("00");
    } else if year < 1000 {
        s.append("0");
    }
    push_decimal(&mut s, year as u64);
    s.append("/");
    if month < 10 {
        s.append("0");
    }
    push_decimal(&mut s, month as u64);
    s.append("/");
    if day < 10 {
        s.append("0");
    }
    push_decimal(&mut s, day as u64);
    assert(s@ =~= spec_day_dir(year, month, day));
    s
}

/// The file of one instrument's rows in one flush: `{inst_id}_{millis}.parquet`.
pub open spec fn spec_file_name(inst_id: i32, flush_millis: i64) -> Seq<char> {
    signed_decimal_text(inst_id as int) + "_"@ + signed_decimal_text(flush_millis as int)
        + ".parquet"@
}

/// The file name of instrument `inst_id`'s rows flushed at `flush_millis`
/// (Unix milliseconds), so successive flushes never overwrite each other.
pub fn file_name(inst_id: i32, flush_millis: i64) -> (s: String)
    ensures
        s@ == spec_file_name(inst_id, flush_millis),
{
    let mut s = String::new();
    push_signed_decimal(&mut s, inst_id as i64);
    s.append("_");
    push_signed_decimal(&mut s, flush_millis);
    s.append(".parquet");
    assert(s@ =~= spec_file_name(inst_id, flush_millis));
    s
}

/// The QuestDB configuration string for `addr`, or for `localhost:9000`
/// without one.
pub fn questdb_conf(addr: Option<String>) -> (s: String)
    ensures
        s@ == "http::addr="@ + match addr {
            Some(a) => a@,
            None => DEFAULT_QUESTDB_ADDR@,
        } + ";"@,
{
    let a = match addr {
        Some(a) => a,
        None => String::from_str(DEFAULT_QUESTDB_ADDR),
    };
    let mut s = String::from_str("http::addr=");
    s.append(a.as_str());
    s.append(";");
    s
}

/// Rows written to the hot sink since its last flush.
#[derive(Debug, Clone, Copy, PartialEq, Eq)]
pub struct HotSinkCounter {
    pub buffered: u64,
}

impl HotSinkCounter {
    /// Counts one written row; returns whether 1,000 rows are buffered and
    /// the sink must flush.
    pub fn record(&mut self) -> (flush_due: bool)
        requires
            old(self).buffered < u64::MAX,
        ensures
            final(self).buffered == old(self).buffered + 1,
            flush_due == (final(self).buffered >= QUESTDB_FLUSH_THRESHOLD),
    {
        self.buffered = self.buffered + 1;
        self.buffered >= QUESTDB_FLUSH_THRESHOLD
    }

    /// Whether a flush has anything to send.
    pub fn has_rows(&self) -> (b: bool)
        ensures
            b == (self.buffered > 0),
    {
        self.buffered > 0
    }

    /// Records a completed flush.
    pub fn flushed(&mut self)
        ensures
            final(self).buffered == 0,
    {
        self.buffered = 0;
    }
}

/// What the storage consumer does with a tick.
#[derive(Debug, Clone, Copy, PartialEq, Eq)]
pub enum TickRoute {
    /// A crossed pre-open quote: dropped before either sink.
    Dropped,
    /// Written to the hot sink (when there is one) and buffered for the cold sink.
    Store,
}

/// The storage consumer's counters.
#[derive(Debug, Clone, Copy, PartialEq, Eq)]
pub struct ConsumerStats {
    /// Ticks received.
    pub count: u64,
    /// Hot-sink write errors.
    pub questdb_errors: u64,
}

impl ConsumerStats {
    /// Counts a received tick and decides its route.
    pub fn on_tick(&mut self, t: &Tick) -> (r: TickRoute)
        requires
            old(self).count < u64::MAX,
        ensures
            final(self).count == old(self).count + 1,
            final(self).questdb_errors == old(self).questdb_errors,
            r == if spec_crossed(*t) { TickRoute::Dropped } else { TickRoute::Store },
    {
        self.count = self.count + 1;
        if is_crossed_quote(t) {
            TickRoute::Dropped
        } else {
            TickRoute::Store
        }
    }

    /// Counts a hot-sink write error; returns whether it is among the first
    /// five, which are logged.
    pub fn on_questdb_error(&mut self) -> (log: bool)
        requires
            old(self).questdb_errors < u64::MAX,
        ensures
            final(self).questdb_errors == old(self).questdb_errors + 1,
            final(self).count == old(self).count,
            log == (final(self).questdb_errors <= LOGGED_QUESTDB_ERRORS),
    {
        self.questdb_errors = self.questdb_errors + 1;
        self.questdb_errors <= LOGGED_QUESTDB_ERRORS
    }
}

/// The crossed-quote filter judges the size of the gap, not its direction:
/// with a positive ask, a tick is dropped exactly when its bid is more than
/// 5% of the ask above it or more than 5% of the ask below it, so mirroring
/// the bid around the ask never changes the verdict; without a positive
/// ask nothing is dropped.
pub proof fn law_crossed_is_symmetric(t: Tick, u: Tick)
    ensures
        t.best_ask_price > 0 ==> (spec_crossed(t) <==> (20 * (t.best_bid_price - t.best_ask_price)
            > t.best_ask_price || 20 * (t.best_ask_price - t.best_bid_price) > t.best_ask_price)),
        t.best_ask_price <= 0 ==> !spec_crossed(t),
        u.best_ask_price == t.best_ask_price && u.best_bid_price - u.best_ask_price == t.best_ask_price
            - t.best_bid_price ==> spec_crossed(u) == spec_crossed(t),
{
}

} // verus!

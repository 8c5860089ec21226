//! The ingestion stream: which tokens it subscribes on which exchange
//! segment, the request and headers it opens the stream with, what it does
//! with each message, and when it reconnects.  The socket, the timers and
//! the tick channel are driven outside.

use vstd::prelude::*;
use crate::auth::{AuthTokens, header, headers_view};
use crate::config::{exchange_type_for, spec_exchange_type};
use crate::parser::{ParseError, packet_matches, parse_binary_packet};
use crate::data_client::frame_error;
use crate::schema::{ParsedPacket, Tick, spec_tick};
use crate::decimal::spec_parse_i32;
use crate::text::{decimal_text, push_decimal};

verus! {

/// The ingestion stream's WebSocket endpoint.
pub const WS_URL: &'static str = "wss://smartapisocket.angelone.in/smart-stream";

/// Seconds between two heartbeat pings.
pub const HEARTBEAT_INTERVAL_SECS: u64 = 10;

/// Failed sessions after which the stream gives up.
pub const MAX_RECONNECT_ATTEMPTS: u32 = 5;

/// Delay before the first reconnection, in milliseconds.
pub const RECONNECT_BASE_DELAY_MS: u64 = 2_000;

/// Text of a heartbeat ping, and of the server's answer.
pub const PING_TEXT: &'static str = "ping";

/// The server's answer to a ping.
pub const PONG_TEXT: &'static str = "pong";

/// Correlation id of the subscribe request.
pub const CORRELATION_ID: &'static str = "phase0_sub";

/// The token subscribed when the instrument file cannot be used: NIFTY 50.
pub const FALLBACK_TOKEN: &'static str = "26009";

/// All tokens that share one exchange type.
#[derive(Debug, Clone)]
pub struct TokenBucket {
    /// 1 = NSE_CM, 2 = NSE_FO.
    pub exchange_type: u8,
    pub tokens: Vec<String>,
}

/// Which instruments to subscribe to.
#[derive(Debug, Clone)]
pub struct SubscriptionConfig {
    /// One token list per exchange type.
    pub buckets: Vec<TokenBucket>,
    /// 1 = LTP, 2 = Quote, 3 = SnapQuote.
    pub mode: u8,
}

/// An instrument of the trading configuration, as far as the stream needs it.
#[derive(Debug, Clone)]
pub struct StreamInstrument {
    pub token: u32,
    pub exchange: String,
}

/// A bucket as plain values.
pub struct BucketModel {
    pub exchange_type: u8,
    pub tokens: Seq<Seq<char>>,
}

impl View for TokenBucket {
    type V = BucketModel;

    open spec fn view(&self) -> BucketModel {
        BucketModel {
            exchange_type: self.exchange_type,
            tokens: self.tokens@.map_values(|t: String| t@),
        }
    }
}

/// The buckets of a configuration as plain values.
pub open spec fn buckets_view(b: Seq<TokenBucket>) -> Seq<BucketModel> {
    b.map_values(|x: TokenBucket| x@)
}

/// The decimal tokens, in order, of the instruments on exchange type `t`.
pub open spec fn tokens_on(insts: Seq<StreamInstrument>, t: u8) -> Seq<Seq<char>>
    decreases insts.len(),
{
    if insts.len() == 0 {
        Seq::empty()
    } else {
        let last = insts.last();
        let rest = tokens_on(insts.drop_last(), t);
        if spec_exchange_type(last.exchange@) == t {
            rest.push(decimal_text(last.token as nat))
        } else {
            rest
        }
    }
}

/// Whether some instrument is on exchange type `t`.
pub open spec fn has_type(insts: Seq<StreamInstrument>, t: u8) -> bool {
    exists|i: int| 0 <= i < insts.len() && spec_exchange_type((#[trigger] insts[i]).exchange@) == t
}

/// The grouping of the instruments: one bucket per exchange type that
/// occurs, holding the decimal tokens of that type in the order given.
pub open spec fn grouped(insts: Seq<StreamInstrument>, b: Seq<BucketModel>) -> bool {
    &&& forall|i: int, j: int|
        0 <= i < j < b.len() ==> (#[trigger] b[i]).exchange_type != (#[trigger] b[j]).exchange_type
    &&& forall|i: int|
        0 <= i < b.len() ==> (#[trigger] b[i]).tokens == tokens_on(insts, b[i].exchange_type)
            && has_type(insts, b[i].exchange_type)
    &&& forall|t: u8|
        has_type(insts, t) ==> exists|i: int| 0 <= i < b.len() && (#[trigger] b[i]).exchange_type == t
}

/// The subscription used when the instrument file cannot be read or
/// parsed: NIFTY 50 on NSE_CM, SnapQuote mode.
pub fn fallback_subscription() -> (c: SubscriptionConfig)
    ensures
        c.mode == 3,
        c.buckets@.len() == 1,
        c.buckets@[0].exchange_type == 1,
        c.buckets@[0].tokens@.len() == 1,
        c.buckets@[0].tokens@[0]@ == FALLBACK_TOKEN@,
{
    let mut tokens: Vec<String> = Vec::new();
    tokens.push(String::from_str(FALLBACK_TOKEN));
    let mut buckets: Vec<TokenBucket> = Vec::new();
    buckets.push(TokenBucket { exchange_type: 1, tokens });
    SubscriptionConfig { buckets, mode: 3 }
}

fn decimal_string(n: u32) -> (s: String)
    ensures
        s@ == decimal_text(n as nat),
{
    let mut s = String::new();
    push_decimal(&mut s, n as u64);
    s
}

proof fn lemma_tokens_on_empty(insts: Seq<StreamInstrument>, t: u8)
    requires
        !has_type(insts, t),
    ensures
        tokens_on(insts, t) == Seq::<Seq<char>>::empty(),
    decreases insts.len(),
{
    if insts.len() > 0 {
        let p = insts.drop_last();
        assert(!has_type(p, t)) by {
            if has_type(p, t) {
                let i = choose|i: int| 0 <= i < p.len() && spec_exchange_type((#[trigger] p[i]).exchange@) == t;
                assert(insts[i] == p[i]);
            }
        }
        lemma_tokens_on_empty(p, t);
        assert(spec_exchange_type(insts[insts.len() - 1].exchange@) != t);
    }
}


proof fn lemma_has_type_step(pre: Seq<StreamInstrument>, post: Seq<StreamInstrument>, t: u8)
    requires
        post.len() == pre.len() + 1,
        post.drop_last() == pre,
    ensures
        has_type(post, t) == (has_type(pre, t) || spec_exchange_type(post.last().exchange@) == t),
{
    if has_type(pre, t) {
        let i = choose|i: int| 0 <= i < pre.len() && spec_exchange_type((#[trigger] pre[i]).exchange@) == t;
        assert(post[i] == pre[i]);
    }
    if has_type(post, t) {
        let i = choose|i: int| 0 <= i < post.len() && spec_exchange_type((#[trigger] post[i]).exchange@) == t;
        if i < pre.len() {
            assert(post[i] == pre[i]);
        }
    }
    if spec_exchange_type(post.last().exchange@) == t {
        assert(post[post.len() - 1] == post.last());
    }
}

proof fn lemma_grouped_extend(
    pre: Seq<StreamInstrument>,
    post: Seq<StreamInstrument>,
    old_b: Seq<BucketModel>,
    new_b: Seq<BucketModel>,
    k: int,
)
    requires
        post.len() == pre.len() + 1,
        post.drop_last() == pre,
        grouped(pre, old_b),
        0 <= k < old_b.len(),
        new_b.len() == old_b.len(),
        forall|j: int| 0 <= j < new_b.len() && j != k ==> #[trigger] new_b[j] == old_b[j],
        new_b[k].exchange_type == old_b[k].exchange_type,
        old_b[k].exchange_type == spec_exchange_type(post.last().exchange@),
        new_b[k].tokens == old_b[k].tokens.push(decimal_text(post.last().token as nat)),
    ensures
        grouped(post, new_b),
{
    let t = old_b[k].exchange_type;
    assert forall|i: int, j: int| 0 <= i < j < new_b.len() implies (#[trigger] new_b[i]).exchange_type
        != (#[trigger] new_b[j]).exchange_type by {
        assert(old_b[i].exchange_type != old_b[j].exchange_type);
    }
    assert forall|i: int| 0 <= i < new_b.len() implies (#[trigger] new_b[i]).tokens == tokens_on(
        post,
        new_b[i].exchange_type,
    ) && has_type(post, new_b[i].exchange_type) by {
        lemma_has_type_step(pre, post, new_b[i].exchange_type);
        if i == k {
        } else {
            assert(old_b[i].exchange_type != old_b[k].exchange_type);
        }
    }
    assert forall|u: u8| has_type(post, u) implies exists|i: int|
        0 <= i < new_b.len() && (#[trigger] new_b[i]).exchange_type == u by {
        lemma_has_type_step(pre, post, u);
        if u == t {
            assert(new_b[k].exchange_type == u);
        } else {
            let i = choose|i: int| 0 <= i < old_b.len() && (#[trigger] old_b[i]).exchange_type == u;
            assert(new_b[i] == old_b[i]);
        }
    }
}

proof fn lemma_grouped_new(
    pre: Seq<StreamInstrument>,
    post: Seq<StreamInstrument>,
    old_b: Seq<BucketModel>,
    t: u8,
    tok: Seq<char>,
)
    requires
        post.len() == pre.len() + 1,
        post.drop_last() == pre,
        grouped(pre, old_b),
        !has_type(pre, t),
        tokens_on(pre, t) == Seq::<Seq<char>>::empty(),
        t == spec_exchange_type(post.last().exchange@),
        tok == decimal_text(post.last().token as nat),
    ensures
        grouped(post, old_b.push(BucketModel { exchange_type: t, tokens: seq![tok] })),
{
    let new_b = old_b.push(BucketModel { exchange_type: t, tokens: seq![tok] });
    assert forall|i: int, j: int| 0 <= i < j < new_b.len() implies (#[trigger] new_b[i]).exchange_type
        != (#[trigger] new_b[j]).exchange_type by {
        if j == old_b.len() {
            assert(new_b[i] == old_b[i]);
            assert(has_type(pre, old_b[i].exchange_type));
        } else {
            assert(old_b[i].exchange_type != old_b[j].exchange_type);
        }
    }
    assert forall|i: int| 0 <= i < new_b.len() implies (#[trigger] new_b[i]).tokens == tokens_on(
        post,
        new_b[i].exchange_type,
    ) && has_type(post, new_b[i].exchange_type) by {
        lemma_has_type_step(pre, post, new_b[i].exchange_type);
        if i == old_b.len() {
            assert(tokens_on(post, t) =~= seq![tok]);
        } else {
            assert(new_b[i] == old_b[i]);
            assert(has_type(pre, old_b[i].exchange_type));
        }
    }
    assert forall|u: u8| has_type(post, u) implies exists|i: int|
        0 <= i < new_b.len() && (#[trigger] new_b[i]).exchange_type == u by {
        lemma_has_type_step(pre, post, u);
        if u == t {
            assert(new_b[old_b.len() as int].exchange_type == u);
        } else {
            let i = choose|i: int| 0 <= i < old_b.len() && (#[trigger] old_b[i]).exchange_type == u;
            assert(new_b[i] == old_b[i]);
        }
    }
}

/// Groups the instruments into token lists per exchange type (`NFO` on
/// NSE_FO, everything else on NSE_CM), SnapQuote mode.  Buckets come in the
/// order their exchange type first occurs; tokens keep the order given.
pub fn subscription_from_instruments(insts: &Vec<StreamInstrument>) -> (c: SubscriptionConfig)
    ensures
        c.mode == 3,
        grouped(insts@, buckets_view(c.buckets@)),
{
    let mut buckets: Vec<TokenBucket> = Vec::new();
    let n = insts.len();
    let mut i: usize = 0;
    while i < n
        invariant
            n == insts@.len(),
            i <= n,
            grouped(insts@.take(i as int), buckets_view(buckets@)),
        decreases n - i,
    {
        let inst = &insts[i];
        let t = exchange_type_for(inst.exchange.as_str());
        let tok = decimal_string(inst.token);
        let ghost tokv = tok@;
        let ghost pre = insts@.take(i as int);
        let ghost post = insts@.take((i + 1) as int);
        let ghost old_b = buckets_view(buckets@);
        proof {
            assert(post.drop_last() =~= pre);
            assert(post.last() == insts@[i as int]);
        }
        let nb = buckets.len();
        let mut k: usize = 0;
        while k < nb && buckets[k].exchange_type != t
            invariant
                nb == buckets@.len(),
                k <= nb,
                forall|j: int| 0 <= j < k ==> (#[trigger] buckets@[j]).exchange_type != t,
            decreases nb - k,
        {
            k = k + 1;
        }
        if k < nb {
            let mut b = buckets.remove(k);
            b.tokens.push(tok);
            buckets.insert(k, b);
            proof {
                let nbv = buckets_view(buckets@);
                assert(nbv.len() == old_b.len());
                assert forall|j: int| 0 <= j < nbv.len() && j != k implies #[trigger] nbv[j] == old_b[j] by {
                    if j < k {
                    } else {
                    }
                }
                assert(nbv[k as int].exchange_type == t);
                assert(nbv[k as int].tokens =~= old_b[k as int].tokens.push(tok@));
                lemma_grouped_extend(pre, post, old_b, nbv, k as int);
            }
        } else {
            let mut toks: Vec<String> = Vec::new();
            toks.push(tok);
            buckets.push(TokenBucket { exchange_type: t, tokens: toks });
            proof {
                let nbv = buckets_view(buckets@);
                let last = buckets@[old_b.len() as int];
                assert(last.tokens@.map_values(|x: String| x@) =~= seq![tokv]);
                assert(nbv =~= old_b.push(BucketModel { exchange_type: t, tokens: seq![tokv] }));
                assert(!has_type(pre, t)) by {
                    if has_type(pre, t) {
                        let j = choose|j: int| 0 <= j < old_b.len() && (#[trigger] old_b[j]).exchange_type == t;
                        assert(buckets_view(buckets@)[j] == old_b[j]);
                    }
                }
                lemma_tokens_on_empty(pre, t);
                lemma_grouped_new(pre, post, old_b, t, tokv);
            }
        }
        i = i + 1;
    }
    assert(insts@.take(n as int) =~= insts@);
    SubscriptionConfig { buckets, mode: 3 }
}

/// The subscribe request of the ingestion stream.
#[derive(Debug, Clone)]
pub struct SubscribeMessage {
    pub correlation_id: String,
    /// 1 = subscribe.
    pub action: u8,
    pub mode: u8,
    /// One token list per bucket.
    pub token_list: Vec<TokenBucket>,
}

/// The subscribe request for `config`: correlation id `phase0_sub`,
/// action 1, the configured mode and one token list per bucket.
pub fn subscribe_message(config: &SubscriptionConfig) -> (m: SubscribeMessage)
    ensures
        m.correlation_id@ == CORRELATION_ID@,
        m.action == 1,
        m.mode == config.mode,
        buckets_view(m.token_list@) == buckets_view(config.buckets@),
{
    let mut list: Vec<TokenBucket> = Vec::new();
    let n = config.buckets.len();
    let mut i: usize = 0;
    while i < n
        invariant
            n == config.buckets@.len(),
            i <= n,
            list@.len() == i,
            forall|j: int| 0 <= j < i ==> (#[trigger] list@[j])@ == config.buckets@[j]@,
        decreases n - i,
    {
        let b = &config.buckets[i];
        let toks = clone_texts(&b.tokens);
        list.push(TokenBucket { exchange_type: b.exchange_type, tokens: toks });
        i = i + 1;
    }
    assert(buckets_view(list@) =~= buckets_view(config.buckets@));
    SubscribeMessage {
        correlation_id: String::from_str(CORRELATION_ID),
        action: 1,
        mode: config.mode,
        token_list: list,
    }
}

fn clone_texts(v: &Vec<String>) -> (r: Vec<String>)
    ensures
        r@.map_values(|t: String| t@) == v@.map_values(|t: String| t@),
{
    let mut r: Vec<String> = Vec::new();
    let n = v.len();
    let mut i: usize = 0;
    while i < n
        invariant
            n == v@.len(),
            i <= n,
            r@.len() == i,
            forall|j: int| 0 <= j < i ==> (#[trigger] r@[j])@ == v@[j]@,
        decreases n - i,
    {
        r.push(v[i].clone());
        i = i + 1;
    }
    assert(r@.map_values(|t: String| t@) =~= v@.map_values(|t: String| t@));
    r
}

/// The headers of the ingestion stream for a session.
pub open spec fn spec_ingest_headers(t: AuthTokens) -> Seq<(Seq<char>, Seq<char>)> {
    seq![
        ("Authorization"@, "Bearer "@ + t.jwt_token@),
        ("x-api-key"@, t.api_key@),
        ("x-client-code"@, t.client_id@),
        ("x-feed-token"@, t.feed_token@),
    ]
}

/// The headers of the ingestion stream: the JWT as a bearer token, the API
/// key, the client code and the feed token.
pub fn ingest_headers(tokens: &AuthTokens) -> (h: Vec<(String, String)>)
    ensures
        headers_view(h@) == spec_ingest_headers(*tokens),
{
    let mut bearer = String::from_str("Bearer ");
    bearer.append(tokens.jwt_token.as_str());
    let mut h: Vec<(String, String)> = Vec::with_capacity(4);
    h.push(header("Authorization", bearer));
    h.push(header("x-api-key", tokens.api_key.clone()));
    h.push(header("x-client-code", tokens.client_id.clone()));
    h.push(header("x-feed-token", tokens.feed_token.clone()));
    assert(headers_view(h@) =~= spec_ingest_headers(*tokens));
    h
}

/// What to do once a stream session has ended.
#[derive(Debug, Clone, Copy, PartialEq, Eq)]
pub enum ReconnectAction {
    /// The session ended without error: the stream is finished.
    Finished,
    /// Too many failed sessions: the stream fails.
    GiveUp,
    /// Wait this many milliseconds, then open a new session.
    RetryAfter { delay_ms: u64 },
}

/// `2^k`.
pub open spec fn pow2(k: nat) -> nat
    decreases k,
{
    if k == 0 {
        1
    } else {
        2 * pow2((k - 1) as nat)
    }
}

/// The delay before reconnection attempt `attempt` (counted from 1):
/// 2 s doubled for each earlier attempt.
pub open spec fn backoff_ms(attempt: nat) -> nat {
    RECONNECT_BASE_DELAY_MS as nat * pow2((attempt - 1) as nat)
}

/// The reconnection rule: after a clean end the stream is finished; after
/// the failure that makes `attempts + 1` failures, it gives up beyond 5,
/// else retries after `backoff_ms(attempts + 1)`.
pub open spec fn spec_after_session(attempts: u32, failed: bool) -> (u32, ReconnectAction) {
    if !failed {
        (attempts, ReconnectAction::Finished)
    } else if attempts + 1 > MAX_RECONNECT_ATTEMPTS {
        ((attempts + 1) as u32, ReconnectAction::GiveUp)
    } else {
        (
            (attempts + 1) as u32,
            ReconnectAction::RetryAfter { delay_ms: backoff_ms((attempts + 1) as nat) as u64 },
        )
    }
}

/// Decides what follows a session that ended after `attempts` earlier
/// failures; returns the new failure count and the action.
pub fn after_session(attempts: u32, failed: bool) -> (r: (u32, ReconnectAction))
    requires
        attempts <= MAX_RECONNECT_ATTEMPTS,
    ensures
        r == spec_after_session(attempts, failed),
{
    if !failed {
        return (attempts, ReconnectAction::Finished);
    }
    let next = attempts + 1;
    if next > MAX_RECONNECT_ATTEMPTS {
        return (next, ReconnectAction::GiveUp);
    }
    let mut delay: u64 = RECONNECT_BASE_DELAY_MS;
    let mut k: u32 = 1;
    while k < next
        invariant
            1 <= k <= next,
            next <= MAX_RECONNECT_ATTEMPTS,
            delay == RECONNECT_BASE_DELAY_MS * pow2((k - 1) as nat),
        decreases next - k,
    {
        proof {
            assert(pow2(k as nat) == 2 * pow2((k - 1) as nat));
            assert(pow2((k - 1) as nat) <= 16) by {
                reveal_with_fuel(pow2, 6);
            }
        }
        delay = delay * 2;
        k = k + 1;
    }
    (next, ReconnectAction::RetryAfter { delay_ms: delay })
}

/// Backoff doubles: every retry waits twice as long as the one before.
pub proof fn law_backoff_doubles(attempt: nat)
    requires
        attempt >= 1,
    ensures
        backoff_ms(attempt + 1) == 2 * backoff_ms(attempt),
{
    assert(pow2(attempt) == 2 * pow2((attempt - 1) as nat));
    assert(backoff_ms(attempt + 1) == RECONNECT_BASE_DELAY_MS as nat * pow2(attempt));
    assert(RECONNECT_BASE_DELAY_MS as nat * (2 * pow2((attempt - 1) as nat)) == 2 * (
    RECONNECT_BASE_DELAY_MS as nat * pow2((attempt - 1) as nat))) by (nonlinear_arith);
}

/// Reconnection is bounded: a stream that keeps failing retries exactly
/// five times, after 2, 4, 8, 16 and 32 seconds, and gives up at the sixth
/// failure; a clean end never retries.
pub proof fn law_reconnect_bounded()
    ensures
        spec_after_session(0, true) == (1u32, ReconnectAction::RetryAfter { delay_ms: 2_000 }),
        spec_after_session(1, true) == (2u32, ReconnectAction::RetryAfter { delay_ms: 4_000 }),
        spec_after_session(2, true) == (3u32, ReconnectAction::RetryAfter { delay_ms: 8_000 }),
        spec_after_session(3, true) == (4u32, ReconnectAction::RetryAfter { delay_ms: 16_000 }),
        spec_after_session(4, true) == (5u32, ReconnectAction::RetryAfter { delay_ms: 32_000 }),
        spec_after_session(5, true) == (6u32, ReconnectAction::GiveUp),
        forall|a: u32| #[trigger] spec_after_session(a, false).1 == ReconnectAction::Finished,
{
    reveal_with_fuel(pow2, 6);
}

/// Lowercase hexadecimal digit of `d` (below 16).
pub open spec fn hex_text(d: int) -> Seq<char> {
    if d == 0 {
        "0"@
    } else if d == 1 {
        "1"@
    } else if d == 2 {
        "2"@
    } else if d == 3 {
        "3"@
    } else if d == 4 {
        "4"@
    } else if d == 5 {
        "5"@
    } else if d == 6 {
        "6"@
    } else if d == 7 {
        "7"@
    } else if d == 8 {
        "8"@
    } else if d == 9 {
        "9"@
    } else if d == 10 {
        "a"@
    } else if d == 11 {
        "b"@
    } else if d == 12 {
        "c"@
    } else if d == 13 {
        "d"@
    } else if d == 14 {
        "e"@
    } else {
        "f"@
    }
}

/// Two lowercase hexadecimal digits of a byte, as `{:02x}` writes it.
pub open spec fn hex_byte(b: u8) -> Seq<char> {
    hex_text(b as int / 16) + hex_text(b as int % 16)
}

/// The bytes in hexadecimal, separated by single spaces.
pub open spec fn hex_join(bytes: Seq<u8>) -> Seq<char>
    decreases bytes.len(),
{
    if bytes.len() == 0 {
        Seq::empty()
    } else if bytes.len() == 1 {
        hex_byte(bytes[0])
    } else {
        hex_join(bytes.drop_last()) + " "@ + hex_byte(bytes.last())
    }
}

fn hex_str(d: u8) -> (s: &'static str)
    requires
        d < 16,
    ensures
        s@ == hex_text(d as int),
{
    match d {
        0 => "0",
        1 => "1",
        2 => "2",
        3 => "3",
        4 => "4",
        5 => "5",
        6 => "6",
        7 => "7",
        8 => "8",
        9 => "9",
        10 => "a",
        11 => "b",
        12 => "c",
        13 => "d",
        14 => "e",
        _ => "f",
    }
}

/// The first 16 bytes of a frame (fewer when it is shorter) in hexadecimal,
/// separated by spaces: what a failed frame is logged with.
pub fn header_hex(data: &[u8]) -> (s: String)
    ensures
        s@ == hex_join(data@.take(if data@.len() < 16 { data@.len() as int } else { 16 })),
{
    let n: usize = if data.len() < 16 { data.len() } else { 16 };
    let mut s = String::new();
    let mut i: usize = 0;
    while i < n
        invariant
            n <= data@.len(),
            n <= 16,
            i <= n,
            s@ == hex_join(data@.take(i as int)),
        decreases n - i,
    {
        let b = data[i];
        let ghost pre = data@.take(i as int);
        let ghost post = data@.take((i + 1) as int);
        proof {
            assert(post.drop_last() =~= pre);
            assert(post.last() == b);
        }
        if i > 0 {
            s.append(" ");
        }
        s.append(hex_str(b / 16));
        s.append(hex_str(b % 16));
        proof {
            if i == 0 {
                assert(post =~= seq![b]);
                assert(s@ =~= hex_byte(b));
            } else {
                assert(s@ =~= hex_join(pre) + " "@ + hex_byte(b));
            }
        }
        i = i + 1;
    }
    s
}

/// One message of the stream, as the socket delivered it.
#[derive(Debug, Clone)]
pub enum StreamMessage {
    Binary(Vec<u8>),
    Text(String),
    /// A WebSocket pong, ping or raw frame.
    Control,
    /// The server closed the stream.
    Close,
    /// Reading failed.
    ReadError,
    /// The stream ended.
    Ended,
}

/// What the stream does with one message.
#[derive(Debug, Clone)]
pub enum StreamStep {
    /// Send this tick down the channel.
    Forward(Tick),
    /// The frame is not a packet: log its length and first bytes.
    BadFrame { error: ParseError, len: usize, header_hex: String },
    /// The packet's timestamps leave the nanosecond range: drop it.
    OutOfRange,
    /// Nothing to do.
    Ignore,
    /// Log a text message from the server.
    LogText(String),
    /// End the session.
    EndSession,
}

/// What the stream does with `msg` received at `ts_recv_ns`: a packet
/// becomes a tick, a frame that is not one is logged, `pong` texts and
/// control frames are ignored, other texts logged, and a close, a read
/// error or the end of the stream ends the session.
pub fn on_stream_message(msg: StreamMessage, ts_recv_ns: i64) -> (r: StreamStep)
    ensures
        match msg {
            StreamMessage::Binary(data) => (match r {
                StreamStep::Forward(t) => exists|p: ParsedPacket|
                    packet_matches(p, data@) && p.timestamps_fit() && t == spec_tick(
                        p,
                        match spec_parse_i32(p.token@) {
                            Some(v) => v,
                            None => 0,
                        },
                        ts_recv_ns,
                    ),
                StreamStep::BadFrame { error, len, header_hex } => frame_error(data@) == Some(error)
                    && len == data@.len() && header_hex@ == hex_join(
                    data@.take(if data@.len() < 16 { data@.len() as int } else { 16 }),
                ),
                StreamStep::OutOfRange => frame_error(data@) is None && exists|p: ParsedPacket|
                    packet_matches(p, data@) && !p.timestamps_fit(),
                _ => false,
            }) && (frame_error(data@) is None <==> !(r is BadFrame)),
            StreamMessage::Text(text) => if text@ == PONG_TEXT@ {
                r is Ignore
            } else {
                r matches StreamStep::LogText(t) && t@ == text@
            },
            StreamMessage::Control => r is Ignore,
            _ => r is EndSession,
        },
{
    match msg {
        StreamMessage::Binary(data) => match parse_binary_packet(data.as_slice()) {
            Ok(p) => {
                if p.timestamps_in_range() {
                    StreamStep::Forward(p.to_tick(ts_recv_ns))
                } else {
                    StreamStep::OutOfRange
                }
            },
            Err(error) => {
                let header_hex = header_hex(data.as_slice());
                StreamStep::BadFrame { error, len: data.len(), header_hex }
            },
        },
        StreamMessage::Text(text) => {
            let pong = String::from_str(PONG_TEXT);
            if text == pong {
                StreamStep::Ignore
            } else {
                StreamStep::LogText(text)
            }
        },
        StreamMessage::Control => StreamStep::Ignore,
        _ => StreamStep::EndSession,
    }
}

/// Ticks between two progress lines of the consumer.
pub const TICK_LOG_EVERY: u64 = 100;

/// Counts consumed ticks; every hundredth is logged.
pub fn count_tick(count: u64) -> (r: (u64, bool))
    requires
        count < u64::MAX,
    ensures
        r.0 == count + 1,
        r.1 == ((count + 1) % TICK_LOG_EVERY as int == 0),
{
    let c = count + 1;
    (c, c % TICK_LOG_EVERY == 0)
}

} // verus!

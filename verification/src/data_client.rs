//! The Angel One market-data client: its configuration, its subscriptions,
//! the subscribe request it opens a stream with, and what becomes of each
//! binary frame the stream delivers.  The socket itself is driven outside.

use vstd::prelude::*;
use std::collections::HashMap;
use crate::auth::{AuthTokens, header, headers_view};
use vstd::std_specs::hash::spec_keys_iter;
use vstd::std_specs::iter::IteratorSpec;
use crate::decimal::{parse_u32, spec_parse_u32};
use crate::decode::{
    BookDelta, QuoteTop, event_time_fits, packet_to_order_book_deltas, packet_to_quote_tick,
    spec_book_deltas, spec_quote_top,
};
use crate::parser::{MIN_PACKET_LEN, ParseError, packet_matches, parse_binary_packet};
use crate::schema::{ParsedPacket, exchange_from_code, mode_from_code};
use crate::text::{decimal_text, push_decimal};

verus! {

broadcast use vstd::std_specs::hash::group_hash_axioms;

/// The SmartStream WebSocket endpoint.
pub const SMART_STREAM_URL: &'static str = "wss://smartapisocket.angelone.in/smart-stream";

/// Configuration of the data client.
pub struct AngelOneDataClientConfig {
    /// Engine client id, e.g. `ANGEL_ONE`.
    pub client_id: String,
    /// Venue of the streamed instruments, e.g. `NSE`.
    pub venue: String,
    /// Broker token to engine instrument id.
    pub instrument_map: HashMap<u32, String>,
    /// Exchange type the tokens are subscribed on (1 = NSE_CM, 2 = NSE_FO).
    pub exchange_type: u8,
    /// WebSocket URL.
    pub ws_url: String,
}

impl AngelOneDataClientConfig {
    /// A configuration streaming from the SmartStream endpoint.
    pub fn new(
        client_id: String,
        venue: String,
        instrument_map: HashMap<u32, String>,
        exchange_type: u8,
    ) -> (c: Self)
        ensures
            c.client_id == client_id,
            c.venue == venue,
            c.instrument_map@ == instrument_map@,
            c.exchange_type == exchange_type,
            c.ws_url@ == SMART_STREAM_URL@,
    {
        Self { client_id, venue, instrument_map, exchange_type, ws_url: String::from_str(SMART_STREAM_URL) }
    }
}

/// The subscribe request of the data client: action 1 (subscribe), mode 3
/// (SnapQuote), one token list on one exchange type.
#[derive(Debug, Clone)]
pub struct DataSubscribeRequest {
    pub action: u8,
    pub mode: u8,
    pub exchange_type: u8,
    pub tokens: Vec<String>,
}

/// The texts of a list of strings, as a set.
pub open spec fn text_set(v: Seq<String>) -> Set<Seq<char>> {
    v.map_values(|s: String| s@).to_set()
}

/// The decimal texts of a set of tokens.
pub open spec fn token_texts(tokens: Set<u32>) -> Set<Seq<char>> {
    tokens.map(|k: u32| decimal_text(k as nat))
}

/// What becomes of one binary frame.
#[derive(Debug, Clone)]
pub enum FrameOutcome {
    /// The bytes are not a packet; the frame is dropped.
    Unparsed { error: ParseError },
    /// The token is not a decimal `u32`; the frame is dropped.
    BadToken { token: String },
    /// The token is not in the instrument table; the frame is ignored.
    Unmapped { token: u32 },
    /// The exchange time cannot be expressed in nanoseconds, or the depth
    /// ladders are too long to number; the frame is dropped.
    Undecodable { token: u32 },
    /// The frame belongs to `instrument_id`: a quote when quotes are
    /// subscribed and the packet has a top of book, a snapshot when book
    /// deltas are subscribed and the packet has usable depth.
    Routed { token: u32, instrument_id: String, quote: Option<QuoteTop>, deltas: Option<Vec<BookDelta>> },
}


/// The error `parse_binary_packet` gives for `data`, if any.
pub open spec fn frame_error(data: Seq<u8>) -> Option<ParseError> {
    if data.len() < MIN_PACKET_LEN {
        Some(ParseError::TooShort { expected: MIN_PACKET_LEN, actual: data.len() as usize })
    } else if mode_from_code(data[0]) is None {
        Some(ParseError::UnknownMode(data[0]))
    } else if exchange_from_code(data[1]) is None {
        Some(ParseError::UnknownExchange(data[1]))
    } else {
        None
    }
}

/// A packet whose SnapQuote part, if any, can be turned into nanosecond
/// records: its exchange time fits and its ladders can be numbered.
pub open spec fn decodable(p: ParsedPacket) -> bool {
    p.snap matches Some(s) ==> (event_time_fits(p) && s.best_5_buy@.len() + s.best_5_sell@.len()
        < usize::MAX)
}

/// The headers of the data client's stream for a session.
pub open spec fn spec_stream_headers(t: AuthTokens) -> Seq<(Seq<char>, Seq<char>)> {
    seq![
        ("Authorization"@, t.feed_token@),
        ("x-client-code"@, t.client_id@),
        ("x-feed-token"@, t.feed_token@),
    ]
}

/// The headers of the data client's stream: the feed token as
/// authorisation, the client code and the feed token again.
pub fn stream_headers(tokens: &AuthTokens) -> (h: Vec<(String, String)>)
    ensures
        headers_view(h@) == spec_stream_headers(*tokens),
{
    let mut h: Vec<(String, String)> = Vec::with_capacity(3);
    h.push(header("Authorization", tokens.feed_token.clone()));
    h.push(header("x-client-code", tokens.client_id.clone()));
    h.push(header("x-feed-token", tokens.feed_token.clone()));
    assert(headers_view(h@) =~= spec_stream_headers(*tokens));
    h
}

fn decodable_packet(p: &ParsedPacket) -> (b: bool)
    ensures
        b == decodable(*p),
{
    match &p.snap {
        None => true,
        Some(s) => {
            let ms = p.exchange_timestamp as u64;
            ms <= u64::MAX / 1_000_000 && s.best_5_buy.len() < usize::MAX - s.best_5_sell.len()
        },
    }
}

/// State of the data client.
pub struct AngelOneDataClient {
    config: AngelOneDataClientConfig,
    connected: bool,
    auth_tokens: Option<AuthTokens>,
    quote_subs: Vec<String>,
    book_subs: Vec<String>,
    seq_map: HashMap<u32, i64>,
}

/// Whether `t` is one of the texts of `v`.
pub open spec fn holds_text(v: Seq<String>, t: Seq<char>) -> bool {
    exists|i: int| 0 <= i < v.len() && (#[trigger] v[i])@ == t
}

fn contains_text(v: &Vec<String>, t: &String) -> (b: bool)
    ensures
        b == holds_text(v@, t@),
{
    let n = v.len();
    let mut i: usize = 0;
    while i < n
        invariant
            n == v@.len(),
            i <= n,
            forall|j: int| 0 <= j < i ==> (#[trigger] v@[j])@ != t@,
        decreases n - i,
    {
        if v[i] == *t {
            return true;
        }
        i = i + 1;
    }
    false
}

proof fn lemma_text_set_holds(v: Seq<String>, t: Seq<char>)
    ensures
        text_set(v).contains(t) == holds_text(v, t),
{
    let w = v.map_values(|s: String| s@);
    if holds_text(v, t) {
        let i = choose|i: int| 0 <= i < v.len() && (#[trigger] v[i])@ == t;
        assert(w[i] == t);
    }
    if text_set(v).contains(t) {
        let i = choose|i: int| 0 <= i < w.len() && w[i] == t;
        assert(v[i]@ == t);
    }
}

fn insert_text(v: &mut Vec<String>, t: String)
    ensures
        text_set(final(v)@) == text_set(old(v)@).insert(t@),
{
    proof {
        lemma_text_set_holds(old(v)@, t@);
    }
    if !contains_text(v, &t) {
        let ghost before = v@;
        v.push(t);
        proof {
            assert(v@.map_values(|s: String| s@) =~= before.map_values(|s: String| s@).push(t@));
            before.map_values(|s: String| s@).lemma_push_to_set_commute(t@);
        }
    } else {
        assert(text_set(v@) =~= text_set(v@).insert(t@));
    }
}

fn remove_text(v: &mut Vec<String>, t: &String)
    ensures
        text_set(final(v)@) == text_set(old(v)@).remove(t@),
{
    let mut out: Vec<String> = Vec::new();
    let n = v.len();
    let mut i: usize = 0;
    while i < n
        invariant
            n == v@.len(),
            i <= n,
            forall|x: Seq<char>|
                #![trigger holds_text(out@, x)]
                #![trigger holds_text(v@.take(i as int), x)]
                holds_text(out@, x) <==> (x != t@ && holds_text(v@.take(i as int), x)),
        decreases n - i,
    {
        let ghost before = out@;
        let ghost vi = v@.take(i as int);
        let ghost vn = v@.take((i + 1) as int);
        assert(vn =~= vi.push(v@[i as int]));
        let keep = !(v[i] == *t);
        if keep {
            out.push(v[i].clone());
            assert(out@[before.len() as int] == v@[i as int]);
        }
        assert(keep ==> out@ =~= before.push(v@[i as int]));
        assert(!keep ==> out@ =~= before);
        assert forall|x: Seq<char>|
            #![trigger holds_text(out@, x)]
            #![trigger holds_text(vn, x)]
            holds_text(out@, x) <==> (x != t@ && holds_text(vn, x)) by {
            if holds_text(vn, x) && x != t@ {
                let k = choose|k: int| 0 <= k < vn.len() && (#[trigger] vn[k])@ == x;
                if k < i {
                    assert(vi[k] == vn[k]);
                    assert(holds_text(vi, x));
                    assert(holds_text(before, x));
                    let k2 = choose|k2: int| 0 <= k2 < before.len() && (#[trigger] before[k2])@ == x;
                    assert(out@[k2] == before[k2]);
                } else {
                    assert(vn[k] == v@[i as int]);
                    assert(keep);
                    assert(out@[before.len() as int] == v@[i as int]);
                }
            }
            if holds_text(out@, x) {
                let k = choose|k: int| 0 <= k < out@.len() && (#[trigger] out@[k])@ == x;
                if k < before.len() {
                    assert(before[k] == out@[k]);
                    assert(holds_text(before, x));
                    let k2 = choose|k2: int| 0 <= k2 < vi.len() && (#[trigger] vi[k2])@ == x;
                    assert(vn[k2] == vi[k2]);
                } else {
                    assert(keep);
                    assert(vn[i as int] == v@[i as int]);
                }
            }
        }
        i = i + 1;
        assert(v@.take(i as int) =~= vn);
    }
    assert(v@.take(n as int) =~= v@);
    proof {
        assert forall|x: Seq<char>| text_set(out@).contains(x) == text_set(v@).remove(t@).contains(x) by {
            lemma_text_set_holds(out@, x);
            lemma_text_set_holds(v@, x);
        }
        assert(text_set(out@) =~= text_set(v@).remove(t@));
    }
    *v = out;
}

impl AngelOneDataClient {
    /// The configuration.
    pub closed spec fn spec_config(&self) -> &AngelOneDataClientConfig {
        &self.config
    }

    /// Whether the client is connected.
    pub closed spec fn spec_connected(&self) -> bool {
        self.connected
    }

    /// The session tokens of the last login, if any.
    pub closed spec fn spec_tokens(&self) -> Option<AuthTokens> {
        self.auth_tokens
    }

    /// Instruments whose quotes are subscribed.
    pub closed spec fn quote_subs(&self) -> Set<Seq<char>> {
        text_set(self.quote_subs@)
    }

    /// Instruments whose book deltas are subscribed.
    pub closed spec fn book_subs(&self) -> Set<Seq<char>> {
        text_set(self.book_subs@)
    }

    /// Last snapshot sequence number per token on the current stream.
    pub closed spec fn last_seq(&self) -> Map<u32, i64> {
        self.seq_map@
    }

    /// A disconnected client without subscriptions.
    pub fn new(config: AngelOneDataClientConfig) -> (c: Self)
        ensures
            *c.spec_config() == config,
            !c.spec_connected(),
            c.spec_tokens() is None,
            c.quote_subs() == Set::<Seq<char>>::empty(),
            c.book_subs() == Set::<Seq<char>>::empty(),
            c.last_seq() == Map::<u32, i64>::empty(),
    {
        let c = Self {
            config,
            connected: false,
            auth_tokens: None,
            quote_subs: Vec::new(),
            book_subs: Vec::new(),
            seq_map: HashMap::new(),
        };
        assert(c.quote_subs() =~= Set::<Seq<char>>::empty());
        assert(c.book_subs() =~= Set::<Seq<char>>::empty());
        c
    }

    /// The configuration.
    pub fn config(&self) -> (c: &AngelOneDataClientConfig)
        ensures
            *c == *self.spec_config(),
    {
        &self.config
    }

    /// The engine's client id.
    pub fn client_id(&self) -> (s: &String)
        ensures
            *s == self.spec_config().client_id,
    {
        &self.config.client_id
    }

    /// The venue of the streamed instruments.
    pub fn venue(&self) -> (s: &String)
        ensures
            *s == self.spec_config().venue,
    {
        &self.config.venue
    }

    /// Whether the client is connected.
    pub fn is_connected(&self) -> (b: bool)
        ensures
            b == self.spec_connected(),
    {
        self.connected
    }

    /// Whether the client is disconnected.
    pub fn is_disconnected(&self) -> (b: bool)
        ensures
            b == !self.spec_connected(),
    {
        !self.connected
    }

    /// Subscribes quotes of `instrument_id`.
    pub fn subscribe_quotes(&mut self, instrument_id: String)
        ensures
            final(self).quote_subs() == old(self).quote_subs().insert(instrument_id@),
            final(self).book_subs() == old(self).book_subs(),
            final(self).spec_connected() == old(self).spec_connected(),
            final(self).spec_tokens() == old(self).spec_tokens(),
            *final(self).spec_config() == *old(self).spec_config(),
            final(self).last_seq() == old(self).last_seq(),
    {
        insert_text(&mut self.quote_subs, instrument_id);
    }

    /// Drops the quote subscription of `instrument_id`.
    pub fn unsubscribe_quotes(&mut self, instrument_id: &String)
        ensures
            final(self).quote_subs() == old(self).quote_subs().remove(instrument_id@),
            final(self).book_subs() == old(self).book_subs(),
            final(self).spec_connected() == old(self).spec_connected(),
            final(self).spec_tokens() == old(self).spec_tokens(),
            *final(self).spec_config() == *old(self).spec_config(),
            final(self).last_seq() == old(self).last_seq(),
    {
        remove_text(&mut self.quote_subs, instrument_id);
    }

    /// Subscribes book deltas of `instrument_id`.
    pub fn subscribe_book_deltas(&mut self, instrument_id: String)
        ensures
            final(self).book_subs() == old(self).book_subs().insert(instrument_id@),
            final(self).quote_subs() == old(self).quote_subs(),
            final(self).spec_connected() == old(self).spec_connected(),
            final(self).spec_tokens() == old(self).spec_tokens(),
            *final(self).spec_config() == *old(self).spec_config(),
            final(self).last_seq() == old(self).last_seq(),
    {
        insert_text(&mut self.book_subs, instrument_id);
    }

    /// Drops the book-delta subscription of `instrument_id`.
    pub fn unsubscribe_book_deltas(&mut self, instrument_id: &String)
        ensures
            final(self).book_subs() == old(self).book_subs().remove(instrument_id@),
            final(self).quote_subs() == old(self).quote_subs(),
            final(self).spec_connected() == old(self).spec_connected(),
            final(self).spec_tokens() == old(self).spec_tokens(),
            *final(self).spec_config() == *old(self).spec_config(),
            final(self).last_seq() == old(self).last_seq(),
    {
        remove_text(&mut self.book_subs, instrument_id);
    }


    /// Routing `p` at `ts_init_ns` takes the client from `pre` to `post`
    /// and yields `r`.
    pub open spec fn routed(pre: &Self, post: &Self, p: ParsedPacket, ts_init_ns: u64, r: FrameOutcome) -> bool {
        &&& *post.spec_config() == *pre.spec_config()
        &&& post.spec_connected() == pre.spec_connected()
        &&& post.spec_tokens() == pre.spec_tokens()
        &&& post.quote_subs() == pre.quote_subs()
        &&& post.book_subs() == pre.book_subs()
        &&& match spec_parse_u32(p.token@) {
            None => r matches FrameOutcome::BadToken { token } && token@ == p.token@
                && post.last_seq() == pre.last_seq(),
            Some(tok) => if !pre.spec_config().instrument_map@.contains_key(tok) {
                r matches FrameOutcome::Unmapped { token } && token == tok && post.last_seq()
                    == pre.last_seq()
            } else if !decodable(p) {
                r matches FrameOutcome::Undecodable { token } && token == tok && post.last_seq()
                    == pre.last_seq()
            } else {
                let id = pre.spec_config().instrument_map@[tok]@;
                let quote_on = pre.quote_subs().contains(id);
                let book_on = pre.book_subs().contains(id);
                &&& r matches FrameOutcome::Routed { token, instrument_id, quote, deltas }
                &&& r->Routed_token == tok
                &&& r->Routed_instrument_id@ == id
                &&& r->Routed_quote == (if quote_on { spec_quote_top(p, ts_init_ns) } else { None })
                &&& match (
                    r->Routed_deltas,
                    if book_on { spec_book_deltas(p, ts_init_ns) } else { None },
                ) {
                    (None, None) => true,
                    (Some(v), Some(d)) => v@ == d,
                    _ => false,
                }
                &&& post.last_seq() == if book_on {
                    let prev = if pre.last_seq().contains_key(tok) { pre.last_seq()[tok] } else { 0 };
                    pre.last_seq().insert(tok, if p.snap is Some { p.sequence_number } else { prev })
                } else {
                    pre.last_seq()
                }
            },
        }
    }

    /// Routes one decoded packet: its token must be a decimal `u32` in the
    /// instrument table; then a quote is produced for a quote subscriber
    /// and a snapshot for a book subscriber, whose sequence number is
    /// recorded for the token.
    pub fn route_packet(&mut self, packet: &ParsedPacket, ts_init_ns: u64) -> (r: FrameOutcome)
        ensures
            Self::routed(old(self), final(self), *packet, ts_init_ns, r),
    {
        let tok = match parse_u32(packet.token.as_str()) {
            Some(t) => t,
            None => return FrameOutcome::BadToken { token: packet.token.clone() },
        };
        let id = match self.config.instrument_map.get(&tok) {
            Some(id) => id.clone(),
            None => return FrameOutcome::Unmapped { token: tok },
        };
        if !decodable_packet(packet) {
            return FrameOutcome::Undecodable { token: tok };
        }
        proof {
            lemma_text_set_holds(self.quote_subs@, id@);
            lemma_text_set_holds(self.book_subs@, id@);
        }
        let quote = if contains_text(&self.quote_subs, &id) {
            match packet_to_quote_tick(packet, ts_init_ns) {
                Ok(q) => q,
                Err(_) => None,
            }
        } else {
            None
        };
        let deltas = if contains_text(&self.book_subs, &id) {
            let mut last: i64 = match self.seq_map.get(&tok) {
                Some(v) => *v,
                None => 0,
            };
            let d = match packet_to_order_book_deltas(packet, &mut last, ts_init_ns) {
                Ok(d) => d,
                Err(_) => None,
            };
            self.seq_map.insert(tok, last);
            d
        } else {
            None
        };
        FrameOutcome::Routed { token: tok, instrument_id: id, quote, deltas }
    }

    /// What becomes of one binary frame received at `ts_init_ns`: dropped
    /// when it is not a packet, else routed as `route_packet` does.
    pub fn handle_binary_frame(&mut self, bytes: &[u8], ts_init_ns: u64) -> (r: FrameOutcome)
        ensures
            match frame_error(bytes@) {
                Some(e) => r matches FrameOutcome::Unparsed { error } && error == e && *final(self)
                    == *old(self),
                None => exists|p: ParsedPacket|
                    packet_matches(p, bytes@) && Self::routed(old(self), final(self), p, ts_init_ns, r),
            },
    {
        match parse_binary_packet(bytes) {
            Err(error) => FrameOutcome::Unparsed { error },
            Ok(packet) => self.route_packet(&packet, ts_init_ns),
        }
    }

    /// Whether `connect` still has to log in and open a stream.
    pub fn needs_connect(&self) -> (b: bool)
        ensures
            b == !self.spec_connected(),
    {
        !self.connected
    }

    /// Records a successful login and a new stream: connected, with the
    /// session's tokens and no snapshot seen yet.
    pub fn on_connected(&mut self, tokens: AuthTokens)
        ensures
            final(self).spec_connected(),
            final(self).spec_tokens() == Some(tokens),
            final(self).last_seq() == Map::<u32, i64>::empty(),
            *final(self).spec_config() == *old(self).spec_config(),
            final(self).quote_subs() == old(self).quote_subs(),
            final(self).book_subs() == old(self).book_subs(),
    {
        self.auth_tokens = Some(tokens);
        self.seq_map = HashMap::new();
        self.connected = true;
    }

    /// Stops the stream: the client is disconnected.
    pub fn stop(&mut self)
        ensures
            !final(self).spec_connected(),
            final(self).spec_tokens() == old(self).spec_tokens(),
            final(self).last_seq() == old(self).last_seq(),
            *final(self).spec_config() == *old(self).spec_config(),
            final(self).quote_subs() == old(self).quote_subs(),
            final(self).book_subs() == old(self).book_subs(),
    {
        self.connected = false;
    }

    /// Resets the client: disconnected and without session tokens.
    pub fn reset(&mut self)
        ensures
            !final(self).spec_connected(),
            final(self).spec_tokens() is None,
            final(self).last_seq() == old(self).last_seq(),
            *final(self).spec_config() == *old(self).spec_config(),
            final(self).quote_subs() == old(self).quote_subs(),
            final(self).book_subs() == old(self).book_subs(),
    {
        self.auth_tokens = None;
        self.connected = false;
    }

    /// The subscribe request: SnapQuote mode on the configured exchange
    /// type, with the decimal text of every token of the instrument table,
    /// each once, in the table's order.
    pub fn build_subscribe_payload(&self) -> (p: DataSubscribeRequest)
        ensures
            p.action == 1,
            p.mode == 3,
            p.exchange_type == self.spec_config().exchange_type,
            p.tokens@.len() == self.spec_config().instrument_map@.dom().len(),
            text_set(p.tokens@) == token_texts(self.spec_config().instrument_map@.dom()),
    {
        let mut tokens: Vec<String> = Vec::new();
        let ghost keys = self.config.instrument_map@.dom();
        let ghost ks0 = spec_keys_iter(&self.config.instrument_map).remaining();
        for k in it: self.config.instrument_map.keys()
            invariant
                it.seq() == ks0,
                tokens@.len() == it.index(),
                forall|j: int|
                    0 <= j < it.index() ==> (#[trigger] tokens@[j])@ == decimal_text(
                        *ks0[j] as nat,
                    ),
        {
            let mut t = String::new();
            push_decimal(&mut t, *k as u64);
            tokens.push(t);
        }
        proof {
            let ks = ks0.map_values(|r: &u32| *r);
            assert(tokens@.map_values(|s: String| s@) =~= ks.map_values(|k: u32| decimal_text(k as nat)));
            ks.lemma_to_set_map_commutes(|k: u32| decimal_text(k as nat));
            assert(ks0.unref() =~= ks);
            assert(ks.to_set() =~= keys);
        }
        DataSubscribeRequest { action: 1, mode: 3, exchange_type: self.config.exchange_type, tokens }
    }
}

/// Data goes only to subscribers: routing a packet yields a quote only for
/// an instrument whose quotes are subscribed, a snapshot only for one whose
/// book deltas are subscribed, and records a sequence number only then;
/// nothing else about the client changes.
pub proof fn law_only_subscribers_get_data(
    pre: &AngelOneDataClient,
    post: &AngelOneDataClient,
    p: ParsedPacket,
    ts_init_ns: u64,
    r: FrameOutcome,
)
    requires
        AngelOneDataClient::routed(pre, post, p, ts_init_ns, r),
    ensures
        r matches FrameOutcome::Routed { instrument_id, quote, .. } ==> (quote is Some
            ==> pre.quote_subs().contains(instrument_id@)),
        r matches FrameOutcome::Routed { instrument_id, deltas, .. } ==> (deltas is Some
            ==> pre.book_subs().contains(instrument_id@)),
        r matches FrameOutcome::Routed { instrument_id, .. } ==> (!pre.book_subs().contains(
            instrument_id@,
        ) ==> post.last_seq() == pre.last_seq()),
        !(r is Routed) ==> post.last_seq() == pre.last_seq(),
        post.quote_subs() == pre.quote_subs(),
        post.book_subs() == pre.book_subs(),
        post.spec_connected() == pre.spec_connected(),
{
}

} // verus!

//! The circuit breaker's decisions: when the heartbeat watchdog trips, what
//! the emergency sequence does, and the requests it sends.  Receiving
//! messages, the clock and the HTTP calls are driven outside.

use vstd::prelude::*;
use crate::auth::{header, headers_view};
use crate::decimal::{parse_u64, spec_parse_u64};
use crate::execution::{REST_BASE, RestRequest, endpoint_url};

verus! {

/// Endpoint the heartbeat publisher binds and the breaker subscribes to.
pub const ZMQ_ENDPOINT: &'static str = "tcp://127.0.0.1:5555";

/// Longest silence tolerated between two heartbeats, in nanoseconds (50 ms).
pub const HEARTBEAT_TIMEOUT_NS: u64 = 50_000_000;

/// How often the watchdog looks, in milliseconds.
pub const WATCHDOG_INTERVAL_MS: u64 = 10;

/// Startup grace period, in seconds, when none is configured.
pub const DEFAULT_GRACE_SECS: u64 = 10;

/// Public IP reported when it cannot be looked up.
pub const FALLBACK_PUBLIC_IP: &'static str = "0.0.0.0";

/// User agent of the emergency requests.
pub const USER_AGENT: &'static str = "AngelOneTradingBot/1.0";

/// The grace period in seconds: the configured value when it is a `u64`,
/// else 10.
pub open spec fn spec_grace_secs(setting: Option<Seq<char>>) -> u64 {
    match setting {
        Some(v) => match spec_parse_u64(v) {
            Some(n) => n,
            None => DEFAULT_GRACE_SECS,
        },
        None => DEFAULT_GRACE_SECS,
    }
}

/// Reads the grace period from the value of `CIRCUIT_BREAKER_GRACE_SECS`.
pub fn grace_secs_from(setting: Option<&str>) -> (g: u64)
    ensures
        g == spec_grace_secs(
            match setting {
                Some(v) => Some(v@),
                None => None,
            },
        ),
{
    match setting {
        Some(v) => match parse_u64(v) {
            Some(n) => n,
            None => DEFAULT_GRACE_SECS,
        },
        None => DEFAULT_GRACE_SECS,
    }
}

/// Name for what `str::trim` makes of a text.
pub uninterp spec fn trimmed(text: Seq<char>) -> Seq<char>;

/// `str::trim`: the text without leading and trailing Unicode white space.
/// Only that the result is a function of the text is stated.
#[verifier::external_body]
fn trim(text: &str) -> (r: String)
    ensures
        r@ == trimmed(text@),
{
    text.trim().to_string()
}

/// The session token to cancel with: `ANGEL_JWT_TOKEN` when it is set and
/// not empty, else the trimmed text of the token file when there is one,
/// else empty.
pub fn jwt_token_from(env_value: Option<String>, file_text: Option<String>) -> (t: String)
    ensures
        match env_value {
            Some(v) if v@.len() > 0 => t@ == v@,
            _ => match file_text {
                Some(f) => t@ == trimmed(f@),
                None => t@.len() == 0,
            },
        },
{
    let from_env = match env_value {
        Some(v) => v,
        None => String::new(),
    };
    if from_env.unicode_len() > 0 {
        return from_env;
    }
    match file_text {
        Some(f) => trim(f.as_str()),
        None => String::new(),
    }
}

/// The heartbeat watchdog: when the breaker started, when the last
/// heartbeat arrived, and how long the startup grace lasts (nanoseconds on
/// a monotonic clock).
#[derive(Debug, Clone, Copy, PartialEq, Eq)]
pub struct Watchdog {
    pub started_ns: u64,
    pub last_heartbeat_ns: u64,
    pub grace_ns: u64,
}

/// The watchdog trips after the grace period when the last heartbeat is
/// more than 50 ms old.
pub open spec fn spec_trips(w: Watchdog, now_ns: u64) -> bool {
    &&& now_ns - w.started_ns >= w.grace_ns
    &&& now_ns - w.last_heartbeat_ns > HEARTBEAT_TIMEOUT_NS
}

impl Watchdog {
    /// A watchdog armed at `now_ns`, counting that instant as a heartbeat.
    pub fn new(now_ns: u64, grace_secs: u64) -> (w: Self)
        ensures
            w.started_ns == now_ns,
            w.last_heartbeat_ns == now_ns,
            w.grace_ns == if grace_secs <= u64::MAX / 1_000_000_000 {
                grace_secs * 1_000_000_000
            } else {
                u64::MAX as int
            },
    {
        let grace_ns = if grace_secs <= u64::MAX / 1_000_000_000 {
            grace_secs * 1_000_000_000
        } else {
            u64::MAX
        };
        Watchdog { started_ns: now_ns, last_heartbeat_ns: now_ns, grace_ns }
    }

    /// Records a message received at `now_ns`; only a heartbeat resets the
    /// silence.
    pub fn on_message(&mut self, heartbeat: bool, now_ns: u64)
        ensures
            final(self).started_ns == old(self).started_ns,
            final(self).grace_ns == old(self).grace_ns,
            final(self).last_heartbeat_ns == if heartbeat {
                now_ns
            } else {
                old(self).last_heartbeat_ns
            },
    {
        if heartbeat {
            self.last_heartbeat_ns = now_ns;
        }
    }

    /// Whether the watchdog trips at `now_ns`.
    pub fn trips(&self, now_ns: u64) -> (b: bool)
        requires
            self.started_ns <= now_ns,
            self.last_heartbeat_ns <= now_ns,
        ensures
            b == spec_trips(*self, now_ns),
    {
        let in_grace = now_ns - self.started_ns < self.grace_ns;
        !in_grace && now_ns - self.last_heartbeat_ns > HEARTBEAT_TIMEOUT_NS
    }
}

/// The grace period protects startup: the watchdog never trips before it
/// has passed, and never while heartbeats keep coming every 50 ms.
pub proof fn law_watchdog_quiet(w: Watchdog, now_ns: u64)
    requires
        w.started_ns <= now_ns,
        w.last_heartbeat_ns <= now_ns,
        now_ns - w.started_ns < w.grace_ns || now_ns - w.last_heartbeat_ns <= HEARTBEAT_TIMEOUT_NS,
    ensures
        !spec_trips(w, now_ns),
{
}

/// What the emergency sequence does.
#[derive(Debug, Clone, Copy, PartialEq, Eq)]
pub enum PanicPlan {
    /// Dry-run: send nothing and exit.
    DryRunExit,
    /// No session token or API key: send nothing, ask for a human, exit.
    MissingAuthExit,
    /// Look up the public IP, cancel all orders, exit all positions, exit.
    CancelAndExit,
}

/// The emergency rule: dry-run first, then missing credentials, else act.
pub open spec fn spec_panic_plan(dry_run: bool, jwt: Seq<char>, api_key: Seq<char>) -> PanicPlan {
    if dry_run {
        PanicPlan::DryRunExit
    } else if jwt.len() == 0 || api_key.len() == 0 {
        PanicPlan::MissingAuthExit
    } else {
        PanicPlan::CancelAndExit
    }
}

/// Decides the emergency sequence.
pub fn panic_plan(dry_run: bool, jwt_token: &str, api_key: &str) -> (p: PanicPlan)
    ensures
        p == spec_panic_plan(dry_run, jwt_token@, api_key@),
{
    if dry_run {
        PanicPlan::DryRunExit
    } else if jwt_token.unicode_len() == 0 || api_key.unicode_len() == 0 {
        PanicPlan::MissingAuthExit
    } else {
        PanicPlan::CancelAndExit
    }
}

/// The public IP to report: the looked-up text, or `0.0.0.0` without one.
pub fn public_ip_or_fallback(looked_up: Option<String>) -> (ip: String)
    ensures
        ip@ == match looked_up {
            Some(t) => t@,
            None => FALLBACK_PUBLIC_IP@,
        },
{
    match looked_up {
        Some(t) => t,
        None => String::from_str(FALLBACK_PUBLIC_IP),
    }
}

/// The headers of an emergency request.
pub open spec fn spec_panic_headers(jwt: Seq<char>, api_key: Seq<char>, public_ip: Seq<char>) -> Seq<
    (Seq<char>, Seq<char>),
> {
    seq![
        ("Authorization"@, "Bearer "@ + jwt),
        ("X-PrivateKey"@, api_key),
        ("Content-Type"@, "application/json"@),
        ("Accept"@, "application/json"@),
        ("X-UserType"@, "USER"@),
        ("X-SourceID"@, "WEB"@),
        ("X-ClientLocalIP"@, "127.0.0.1"@),
        ("X-ClientPublicIP"@, public_ip),
        ("X-MACAddress"@, "00-00-00-00-00-00"@),
        ("User-Agent"@, USER_AGENT@),
    ]
}

fn panic_headers(jwt_token: &str, api_key: &str, public_ip: &str) -> (h: Vec<(String, String)>)
    ensures
        headers_view(h@) == spec_panic_headers(jwt_token@, api_key@, public_ip@),
{
    let mut bearer = String::from_str("Bearer ");
    bearer.append(jwt_token);
    let mut h: Vec<(String, String)> = Vec::with_capacity(10);
    h.push(header("Authorization", bearer));
    h.push(header("X-PrivateKey", String::from_str(api_key)));
    h.push(header("Content-Type", String::from_str("application/json")));
    h.push(header("Accept", String::from_str("application/json")));
    h.push(header("X-UserType", String::from_str("USER")));
    h.push(header("X-SourceID", String::from_str("WEB")));
    h.push(header("X-ClientLocalIP", String::from_str("127.0.0.1")));
    h.push(header("X-ClientPublicIP", String::from_str(public_ip)));
    h.push(header("X-MACAddress", String::from_str("00-00-00-00-00-00")));
    h.push(header("User-Agent", String::from_str(USER_AGENT)));
    assert(headers_view(h@) =~= spec_panic_headers(jwt_token@, api_key@, public_ip@));
    h
}

/// The two emergency requests, in order: cancel all orders, then exit all
/// positions, each posted with body `{}`.
pub fn panic_requests(jwt_token: &str, api_key: &str, public_ip: &str) -> (r: Vec<RestRequest>)
    ensures
        r@.len() == 2,
        r@[0].url@ == endpoint_url("/order/v1/cancelAllOrders"@),
        r@[1].url@ == endpoint_url("/order/v1/exitAllPositions"@),
        headers_view(r@[0].headers@) == spec_panic_headers(jwt_token@, api_key@, public_ip@),
        headers_view(r@[1].headers@) == spec_panic_headers(jwt_token@, api_key@, public_ip@),
{
    let mut cancel = String::from_str(REST_BASE);
    cancel.append("/order/v1/cancelAllOrders");
    let mut exit = String::from_str(REST_BASE);
    exit.append("/order/v1/exitAllPositions");
    let mut r: Vec<RestRequest> = Vec::with_capacity(2);
    r.push(RestRequest { url: cancel, headers: panic_headers(jwt_token, api_key, public_ip) });
    r.push(RestRequest { url: exit, headers: panic_headers(jwt_token, api_key, public_ip) });
    r
}

/// The body of each emergency request.
pub const PANIC_BODY: &'static str = "{}";

} // verus!

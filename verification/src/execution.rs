//! The decisions of the Angel One execution client: which REST request an
//! order or a cancellation becomes, whether the NSE risk gate stops it, and
//! whether dry-run mode keeps it from the exchange.  The client itself only
//! sends what these functions decide.

use vstd::prelude::*;
use vstd::hash_map::StringHashMap;
use crate::auth::{AuthTokens, header, headers_view};
use crate::orders::{
    OrderSide, OrderType, TimeInForce, order_type_str, side_str, spec_order_type_str,
    spec_side_str, spec_tif_str, tif_str,
};
use crate::risk::{NseRiskCheck, RiskCheckResult, RiskOutcome, RiskRejectionReason, spec_validate};

verus! {

/// REST base URL for order operations.
pub const REST_BASE: &'static str = "https://apiconnect.angelone.in/rest/secure/angelbroking";

/// Name for what `str::to_lowercase` makes of a text.
pub uninterp spec fn lowercase(text: Seq<char>) -> Seq<char>;

/// `str::to_lowercase`: the text with every character replaced by its
/// Unicode lowercase mapping.  Only that the result is a function of the
/// text is stated; the mapping itself is left to the name.
#[verifier::external_body]
fn to_lowercase(text: &str) -> (r: String)
    ensures
        r@ == lowercase(text@),
{
    text.to_lowercase()
}

/// Dry-run unless the setting, lowercased, is exactly `false`; an absent
/// setting means dry-run.
pub open spec fn spec_dry_run(setting: Option<Seq<char>>) -> bool {
    match setting {
        Some(v) => lowercase(v) != "false"@,
        None => true,
    }
}

/// Reads the dry-run flag from the value of `ANGEL_ONE_DRY_RUN`, if set.
pub fn dry_run_from_setting(setting: Option<&str>) -> (b: bool)
    ensures
        b == spec_dry_run(
            match setting {
                Some(v) => Some(v@),
                None => None,
            },
        ),
{
    match setting {
        Some(v) => {
            let lower = to_lowercase(v);
            let no = String::from_str("false");
            !(lower == no)
        },
        None => true,
    }
}

/// What the broker needs to place an order for one instrument.
#[derive(Debug, Clone)]
pub struct InstrumentMapping {
    /// Broker instrument token, e.g. `57516`.
    pub token: String,
    /// Broker trading symbol, e.g. `NIFTY25JUNFUT`.
    pub trading_symbol: String,
    /// Broker exchange, e.g. `NFO`, `NSE`, `BSE`.
    pub exchange: String,
    /// Expiry in UTC nanoseconds, for the risk checks; `None` without one.
    pub expiry_utc_ns: Option<i64>,
    /// The contract settles physically (stock F&O).
    pub is_physical_settlement: bool,
    /// Product type: `MIS`, `CARRYFORWARD` or `NRML`.
    pub product_type: String,
}

/// The broker fields of an instrument, as texts.
pub struct MappingModel {
    pub token: Seq<char>,
    pub trading_symbol: Seq<char>,
    pub exchange: Seq<char>,
    pub expiry_utc_ns: Option<i64>,
    pub is_physical_settlement: bool,
    pub product_type: Seq<char>,
}

impl View for InstrumentMapping {
    type V = MappingModel;

    open spec fn view(&self) -> MappingModel {
        MappingModel {
            token: self.token@,
            trading_symbol: self.trading_symbol@,
            exchange: self.exchange@,
            expiry_utc_ns: self.expiry_utc_ns,
            is_physical_settlement: self.is_physical_settlement,
            product_type: self.product_type@,
        }
    }
}

/// The fields of a submit-order command that the broker request needs.
/// Prices and quantity are given as the decimal text the trading engine
/// prints for them.
#[derive(Debug, Clone)]
pub struct OrderRequest {
    /// Engine instrument id, e.g. `NIFTY26JUNFUT.NSE`; keys the mapping table.
    pub instrument_id: String,
    /// Engine symbol, e.g. `NIFTY26JUNFUT`; keys the risk configuration.
    pub symbol: String,
    pub client_order_id: String,
    pub side: OrderSide,
    pub order_type: OrderType,
    pub time_in_force: TimeInForce,
    /// Quantity in whole units.
    pub quantity_units: u64,
    pub quantity_text: String,
    pub price_text: Option<String>,
    pub trigger_price_text: Option<String>,
}

/// Body of the broker's place-order request (field names are the JSON keys).
#[derive(Debug, Clone)]
pub struct PlaceOrderPayload {
    pub variety: String,
    pub tradingsymbol: String,
    pub symboltoken: String,
    pub transactiontype: String,
    pub exchange: String,
    pub ordertype: String,
    pub producttype: String,
    pub duration: String,
    pub price: String,
    pub triggerprice: String,
    pub squareoff: String,
    pub stoploss: String,
    pub quantity: String,
    pub ordertag: String,
}

/// Body of the broker's cancel-order request.
#[derive(Debug, Clone)]
pub struct CancelOrderPayload {
    pub variety: String,
    pub orderid: String,
}

/// Where to send a request and with which headers.
#[derive(Debug, Clone)]
pub struct RestRequest {
    pub url: String,
    pub headers: Vec<(String, String)>,
}

/// What becomes of a submitted order.
#[derive(Debug, Clone)]
pub enum SubmitDecision {
    /// The NSE risk gate rejected it; it is dropped.
    RiskRejected { reason: RiskRejectionReason, message: String },
    /// Dry-run: the payload is only logged.
    DryRun { payload: PlaceOrderPayload },
    /// Post the payload.
    Send { payload: PlaceOrderPayload, request: RestRequest },
}

/// What becomes of a cancellation.
#[derive(Debug, Clone)]
pub enum CancelDecision {
    DryRun { payload: CancelOrderPayload },
    Send { payload: CancelOrderPayload, request: RestRequest },
}

/// What becomes of a cancel-all command.
#[derive(Debug, Clone)]
pub enum CancelAllDecision {
    DryRun,
    Send { request: RestRequest },
}

/// Why a command could not be turned into a request.
#[derive(Debug, Clone, PartialEq, Eq)]
pub enum ExecutionError {
    /// The instrument has no broker mapping.
    NoInstrumentMapping { instrument_id: String },
    /// No session tokens: the client is not connected.
    NotConnected,
    /// A cancellation needs the venue order id.
    MissingVenueOrderId,
}

/// The headers of an authenticated request, as pairs of texts.
pub open spec fn spec_auth_headers(t: AuthTokens) -> Seq<(Seq<char>, Seq<char>)> {
    seq![
        ("Authorization"@, "Bearer "@ + t.jwt_token@),
        ("X-PrivateKey"@, t.api_key@),
        ("Content-Type"@, "application/json"@),
        ("Accept"@, "application/json"@),
        ("X-UserType"@, "USER"@),
        ("X-SourceID"@, "WEB"@),
        ("X-ClientLocalIP"@, "127.0.0.1"@),
        ("X-MACAddress"@, "00-00-00-00-00-00"@),
    ]
}

/// Text of an optional price: the engine's text, or `0` without one.
pub open spec fn price_or_zero(p: Option<String>) -> Seq<char> {
    match p {
        Some(t) => t@,
        None => "0"@,
    }
}

/// `p` is the place-order body for order `o` on mapping `m`.
pub open spec fn payload_matches(p: PlaceOrderPayload, o: OrderRequest, m: InstrumentMapping) -> bool {
    &&& p.variety@ == "NORMAL"@
    &&& p.tradingsymbol@ == m.trading_symbol@
    &&& p.symboltoken@ == m.token@
    &&& p.transactiontype@ == spec_side_str(o.side)
    &&& p.exchange@ == m.exchange@
    &&& p.ordertype@ == spec_order_type_str(o.order_type)
    &&& p.producttype@ == m.product_type@
    &&& p.duration@ == spec_tif_str(o.time_in_force)
    &&& p.price@ == price_or_zero(o.price_text)
    &&& p.triggerprice@ == price_or_zero(o.trigger_price_text)
    &&& p.squareoff@ == "0"@
    &&& p.stoploss@ == "0"@
    &&& p.quantity@ == o.quantity_text@
    &&& p.ordertag@ == o.client_order_id@
}

fn text_or_zero(t: &Option<String>) -> (r: String)
    ensures
        r@ == price_or_zero(*t),
{
    match t {
        Some(s) => s.clone(),
        None => String::from_str("0"),
    }
}

/// Builds the place-order body of `order` for the broker fields in `mapping`.
pub fn build_place_order_payload(order: &OrderRequest, mapping: &InstrumentMapping) -> (p:
    PlaceOrderPayload)
    ensures
        payload_matches(p, *order, *mapping),
{
    PlaceOrderPayload {
        variety: String::from_str("NORMAL"),
        tradingsymbol: mapping.trading_symbol.clone(),
        symboltoken: mapping.token.clone(),
        transactiontype: String::from_str(side_str(order.side)),
        exchange: mapping.exchange.clone(),
        ordertype: String::from_str(order_type_str(order.order_type)),
        producttype: mapping.product_type.clone(),
        duration: String::from_str(tif_str(order.time_in_force)),
        price: text_or_zero(&order.price_text),
        triggerprice: text_or_zero(&order.trigger_price_text),
        squareoff: String::from_str("0"),
        stoploss: String::from_str("0"),
        quantity: order.quantity_text.clone(),
        ordertag: order.client_order_id.clone(),
    }
}

/// The headers of an authenticated request for `tokens`.
pub fn auth_headers_for(tokens: &AuthTokens) -> (h: Vec<(String, String)>)
    ensures
        headers_view(h@) == spec_auth_headers(*tokens),
{
    let mut bearer = String::from_str("Bearer ");
    bearer.append(tokens.jwt_token.as_str());
    let mut h: Vec<(String, String)> = Vec::with_capacity(8);
    h.push(header("Authorization", bearer));
    h.push(header("X-PrivateKey", tokens.api_key.clone()));
    h.push(header("Content-Type", String::from_str("application/json")));
    h.push(header("Accept", String::from_str("application/json")));
    h.push(header("X-UserType", String::from_str("USER")));
    h.push(header("X-SourceID", String::from_str("WEB")));
    h.push(header("X-ClientLocalIP", String::from_str("127.0.0.1")));
    h.push(header("X-MACAddress", String::from_str("00-00-00-00-00-00")));
    assert(headers_view(h@) =~= spec_auth_headers(*tokens));
    h
}

/// The URL of an order endpoint: the REST base followed by `path`.
pub open spec fn endpoint_url(path: Seq<char>) -> Seq<char> {
    REST_BASE@ + path
}

fn endpoint(path: &str) -> (u: String)
    ensures
        u@ == endpoint_url(path@),
{
    let mut u = String::from_str(REST_BASE);
    u.append(path);
    u
}

/// Configuration of the execution client.
pub struct AngelOneExecutionClientConfig {
    pub client_id: String,
    pub venue: String,
    pub account_id: String,
    /// Log requests instead of sending them.
    pub dry_run: bool,
    /// Broker fields by engine instrument id.
    pub instrument_map: StringHashMap<InstrumentMapping>,
    /// Milliseconds to wait for an order acknowledgement.
    pub ack_timeout_ms: u64,
    /// Pre-trade risk gate run before every order, when present.
    pub nse_risk: Option<NseRiskCheck>,
}

impl AngelOneExecutionClientConfig {
    /// A configuration with the dry-run flag read from the value of
    /// `ANGEL_ONE_DRY_RUN` (dry-run unless it is `false` in any case), a
    /// 5-second acknowledgement timeout and no risk gate.
    pub fn new(
        client_id: String,
        venue: String,
        account_id: String,
        instrument_map: StringHashMap<InstrumentMapping>,
        dry_run_setting: Option<&str>,
    ) -> (c: Self)
        ensures
            c.client_id@ == client_id@,
            c.venue@ == venue@,
            c.account_id@ == account_id@,
            c.instrument_map@ == instrument_map@,
            c.dry_run == spec_dry_run(
                match dry_run_setting {
                    Some(v) => Some(v@),
                    None => None,
                },
            ),
            c.ack_timeout_ms == 5_000,
            c.nse_risk is None,
    {
        let dry_run = dry_run_from_setting(dry_run_setting);
        Self {
            client_id,
            venue,
            account_id,
            dry_run,
            instrument_map,
            ack_timeout_ms: 5_000,
            nse_risk: None,
        }
    }

    /// The same configuration with `check` run before every order.
    pub fn with_nse_risk(self, check: NseRiskCheck) -> (c: Self)
        ensures
            c.nse_risk == Some(check),
            c.client_id == self.client_id,
            c.venue == self.venue,
            c.account_id == self.account_id,
            c.dry_run == self.dry_run,
            c.instrument_map@ == self.instrument_map@,
            c.ack_timeout_ms == self.ack_timeout_ms,
    {
        let mut s = self;
        s.nse_risk = Some(check);
        s
    }
}

/// State of the execution client.
pub struct AngelOneExecutionClient {
    config: AngelOneExecutionClientConfig,
    auth_tokens: Option<AuthTokens>,
    connected: bool,
}

impl AngelOneExecutionClient {
    /// The client's configuration.
    pub closed spec fn spec_config(&self) -> &AngelOneExecutionClientConfig {
        &self.config
    }

    /// The session tokens, once connected.
    pub closed spec fn spec_tokens(&self) -> Option<AuthTokens> {
        self.auth_tokens
    }

    /// Whether the client is connected.
    pub closed spec fn spec_connected(&self) -> bool {
        self.connected
    }

    /// A disconnected client without tokens.
    pub fn new(config: AngelOneExecutionClientConfig) -> (c: Self)
        ensures
            *c.spec_config() == config,
            c.spec_tokens() is None,
            !c.spec_connected(),
    {
        Self { config, auth_tokens: None, connected: false }
    }

    /// The broker's transaction type for `side`.
    pub fn side_str(side: OrderSide) -> (s: &'static str)
        ensures
            s@ == spec_side_str(side),
    {
        side_str(side)
    }

    /// The broker's order type for `order_type`.
    pub fn order_type_str(order_type: OrderType) -> (s: &'static str)
        ensures
            s@ == spec_order_type_str(order_type),
    {
        order_type_str(order_type)
    }

    /// The broker's duration for `tif`.
    pub fn tif_str(tif: TimeInForce) -> (s: &'static str)
        ensures
            s@ == spec_tif_str(tif),
    {
        tif_str(tif)
    }

    /// Whether the client is connected.
    pub fn is_connected(&self) -> (b: bool)
        ensures
            b == self.spec_connected(),
    {
        self.connected
    }

    /// The configuration.
    pub fn config(&self) -> (c: &AngelOneExecutionClientConfig)
        ensures
            *c == *self.spec_config(),
    {
        &self.config
    }

    /// The engine's client id.
    pub fn client_id(&self) -> (s: &String)
        ensures
            *s == self.spec_config().client_id,
    {
        &self.config.client_id
    }

    /// The venue the client trades on.
    pub fn venue(&self) -> (s: &String)
        ensures
            *s == self.spec_config().venue,
    {
        &self.config.venue
    }

    /// The broker account id.
    pub fn account_id(&self) -> (s: &String)
        ensures
            *s == self.spec_config().account_id,
    {
        &self.config.account_id
    }

    /// Whether `connect` still has to log in: only when not connected.
    pub fn needs_login(&self) -> (b: bool)
        ensures
            b == !self.spec_connected(),
    {
        !self.connected
    }

    /// Records a successful login.
    pub fn on_connected(&mut self, tokens: AuthTokens)
        ensures
            final(self).spec_tokens() == Some(tokens),
            final(self).spec_connected(),
            *final(self).spec_config() == *old(self).spec_config(),
    {
        self.auth_tokens = Some(tokens);
        self.connected = true;
    }

    /// Stops the client: it is no longer connected (its tokens are kept).
    pub fn stop(&mut self)
        ensures
            !final(self).spec_connected(),
            final(self).spec_tokens() == old(self).spec_tokens(),
            *final(self).spec_config() == *old(self).spec_config(),
    {
        self.connected = false;
    }

    /// The authenticated headers, or `NotConnected` without tokens.
    pub fn auth_headers(&self) -> (r: Result<Vec<(String, String)>, ExecutionError>)
        ensures
            match self.spec_tokens() {
                Some(t) => r matches Ok(h) && headers_view(h@) == spec_auth_headers(t),
                None => r matches Err(ExecutionError::NotConnected),
            },
    {
        match &self.auth_tokens {
            Some(t) => Ok(auth_headers_for(t)),
            None => Err(ExecutionError::NotConnected),
        }
    }

    /// Decides what becomes of an order submitted at `now_ns`.
    ///
    /// Fails without a mapping for the instrument.  With a risk gate, an
    /// order it rejects is dropped (`RiskRejected`).  Otherwise the payload
    /// is built; in dry-run it is only logged, else it is posted to the
    /// place-order endpoint, which needs session tokens.
    pub fn submit_order(&self, order: &OrderRequest, now_ns: i64) -> (r: Result<
        SubmitDecision,
        ExecutionError,
    >)
        ensures
            ({
                let cfg = self.spec_config();
                let key = order.instrument_id@;
                if !cfg.instrument_map@.contains_key(key) {
                    r matches Err(ExecutionError::NoInstrumentMapping { instrument_id })
                        && instrument_id@ == key
                } else {
                    let m = cfg.instrument_map@[key];
                    let gate = match cfg.nse_risk {
                        Some(risk) => spec_validate(
                            risk.spec_config(),
                            order.symbol@,
                            order.quantity_units,
                            m.expiry_utc_ns,
                            now_ns,
                            m.is_physical_settlement,
                        ),
                        None => RiskOutcome::Approved,
                    };
                    if gate is Rejected {
                        r matches Ok(SubmitDecision::RiskRejected { reason, message })
                            && gate == (RiskOutcome::Rejected {
                            reason: reason@,
                            message: message@,
                        })
                    } else if cfg.dry_run {
                        r matches Ok(SubmitDecision::DryRun { payload }) && payload_matches(
                            payload,
                            *order,
                            m,
                        )
                    } else {
                        match self.spec_tokens() {
                            None => r matches Err(ExecutionError::NotConnected),
                            Some(t) => r matches Ok(SubmitDecision::Send { payload, request })
                                && payload_matches(payload, *order, m) && request.url@
                                == endpoint_url("/order/v1/placeOrder"@) && headers_view(
                                request.headers@,
                            ) == spec_auth_headers(t),
                        }
                    }
                }
            }),
            self.spec_config().dry_run ==> !(r matches Ok(SubmitDecision::Send { .. })),
    {
        let mapping = match self.config.instrument_map.get(order.instrument_id.as_str()) {
            Some(m) => m,
            None => {
                return Err(
                    ExecutionError::NoInstrumentMapping {
                        instrument_id: order.instrument_id.clone(),
                    },
                );
            },
        };
        if let Some(risk) = &self.config.nse_risk {
            let verdict = risk.validate(
                order.symbol.as_str(),
                order.quantity_units,
                mapping.expiry_utc_ns,
                now_ns,
                mapping.is_physical_settlement,
            );
            match verdict {
                RiskCheckResult::Approved => {},
                RiskCheckResult::Rejected { reason, message } => {
                    return Ok(SubmitDecision::RiskRejected { reason, message });
                },
            }
        }
        let payload = build_place_order_payload(order, mapping);
        if self.config.dry_run {
            return Ok(SubmitDecision::DryRun { payload });
        }
        let headers = match self.auth_headers() {
            Ok(h) => h,
            Err(e) => return Err(e),
        };
        let url = endpoint("/order/v1/placeOrder");
        Ok(SubmitDecision::Send { payload, request: RestRequest { url, headers } })
    }

    /// Decides what becomes of a cancellation of `venue_order_id`.
    ///
    /// Fails without a venue order id.  The payload is
    /// `{variety: NORMAL, orderid}`; in dry-run it is only logged, else it
    /// is posted to the cancel-order endpoint, which needs session tokens.
    pub fn cancel_order(&self, venue_order_id: Option<String>) -> (r: Result<
        CancelDecision,
        ExecutionError,
    >)
        ensures
            match venue_order_id {
                None => r matches Err(ExecutionError::MissingVenueOrderId),
                Some(id) => if self.spec_config().dry_run {
                    r matches Ok(CancelDecision::DryRun { payload }) && payload.variety@
                        == "NORMAL"@ && payload.orderid@ == id@
                } else {
                    match self.spec_tokens() {
                        None => r matches Err(ExecutionError::NotConnected),
                        Some(t) => r matches Ok(CancelDecision::Send { payload, request })
                            && payload.variety@ == "NORMAL"@ && payload.orderid@ == id@
                            && request.url@ == endpoint_url("/order/v1/cancelOrder"@)
                            && headers_view(request.headers@) == spec_auth_headers(t),
                    }
                },
            },
    {
        let id = match venue_order_id {
            Some(id) => id,
            None => return Err(ExecutionError::MissingVenueOrderId),
        };
        let payload = CancelOrderPayload { variety: String::from_str("NORMAL"), orderid: id };
        if self.config.dry_run {
            return Ok(CancelDecision::DryRun { payload });
        }
        let headers = match self.auth_headers() {
            Ok(h) => h,
            Err(e) => return Err(e),
        };
        let url = endpoint("/order/v1/cancelOrder");
        Ok(CancelDecision::Send { payload, request: RestRequest { url, headers } })
    }

    /// Decides what becomes of a cancel-all command: nothing in dry-run,
    /// else a post to the cancel-all endpoint, which needs session tokens.
    pub fn cancel_all_orders(&self) -> (r: Result<CancelAllDecision, ExecutionError>)
        ensures
            if self.spec_config().dry_run {
                r matches Ok(CancelAllDecision::DryRun)
            } else {
                match self.spec_tokens() {
                    None => r matches Err(ExecutionError::NotConnected),
                    Some(t) => r matches Ok(CancelAllDecision::Send { request }) && request.url@
                        == endpoint_url("/order/v1/cancelAllOrders"@) && headers_view(
                        request.headers@,
                    ) == spec_auth_headers(t),
                }
            },
    {
        if self.config.dry_run {
            return Ok(CancelAllDecision::DryRun);
        }
        let headers = match self.auth_headers() {
            Ok(h) => h,
            Err(e) => return Err(e),
        };
        let url = endpoint("/order/v1/cancelAllOrders");
        Ok(CancelAllDecision::Send { request: RestRequest { url, headers } })
    }
}

/// Time in force reaches the broker: an immediate-or-cancel order is sent
/// with duration `IOC`, and every other order with `DAY`, so an IOC order
/// never rests as a day order.
pub proof fn law_duration_follows_time_in_force(
    p: PlaceOrderPayload,
    o: OrderRequest,
    m: InstrumentMapping,
)
    requires
        payload_matches(p, o, m),
    ensures
        o.time_in_force == TimeInForce::Ioc ==> p.duration@ == "IOC"@,
        o.time_in_force != TimeInForce::Ioc ==> p.duration@ == "DAY"@,
        (p.duration@ == "IOC"@) <==> (o.time_in_force == TimeInForce::Ioc),
{
    reveal_strlit("IOC");
    reveal_strlit("DAY");
    assert("DAY"@ != "IOC"@) by {
        assert("DAY"@[0] == 'D');
        assert("IOC"@[0] == 'I');
    }
}

} // verus!

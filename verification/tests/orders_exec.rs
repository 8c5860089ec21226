use nse_pipeline::auth::AuthTokens;
use nse_pipeline::config::{build_instrument_maps, TradingInstrument};
use nse_pipeline::execution::{
    build_place_order_payload, dry_run_from_setting, AngelOneExecutionClient,
    AngelOneExecutionClientConfig, CancelAllDecision, CancelDecision, ExecutionError,
    InstrumentMapping, OrderRequest, SubmitDecision,
};
use nse_pipeline::orders::{OrderSide, OrderType, TimeInForce};
use nse_pipeline::risk::{InstrumentRiskConfig, NseRiskCheck, NseRiskConfig, RiskRejectionReason};

fn nifty_mapping() -> InstrumentMapping {
    InstrumentMapping {
        token: "57516".to_string(),
        trading_symbol: "NIFTY25JUNFUT".to_string(),
        exchange: "NFO".to_string(),
        expiry_utc_ns: None,
        is_physical_settlement: false,
        product_type: "CARRYFORWARD".to_string(),
    }
}

fn make_config(dry_run_setting: Option<&str>) -> AngelOneExecutionClientConfig {
    let mut map = build_instrument_maps(&[], "NSE").exec_map;
    map.insert("NIFTY25JUNFUT.NSE".to_string(), nifty_mapping());
    AngelOneExecutionClientConfig::new(
        "ANGEL-TEST".to_string(),
        "NSE".to_string(),
        "ANGEL-A321480".to_string(),
        map,
        dry_run_setting,
    )
}

fn tokens() -> AuthTokens {
    AuthTokens {
        jwt_token: "jwt".to_string(),
        feed_token: "feed".to_string(),
        refresh_token: "refresh".to_string(),
        api_key: "key".to_string(),
        client_id: "A1".to_string(),
    }
}

fn order(qty: u64) -> OrderRequest {
    OrderRequest {
        instrument_id: "NIFTY25JUNFUT.NSE".to_string(),
        symbol: "NIFTY25JUNFUT".to_string(),
        client_order_id: "O-1".to_string(),
        side: OrderSide::Buy,
        order_type: OrderType::Limit,
        time_in_force: TimeInForce::Day,
        quantity_units: qty,
        quantity_text: qty.to_string(),
        price_text: Some("23500.05".to_string()),
        trigger_price_text: None,
    }
}

#[test]
fn config_dry_run_defaults_true() {
    let config = make_config(None);
    assert!(config.dry_run, "dry_run should default to true");
}

#[test]
fn client_identity_fields() {
    let client = AngelOneExecutionClient::new(make_config(None));
    assert_eq!(client.client_id(), "ANGEL-TEST");
    assert_eq!(client.venue(), "NSE");
    assert_eq!(client.account_id(), "ANGEL-A321480");
    assert!(!client.is_connected());
}

#[test]
fn side_str_mappings() {
    assert_eq!(AngelOneExecutionClient::side_str(OrderSide::Buy), "BUY");
    assert_eq!(AngelOneExecutionClient::side_str(OrderSide::Sell), "SELL");
}

#[test]
fn order_type_str_mappings() {
    assert_eq!(AngelOneExecutionClient::order_type_str(OrderType::Market), "MARKET");
    assert_eq!(AngelOneExecutionClient::order_type_str(OrderType::Limit), "LIMIT");
}

#[test]
fn dry_run_only_off_for_false_in_any_case() {
    assert!(dry_run_from_setting(None));
    assert!(dry_run_from_setting(Some("true")));
    assert!(dry_run_from_setting(Some("no")));
    assert!(!dry_run_from_setting(Some("false")));
    assert!(!dry_run_from_setting(Some("FALSE")));
    assert!(!dry_run_from_setting(Some("False")));
}

#[test]
fn payload_fields_follow_order_and_mapping() {
    let p = build_place_order_payload(&order(75), &nifty_mapping());
    assert_eq!(p.variety, "NORMAL");
    assert_eq!(p.tradingsymbol, "NIFTY25JUNFUT");
    assert_eq!(p.symboltoken, "57516");
    assert_eq!(p.transactiontype, "BUY");
    assert_eq!(p.exchange, "NFO");
    assert_eq!(p.ordertype, "LIMIT");
    assert_eq!(p.producttype, "CARRYFORWARD");
    assert_eq!(p.duration, "DAY");
    assert_eq!(p.price, "23500.05");
    assert_eq!(p.triggerprice, "0");
    assert_eq!(p.squareoff, "0");
    assert_eq!(p.stoploss, "0");
    assert_eq!(p.quantity, "75");
    assert_eq!(p.ordertag, "O-1");
}

#[test]
fn submit_without_mapping_fails() {
    let client = AngelOneExecutionClient::new(make_config(None));
    let mut o = order(75);
    o.instrument_id = "BANKNIFTY.NSE".to_string();
    assert_eq!(
        client.submit_order(&o, 0).unwrap_err(),
        ExecutionError::NoInstrumentMapping { instrument_id: "BANKNIFTY.NSE".to_string() }
    );
}

#[test]
fn submit_in_dry_run_never_sends() {
    let mut client = AngelOneExecutionClient::new(make_config(None));
    assert!(client.needs_login());
    client.on_connected(tokens());
    assert!(!client.needs_login());
    assert!(matches!(client.submit_order(&order(75), 0), Ok(SubmitDecision::DryRun { .. })));
}

#[test]
fn submit_live_needs_tokens_then_posts() {
    let client = AngelOneExecutionClient::new(make_config(Some("false")));
    assert_eq!(client.submit_order(&order(75), 0).unwrap_err(), ExecutionError::NotConnected);
    let mut client = client;
    client.on_connected(tokens());
    match client.submit_order(&order(75), 0).unwrap() {
        SubmitDecision::Send { request, payload } => {
            assert_eq!(
                request.url,
                "https://apiconnect.angelone.in/rest/secure/angelbroking/order/v1/placeOrder"
            );
            assert_eq!(request.headers[0], ("Authorization".to_string(), "Bearer jwt".to_string()));
            assert_eq!(request.headers[1], ("X-PrivateKey".to_string(), "key".to_string()));
            assert_eq!(request.headers.len(), 8);
            assert_eq!(payload.quantity, "75");
        }
        other => panic!("expected a send, got {other:?}"),
    }
}

#[test]
fn risk_gate_drops_fractional_lots() {
    let mut risk = NseRiskConfig::default();
    risk.instruments.insert(
        "NIFTY25JUNFUT".to_string(),
        InstrumentRiskConfig { lot_size: 75, freeze_qty: 45_000, physical_settlement: false },
    );
    let cfg = make_config(Some("false")).with_nse_risk(NseRiskCheck::new(risk));
    let mut client = AngelOneExecutionClient::new(cfg);
    client.on_connected(tokens());
    match client.submit_order(&order(76), 0).unwrap() {
        SubmitDecision::RiskRejected { reason, .. } => {
            assert!(matches!(reason, RiskRejectionReason::InvalidLotSize { qty: 76, lot_size: 75, .. }))
        }
        other => panic!("expected a rejection, got {other:?}"),
    }
    assert!(matches!(client.submit_order(&order(150), 0), Ok(SubmitDecision::Send { .. })));
}

#[test]
fn cancel_needs_venue_order_id() {
    let client = AngelOneExecutionClient::new(make_config(None));
    assert_eq!(client.cancel_order(None).unwrap_err(), ExecutionError::MissingVenueOrderId);
    match client.cancel_order(Some("V-9".to_string())).unwrap() {
        CancelDecision::DryRun { payload } => {
            assert_eq!(payload.variety, "NORMAL");
            assert_eq!(payload.orderid, "V-9");
        }
        other => panic!("expected a dry run, got {other:?}"),
    }
}

#[test]
fn cancel_all_live_posts_to_cancel_all() {
    let mut client = AngelOneExecutionClient::new(make_config(Some("false")));
    assert_eq!(client.cancel_all_orders().unwrap_err(), ExecutionError::NotConnected);
    client.on_connected(tokens());
    match client.cancel_all_orders().unwrap() {
        CancelAllDecision::Send { request } => assert!(request.url.ends_with("/order/v1/cancelAllOrders")),
        other => panic!("expected a send, got {other:?}"),
    }
    client.stop();
    assert!(!client.is_connected());
}

#[test]
fn trading_instruments_build_all_three_tables() {
    let entries = vec![
        TradingInstrument {
            symbol: "NIFTY26JUNFUT".to_string(),
            token: 57516,
            trading_symbol: "NIFTY26JUNFUT".to_string(),
            exchange: "NFO".to_string(),
            expiry_utc: Some("2026-06-26T15:30:00Z".to_string()),
            is_physical_settlement: false,
            product_type: "CARRYFORWARD".to_string(),
        },
        TradingInstrument {
            symbol: "INFY".to_string(),
            token: 1594,
            trading_symbol: "INFY-EQ".to_string(),
            exchange: "NSE".to_string(),
            expiry_utc: Some("not a date".to_string()),
            is_physical_settlement: false,
            product_type: "MIS".to_string(),
        },
    ];
    let maps = build_instrument_maps(&entries, "NSE");
    assert_eq!(maps.data_map.get(&57516).unwrap(), "NIFTY26JUNFUT.NSE");
    assert_eq!(maps.data_map.get(&1594).unwrap(), "INFY.NSE");
    assert_eq!(*maps.exchange_map.get(&57516).unwrap(), 2);
    assert_eq!(*maps.exchange_map.get(&1594).unwrap(), 1);
    let fut = maps.exec_map.get("NIFTY26JUNFUT.NSE").unwrap();
    assert_eq!(fut.token, "57516");
    assert_eq!(fut.expiry_utc_ns, Some(1_782_487_800_000_000_000));
    let infy = maps.exec_map.get("INFY.NSE").unwrap();
    assert_eq!(infy.expiry_utc_ns, None);
    assert_eq!(infy.product_type, "MIS");
}

use std::collections::HashMap;

use nse_pipeline::auth::AuthTokens;
use nse_pipeline::config::{InstrumentEntry, InstrumentsConfig};
use nse_pipeline::data_client::{
    stream_headers, AngelOneDataClient, AngelOneDataClientConfig, FrameOutcome, SMART_STREAM_URL,
};
use nse_pipeline::factories::{AngelOneDataClientFactory, AngelOneExecClientFactory};
use nse_pipeline::ingest::{
    after_session, count_tick, fallback_subscription, header_hex, ingest_headers,
    on_stream_message, subscribe_message, subscription_from_instruments, ReconnectAction,
    StreamInstrument, StreamMessage, StreamStep,
};
use nse_pipeline::parser::ParseError;

fn tokens() -> AuthTokens {
    AuthTokens {
        jwt_token: "jwt".to_string(),
        feed_token: "feed".to_string(),
        refresh_token: "refresh".to_string(),
        api_key: "key".to_string(),
        client_id: "A1".to_string(),
    }
}

fn depth_bytes(flag: u16, qty: i64, price: i64, orders: u16) -> Vec<u8> {
    let mut v = Vec::new();
    v.extend_from_slice(&flag.to_le_bytes());
    v.extend_from_slice(&qty.to_le_bytes());
    v.extend_from_slice(&price.to_le_bytes());
    v.extend_from_slice(&orders.to_le_bytes());
    v
}

fn snap_frame(token: &[u8], seq: i64) -> Vec<u8> {
    let mut data = vec![0u8; 379];
    data[0] = 3;
    data[1] = 2;
    data[2..2 + token.len()].copy_from_slice(token);
    data[27..35].copy_from_slice(&seq.to_le_bytes());
    data[35..43].copy_from_slice(&1_700_000_000_000i64.to_le_bytes());
    let mut depth = Vec::new();
    depth.extend(depth_bytes(0, 4, 250_100, 1));
    depth.extend(depth_bytes(1, 6, 249_900, 2));
    for _ in 0..8 {
        depth.extend(depth_bytes(1, 0, 0, 0));
    }
    data[147..347].copy_from_slice(&depth);
    data
}

fn client() -> AngelOneDataClient {
    let mut map = HashMap::new();
    map.insert(62329u32, "NIFTY26JUNFUT.NSE".to_string());
    map.insert(26009u32, "NIFTY50.NSE".to_string());
    AngelOneDataClient::new(AngelOneDataClientConfig::new(
        "ANGEL_ONE".to_string(),
        "NSE".to_string(),
        map,
        2,
    ))
}

#[test]
fn data_config_uses_smart_stream() {
    let c = AngelOneDataClientConfig::new("A".to_string(), "NSE".to_string(), HashMap::new(), 1);
    assert_eq!(c.ws_url, SMART_STREAM_URL);
    assert_eq!(c.ws_url, "wss://smartapisocket.angelone.in/smart-stream");
}

#[test]
fn subscribe_payload_lists_every_token_once() {
    let c = client();
    let p = c.build_subscribe_payload();
    assert_eq!(p.action, 1);
    assert_eq!(p.mode, 3);
    assert_eq!(p.exchange_type, 2);
    let mut toks = p.tokens.clone();
    toks.sort();
    assert_eq!(toks, vec!["26009".to_string(), "62329".to_string()]);
}

#[test]
fn frames_route_only_to_subscribers() {
    let mut c = client();
    let frame = snap_frame(b"62329", 7);
    match c.handle_binary_frame(&frame, 5) {
        FrameOutcome::Routed { token, instrument_id, quote, deltas } => {
            assert_eq!(token, 62329);
            assert_eq!(instrument_id, "NIFTY26JUNFUT.NSE");
            assert!(quote.is_none());
            assert!(deltas.is_none());
        }
        other => panic!("unexpected {other:?}"),
    }
    c.subscribe_quotes("NIFTY26JUNFUT.NSE".to_string());
    c.subscribe_book_deltas("NIFTY26JUNFUT.NSE".to_string());
    match c.handle_binary_frame(&frame, 5) {
        FrameOutcome::Routed { quote, deltas, .. } => {
            let q = quote.unwrap();
            assert_eq!(q.bid_price_raw, 249_900);
            assert_eq!(q.ask_price_raw, 250_100);
            assert_eq!(q.ts_init_ns, 5);
            assert_eq!(deltas.unwrap().len(), 3);
        }
        other => panic!("unexpected {other:?}"),
    }
    c.unsubscribe_quotes(&"NIFTY26JUNFUT.NSE".to_string());
    match c.handle_binary_frame(&frame, 5) {
        FrameOutcome::Routed { quote, deltas, .. } => {
            assert!(quote.is_none());
            assert!(deltas.is_some());
        }
        other => panic!("unexpected {other:?}"),
    }
}

#[test]
fn frames_that_do_not_route() {
    let mut c = client();
    assert!(matches!(
        c.handle_binary_frame(&[0u8; 10], 0),
        FrameOutcome::Unparsed { error: ParseError::TooShort { expected: 51, actual: 10 } }
    ));
    assert!(matches!(c.handle_binary_frame(&snap_frame(b"99999", 1), 0), FrameOutcome::Unmapped { token: 99999 }));
    match c.handle_binary_frame(&snap_frame(b"NIFTY", 1), 0) {
        FrameOutcome::BadToken { token } => assert_eq!(token, "NIFTY"),
        other => panic!("unexpected {other:?}"),
    }
}

#[test]
fn connect_and_reset_states() {
    let mut c = client();
    assert!(c.needs_connect());
    assert!(c.is_disconnected());
    c.on_connected(tokens());
    assert!(c.is_connected());
    assert!(!c.needs_connect());
    c.stop();
    assert!(!c.is_connected());
    c.reset();
    assert!(c.needs_connect());
    assert_eq!(c.client_id(), "ANGEL_ONE");
    assert_eq!(c.venue(), "NSE");
}

#[test]
fn stream_headers_use_feed_token() {
    let h = stream_headers(&tokens());
    assert_eq!(
        h,
        vec![
            ("Authorization".to_string(), "feed".to_string()),
            ("x-client-code".to_string(), "A1".to_string()),
            ("x-feed-token".to_string(), "feed".to_string()),
        ]
    );
}

#[test]
fn instruments_config_into_map_last_wins() {
    let cfg = InstrumentsConfig {
        instruments: vec![
            InstrumentEntry { token: 26009, symbol: "NIFTY50-INDEX".to_string(), venue: "NSE".to_string() },
            InstrumentEntry { token: 1594, symbol: "INFY".to_string(), venue: "NSE".to_string() },
            InstrumentEntry { token: 26009, symbol: "NIFTY".to_string(), venue: "NSE".to_string() },
        ],
    };
    let m = cfg.into_map();
    assert_eq!(m.len(), 2);
    assert_eq!(m[&26009], "NIFTY.NSE");
    assert_eq!(m[&1594], "INFY.NSE");
}

#[test]
fn factories_name_and_build() {
    let f = AngelOneDataClientFactory;
    assert_eq!(f.name(), "ANGEL_ONE");
    assert_eq!(f.config_type(), "AngelOneDataLiveConfig");
    let c = f.create(AngelOneDataClientConfig::new("X".to_string(), "NSE".to_string(), HashMap::new(), 1));
    assert!(!c.is_connected());
    let e = AngelOneExecClientFactory;
    assert_eq!(e.name(), "ANGEL_ONE");
    assert_eq!(e.config_type(), "AngelOneExecLiveConfig");
}

#[test]
fn fallback_is_nifty_50_snapquote() {
    let c = fallback_subscription();
    assert_eq!(c.mode, 3);
    assert_eq!(c.buckets.len(), 1);
    assert_eq!(c.buckets[0].exchange_type, 1);
    assert_eq!(c.buckets[0].tokens, vec!["26009".to_string()]);
}

#[test]
fn subscription_groups_by_exchange_type() {
    let insts = vec![
        StreamInstrument { token: 26009, exchange: "NSE".to_string() },
        StreamInstrument { token: 57516, exchange: "NFO".to_string() },
        StreamInstrument { token: 1594, exchange: "BSE".to_string() },
        StreamInstrument { token: 62329, exchange: "NFO".to_string() },
    ];
    let c = subscription_from_instruments(&insts);
    assert_eq!(c.mode, 3);
    assert_eq!(c.buckets.len(), 2);
    assert_eq!(c.buckets[0].exchange_type, 1);
    assert_eq!(c.buckets[0].tokens, vec!["26009".to_string(), "1594".to_string()]);
    assert_eq!(c.buckets[1].exchange_type, 2);
    assert_eq!(c.buckets[1].tokens, vec!["57516".to_string(), "62329".to_string()]);
    let m = subscribe_message(&c);
    assert_eq!(m.correlation_id, "phase0_sub");
    assert_eq!(m.action, 1);
    assert_eq!(m.mode, 3);
    assert_eq!(m.token_list.len(), 2);
    assert_eq!(m.token_list[1].tokens, vec!["57516".to_string(), "62329".to_string()]);
}

#[test]
fn empty_instrument_list_has_no_buckets() {
    assert!(subscription_from_instruments(&vec![]).buckets.is_empty());
}

#[test]
fn ingest_headers_bearer_and_keys() {
    let h = ingest_headers(&tokens());
    assert_eq!(h[0], ("Authorization".to_string(), "Bearer jwt".to_string()));
    assert_eq!(h[1], ("x-api-key".to_string(), "key".to_string()));
    assert_eq!(h[2], ("x-client-code".to_string(), "A1".to_string()));
    assert_eq!(h[3], ("x-feed-token".to_string(), "feed".to_string()));
}

#[test]
fn reconnect_backoff_doubles_then_gives_up() {
    let mut attempts = 0u32;
    let mut delays = Vec::new();
    loop {
        let (next, action) = after_session(attempts, true);
        attempts = next;
        match action {
            ReconnectAction::RetryAfter { delay_ms } => delays.push(delay_ms),
            ReconnectAction::GiveUp => break,
            ReconnectAction::Finished => panic!("a failure never finishes"),
        }
    }
    assert_eq!(delays, vec![2_000, 4_000, 8_000, 16_000, 32_000]);
    assert_eq!(attempts, 6);
    assert_eq!(after_session(3, false), (3, ReconnectAction::Finished));
}

#[test]
fn stream_messages() {
    let mut frame = vec![0u8; 51];
    frame[0] = 1;
    frame[1] = 1;
    frame[2..6].copy_from_slice(b"1594");
    frame[43..51].copy_from_slice(&150_025i64.to_le_bytes());
    match on_stream_message(StreamMessage::Binary(frame), 77) {
        StreamStep::Forward(t) => {
            assert_eq!(t.inst_id, 1594);
            assert_eq!(t.price, 150_025);
            assert_eq!(t.ts_recv_ns, 77);
        }
        other => panic!("unexpected {other:?}"),
    }
    match on_stream_message(StreamMessage::Binary(vec![0xab, 0x01, 0x00]), 0) {
        StreamStep::BadFrame { error, len, header_hex } => {
            assert_eq!(error, ParseError::TooShort { expected: 51, actual: 3 });
            assert_eq!(len, 3);
            assert_eq!(header_hex, "ab 01 00");
        }
        other => panic!("unexpected {other:?}"),
    }
    assert!(matches!(on_stream_message(StreamMessage::Text("pong".to_string()), 0), StreamStep::Ignore));
    match on_stream_message(StreamMessage::Text("hello".to_string()), 0) {
        StreamStep::LogText(t) => assert_eq!(t, "hello"),
        other => panic!("unexpected {other:?}"),
    }
    assert!(matches!(on_stream_message(StreamMessage::Control, 0), StreamStep::Ignore));
    assert!(matches!(on_stream_message(StreamMessage::Close, 0), StreamStep::EndSession));
    assert!(matches!(on_stream_message(StreamMessage::ReadError, 0), StreamStep::EndSession));
    assert!(matches!(on_stream_message(StreamMessage::Ended, 0), StreamStep::EndSession));
}

#[test]
fn header_hex_takes_sixteen_bytes() {
    let data: Vec<u8> = (0u8..20).collect();
    assert_eq!(header_hex(&data), "00 01 02 03 04 05 06 07 08 09 0a 0b 0c 0d 0e 0f");
    assert_eq!(header_hex(&[]), "");
    assert_eq!(header_hex(&[0xff]), "ff");
}

#[test]
fn every_hundredth_tick_is_logged() {
    assert_eq!(count_tick(0), (1, false));
    assert_eq!(count_tick(99), (100, true));
    assert_eq!(count_tick(100), (101, false));
}

#[test]
fn book_unsubscribe_stops_snapshots() {
    let mut c = client();
    c.subscribe_book_deltas("NIFTY26JUNFUT.NSE".to_string());
    let frame = snap_frame(b"62329", 3);
    assert!(matches!(c.handle_binary_frame(&frame, 0), FrameOutcome::Routed { deltas: Some(_), .. }));
    c.unsubscribe_book_deltas(&"NIFTY26JUNFUT.NSE".to_string());
    assert!(matches!(c.handle_binary_frame(&frame, 0), FrameOutcome::Routed { deltas: None, .. }));
}

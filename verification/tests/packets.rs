use nse_pipeline::decode::{
    packet_to_order_book_deltas, packet_to_quote_tick, snapshot_flags, BookDelta, DecodeError,
    F_LAST, F_MBP, F_SNAPSHOT,
};
use nse_pipeline::le_bytes::{read_i64_le, read_u16_le};
use nse_pipeline::orders::OrderSide;
use nse_pipeline::parser::{parse_best_5, parse_binary_packet, parse_token, ParseError};
use nse_pipeline::schema::{
    DepthEntry, ExchangeType, ParsedPacket, QuoteData, SnapQuoteData, SubscriptionMode,
};

fn make_ltp_packet() -> Vec<u8> {
    let mut buf = vec![0u8; 51];
    buf[0] = 1;
    buf[1] = 2;
    let token = b"26009";
    buf[2..2 + token.len()].copy_from_slice(token);
    buf[27..35].copy_from_slice(&1001i64.to_le_bytes());
    buf[35..43].copy_from_slice(&1_700_000_000_000i64.to_le_bytes());
    buf[43..51].copy_from_slice(&24550i64.to_le_bytes());
    buf
}

#[test]
fn test_parse_ltp_packet() {
    let data = make_ltp_packet();
    let pkt = parse_binary_packet(&data).unwrap();
    assert_eq!(pkt.mode, SubscriptionMode::Ltp);
    assert_eq!(pkt.exchange, ExchangeType::NseFo);
    assert_eq!(pkt.token, "26009");
    assert_eq!(pkt.sequence_number, 1001);
    assert_eq!(pkt.exchange_timestamp, 1_700_000_000_000);
    assert_eq!(pkt.last_traded_price, 24550);
    assert!(pkt.quote.is_none());
    assert!(pkt.snap.is_none());
}

#[test]
fn test_to_tick_conversion() {
    let data = make_ltp_packet();
    let pkt = parse_binary_packet(&data).unwrap();
    let tick = pkt.to_tick(0);
    assert_eq!(tick.inst_id, 26009);
    assert!((tick.price as f64 / 100.0 - 245.50).abs() < f64::EPSILON);
    assert_eq!(tick.ts_ns, 1_700_000_000_000 * 1_000_000);
    assert_eq!(tick.seq_no, 1001);
    assert_eq!(tick.side, 0);
}

#[test]
fn test_packet_too_short() {
    let data = vec![0u8; 10];
    let err = parse_binary_packet(&data).unwrap_err();
    assert!(matches!(err, ParseError::TooShort { .. }));
}

#[test]
fn test_unknown_mode() {
    let mut data = make_ltp_packet();
    data[0] = 99;
    let err = parse_binary_packet(&data).unwrap_err();
    assert!(matches!(err, ParseError::UnknownMode(99)));
}

fn depth(price: i64, qty: i64) -> DepthEntry {
    DepthEntry { flag: 0, qty, price, num_orders: 1 }
}

fn snap(best_5_buy: Vec<DepthEntry>, best_5_sell: Vec<DepthEntry>) -> SnapQuoteData {
    SnapQuoteData {
        last_traded_timestamp: 0,
        open_interest: 0,
        oi_change_pct: 0,
        upper_circuit: 0,
        lower_circuit: 0,
        week_52_high: 0,
        week_52_low: 0,
        best_5_buy,
        best_5_sell,
    }
}

fn packet(snap: SnapQuoteData) -> ParsedPacket {
    ParsedPacket {
        mode: SubscriptionMode::SnapQuote,
        exchange: ExchangeType::NseCm,
        token: "1594".to_string(),
        sequence_number: 7,
        exchange_timestamp: 1_700_000_000_000,
        last_traded_price: 9998,
        quote: None,
        snap: Some(snap),
    }
}

fn rupees(paise: i64) -> f64 {
    paise as f64 / 100.0
}

#[test]
fn to_tick_populates_all_five_levels_with_inversion() {
    let t = packet(snap(
        vec![depth(10000, 1), depth(10005, 2), depth(10010, 3), depth(10015, 4), depth(10020, 5)],
        vec![depth(9995, 10), depth(9990, 20), depth(9985, 30), depth(9980, 40), depth(9975, 50)],
    ))
    .to_tick(0);
    assert_eq!(rupees(t.best_bid_price), 99.95);
    assert_eq!(t.best_bid_qty, 10);
    assert_eq!(rupees(t.best_ask_price), 100.00);
    assert_eq!(t.best_ask_qty, 1);
    assert_eq!(rupees(t.bid_price_2), 99.90);
    assert_eq!(rupees(t.bid_price_5), 99.75);
    assert_eq!(t.bid_qty_5, 50);
    assert_eq!(rupees(t.ask_price_2), 100.05);
    assert_eq!(rupees(t.ask_price_5), 100.20);
    assert_eq!(t.ask_qty_5, 5);
    assert_eq!(t.inst_id, 1594);
    assert_eq!(t.seq_no, 7);
}

#[test]
fn to_tick_zeroes_missing_levels() {
    let t = packet(snap(vec![depth(10000, 1), depth(10005, 2)], vec![depth(9995, 10)])).to_tick(0);
    assert_eq!(rupees(t.best_ask_price), 100.00);
    assert_eq!(rupees(t.ask_price_2), 100.05);
    assert_eq!(rupees(t.ask_price_3), 0.0);
    assert_eq!(rupees(t.best_bid_price), 99.95);
    assert_eq!(rupees(t.bid_price_2), 0.0);
}

#[test]
fn to_tick_captures_recv_ts_and_extended_quote_snap_fields() {
    let pkt = ParsedPacket {
        mode: SubscriptionMode::SnapQuote,
        exchange: ExchangeType::NseFo,
        token: "62329".to_string(),
        sequence_number: 42,
        exchange_timestamp: 1_700_000_000_000,
        last_traded_price: 2_350_000,
        quote: Some(QuoteData {
            last_traded_qty: 75,
            avg_traded_price: 2_349_500,
            volume: 1_234_567,
            total_buy_qty_bits: 100_000.0f64.to_bits(),
            total_sell_qty_bits: 90_000.0f64.to_bits(),
            open: 2_340_000,
            high: 2_360_000,
            low: 2_330_000,
            close: 2_335_000,
        }),
        snap: Some(SnapQuoteData {
            last_traded_timestamp: 1_700_000_001_000,
            open_interest: 5_000_000,
            oi_change_pct: -250,
            upper_circuit: 2_500_000,
            lower_circuit: 2_100_000,
            week_52_high: 2_600_000,
            week_52_low: 1_900_000,
            best_5_buy: vec![depth(2_350_500, 1)],
            best_5_sell: vec![DepthEntry { flag: 1, qty: 10, price: 2_349_500, num_orders: 7 }],
        }),
    };
    let t = pkt.to_tick(9_999_999_999);
    assert_eq!(t.ts_recv_ns, 9_999_999_999);
    assert_eq!(t.exchange_type, ExchangeType::NseFo.code() as i16);
    assert_eq!(t.volume, 1_234_567);
    assert!((rupees(t.avg_traded_price) - 23_495.00).abs() < 1e-9);
    assert_eq!(f64::from_bits(t.total_buy_qty_bits), 100_000.0);
    assert_eq!(f64::from_bits(t.total_sell_qty_bits), 90_000.0);
    assert!((rupees(t.open) - 23_400.00).abs() < 1e-9);
    assert!((rupees(t.high) - 23_600.00).abs() < 1e-9);
    assert!((rupees(t.low) - 23_300.00).abs() < 1e-9);
    assert!((rupees(t.close) - 23_350.00).abs() < 1e-9);
    assert_eq!(t.last_trade_ts_ns, 1_700_000_001_000 * 1_000_000);
    assert_eq!(t.open_interest, 5_000_000);
    assert_eq!(t.oi_change_pct_raw, -250);
    assert!((rupees(t.upper_circuit) - 25_000.00).abs() < 1e-9);
    assert!((rupees(t.lower_circuit) - 21_000.00).abs() < 1e-9);
    assert!((rupees(t.week_52_high) - 26_000.00).abs() < 1e-9);
    assert!((rupees(t.week_52_low) - 19_000.00).abs() < 1e-9);
    assert_eq!(t.best_bid_num_orders, 7);
    assert_eq!(t.best_ask_num_orders, 1);
}

// ---- Own parser tests ----

#[test]
fn unknown_exchange_after_known_mode() {
    let mut data = make_ltp_packet();
    data[1] = 42;
    assert_eq!(parse_binary_packet(&data).unwrap_err(), ParseError::UnknownExchange(42));
}

#[test]
fn too_short_reports_lengths() {
    assert_eq!(
        parse_binary_packet(&[1u8; 50]).unwrap_err(),
        ParseError::TooShort { expected: 51, actual: 50 }
    );
}

#[test]
fn token_stops_at_first_nul() {
    assert_eq!(parse_token(b"1594\0\0\0"), "1594");
    assert_eq!(parse_token(b"\0abc"), "");
    assert_eq!(parse_token(b"26009"), "26009");
}

#[test]
fn le_readers() {
    let data = [0x34u8, 0x12, 0xff, 0xff, 0xff, 0xff, 0xff, 0xff, 0xff, 0xff];
    assert_eq!(read_u16_le(&data, 0), 0x1234);
    assert_eq!(read_i64_le(&data, 2), -1);
    assert_eq!(read_i64_le(&1001i64.to_le_bytes(), 0), 1001);
    assert_eq!(read_i64_le(&i64::MIN.to_le_bytes(), 0), i64::MIN);
}

fn depth_bytes(flag: u16, qty: i64, price: i64, orders: u16) -> Vec<u8> {
    let mut v = Vec::new();
    v.extend_from_slice(&flag.to_le_bytes());
    v.extend_from_slice(&qty.to_le_bytes());
    v.extend_from_slice(&price.to_le_bytes());
    v.extend_from_slice(&orders.to_le_bytes());
    v
}

#[test]
fn best_5_split_by_flag_in_order() {
    let mut block = Vec::new();
    block.extend(depth_bytes(1, 10, 995, 2));
    block.extend(depth_bytes(0, 5, 1000, 1));
    block.extend(depth_bytes(1, 20, 990, 3));
    let (buys, sells) = parse_best_5(&block);
    assert_eq!(buys.len(), 1);
    assert_eq!(buys[0].price, 1000);
    assert_eq!(sells.len(), 2);
    assert_eq!(sells[0].price, 995);
    assert_eq!(sells[1].price, 990);
    assert_eq!(sells[1].num_orders, 3);
}

fn snap_quote_frame() -> Vec<u8> {
    let mut data = vec![0u8; 379];
    data[0] = 3;
    data[1] = 1;
    data[2..6].copy_from_slice(b"2885");
    data[27..35].copy_from_slice(&5i64.to_le_bytes());
    data[35..43].copy_from_slice(&1_700_000_000_000i64.to_le_bytes());
    data[43..51].copy_from_slice(&250_000i64.to_le_bytes());
    data[51..59].copy_from_slice(&10i64.to_le_bytes());
    data[67..75].copy_from_slice(&999i64.to_le_bytes());
    data[131..139].copy_from_slice(&77i64.to_le_bytes());
    let mut depth = Vec::new();
    depth.extend(depth_bytes(0, 4, 250_100, 1));
    depth.extend(depth_bytes(1, 6, 249_900, 2));
    for _ in 0..8 {
        depth.extend(depth_bytes(1, 0, 0, 0));
    }
    data[147..347].copy_from_slice(&depth);
    data
}

#[test]
fn snap_quote_frame_decodes_all_parts() {
    let p = parse_binary_packet(&snap_quote_frame()).unwrap();
    assert_eq!(p.mode, SubscriptionMode::SnapQuote);
    assert_eq!(p.exchange, ExchangeType::NseCm);
    assert_eq!(p.token, "2885");
    let q = p.quote.as_ref().unwrap();
    assert_eq!(q.last_traded_qty, 10);
    assert_eq!(q.volume, 999);
    let s = p.snap.as_ref().unwrap();
    assert_eq!(s.open_interest, 77);
    assert_eq!(s.best_5_buy.len(), 1);
    assert_eq!(s.best_5_sell.len(), 9);
    let t = p.to_tick(1);
    assert_eq!(t.best_bid_price, 249_900);
    assert_eq!(t.best_ask_price, 250_100);
}

#[test]
fn quote_mode_short_of_quote_length_has_no_quote() {
    let mut data = make_ltp_packet();
    data[0] = 2;
    let p = parse_binary_packet(&data).unwrap();
    assert!(p.quote.is_none());
    assert!(p.snap.is_none());
}

// ---- Decoding SnapQuote packets ----

fn make_packet_with_depth() -> ParsedPacket {
    ParsedPacket {
        mode: SubscriptionMode::SnapQuote,
        exchange: ExchangeType::NseFo,
        token: "62329".to_string(),
        sequence_number: 1,
        exchange_timestamp: 1_700_000_000_000,
        last_traded_price: 2_350_050,
        quote: Some(QuoteData {
            last_traded_qty: 75,
            avg_traded_price: 2_349_000,
            volume: 1_000_000,
            total_buy_qty_bits: 50_000.0f64.to_bits(),
            total_sell_qty_bits: 48_000.0f64.to_bits(),
            open: 2_340_000,
            high: 2_360_000,
            low: 2_335_000,
            close: 2_345_000,
        }),
        snap: Some(SnapQuoteData {
            last_traded_timestamp: 1_700_000_000_000,
            open_interest: 0,
            oi_change_pct: 0,
            upper_circuit: 2_600_000,
            lower_circuit: 2_100_000,
            week_52_high: 2_700_000,
            week_52_low: 1_800_000,
            best_5_buy: vec![
                DepthEntry { flag: 0, qty: 120, price: 2_350_100, num_orders: 4 },
                DepthEntry { flag: 0, qty: 250, price: 2_350_150, num_orders: 7 },
            ],
            best_5_sell: vec![
                DepthEntry { flag: 1, qty: 100, price: 2_350_000, num_orders: 5 },
                DepthEntry { flag: 1, qty: 200, price: 2_349_950, num_orders: 8 },
                DepthEntry { flag: 1, qty: 150, price: 2_349_900, num_orders: 3 },
            ],
        }),
    }
}

#[test]
fn quote_tick_bid_ask_prices() {
    let packet = make_packet_with_depth();
    let tick = packet_to_quote_tick(&packet, 0).expect("decode ok").expect("tick present");
    assert_eq!(tick.bid_price_raw, 2_350_000);
    assert_eq!(tick.ask_price_raw, 2_350_100);
    assert_eq!(tick.bid_size_raw, 100);
    assert_eq!(tick.ask_size_raw, 120);
}

#[test]
fn quote_tick_none_for_zero_prices() {
    let mut packet = make_packet_with_depth();
    if let Some(snap) = packet.snap.as_mut() {
        snap.best_5_buy = vec![DepthEntry { flag: 0, qty: 0, price: 0, num_orders: 0 }];
        snap.best_5_sell = vec![DepthEntry { flag: 1, qty: 0, price: 0, num_orders: 0 }];
    }
    let result = packet_to_quote_tick(&packet, 0).expect("decode ok");
    assert!(result.is_none(), "Expected None for zero-price packet");
}

fn is_add(d: &BookDelta) -> bool {
    matches!(d, BookDelta::Add { .. })
}

#[test]
fn order_book_deltas_structure() {
    let packet = make_packet_with_depth();
    let mut seq = 0i64;
    let deltas = packet_to_order_book_deltas(&packet, &mut seq, 0)
        .expect("decode ok")
        .expect("deltas present");
    assert_eq!(deltas.len(), 6);
    assert!(matches!(deltas[0], BookDelta::Clear { .. }));
    assert!(is_add(&deltas[1]));
    match deltas[1] {
        BookDelta::Add { side, price_raw, .. } => {
            assert_eq!(side, OrderSide::Buy);
            assert_eq!(price_raw, 2_350_000);
        }
        _ => panic!("expected an add"),
    }
    match deltas[4] {
        BookDelta::Add { side, price_raw, .. } => {
            assert_eq!(side, OrderSide::Sell);
            assert_eq!(price_raw, 2_350_100);
        }
        _ => panic!("expected an add"),
    }
    match deltas[deltas.len() - 1] {
        BookDelta::Add { flags, .. } => {
            assert!(flags & F_LAST != 0, "Last delta must have F_LAST flag");
            assert!(flags & F_SNAPSHOT != 0);
            assert!(flags & F_MBP != 0);
        }
        _ => panic!("expected an add"),
    }
}

#[test]
fn sequence_gap_logged_but_continues() {
    let mut packet = make_packet_with_depth();
    let mut seq = 5i64;
    packet.sequence_number = 10;
    let result = packet_to_order_book_deltas(&packet, &mut seq, 0);
    assert!(result.is_ok());
    assert_eq!(seq, 10);
}

#[test]
fn no_depth_data_returns_none() {
    let mut packet = make_packet_with_depth();
    packet.snap = None;
    let tick = packet_to_quote_tick(&packet, 0).expect("decode ok");
    assert!(tick.is_none());
    let mut seq = 0i64;
    let deltas = packet_to_order_book_deltas(&packet, &mut seq, 0).expect("decode ok");
    assert!(deltas.is_none());
    assert_eq!(seq, 0);
}

#[test]
fn snapshot_flags_mark_only_the_last() {
    assert_eq!(snapshot_flags(true), 176);
    assert_eq!(snapshot_flags(false), 48);
}

#[test]
fn unusable_levels_are_skipped_and_ids_count_up() {
    let mut packet = make_packet_with_depth();
    if let Some(s) = packet.snap.as_mut() {
        s.best_5_buy.push(DepthEntry { flag: 0, qty: 0, price: 2_350_200, num_orders: 0 });
        s.best_5_sell.push(DepthEntry { flag: 1, qty: 5, price: 0, num_orders: 1 });
    }
    let mut seq = 0i64;
    let deltas = packet_to_order_book_deltas(&packet, &mut seq, 9).unwrap().unwrap();
    assert_eq!(deltas.len(), 6);
    for (k, d) in deltas.iter().enumerate().skip(1) {
        match d {
            BookDelta::Add { order_id, ts_init_ns, ts_event_ns, sequence, .. } => {
                assert_eq!(*order_id, (k - 1) as u64);
                assert_eq!(*ts_init_ns, 9);
                assert_eq!(*ts_event_ns, 1_700_000_000_000u64 * 1_000_000);
                assert_eq!(*sequence, 1);
            }
            _ => panic!("expected an add"),
        }
    }
    let _unused: Option<DecodeError> = None;
}

//! Order vocabulary shared by the book decoder and the execution client,
//! and its mapping onto the broker's REST strings.

use vstd::prelude::*;

verus! {

/// Side of an order or book level.
#[derive(Debug, Clone, Copy, PartialEq, Eq)]
pub enum OrderSide {
    NoOrderSide,
    Buy,
    Sell,
}

/// Order types of the trading engine.
#[derive(Debug, Clone, Copy, PartialEq, Eq)]
pub enum OrderType {
    Market,
    Limit,
    StopMarket,
    StopLimit,
    MarketToLimit,
    MarketIfTouched,
    LimitIfTouched,
    TrailingStopMarket,
    TrailingStopLimit,
}

/// Time-in-force instructions of the trading engine.
#[derive(Debug, Clone, Copy, PartialEq, Eq)]
pub enum TimeInForce {
    Gtc,
    Ioc,
    Fok,
    Gtd,
    Day,
    AtTheOpen,
    AtTheClose,
}

/// Broker transaction type of a side: `SELL` for sells, `BUY` otherwise.
pub open spec fn spec_side_str(side: OrderSide) -> Seq<char> {
    match side {
        OrderSide::Sell => "SELL"@,
        _ => "BUY"@,
    }
}

/// Broker order type: the four it supports by name, `MARKET` otherwise.
pub open spec fn spec_order_type_str(order_type: OrderType) -> Seq<char> {
    match order_type {
        OrderType::Limit => "LIMIT"@,
        OrderType::StopMarket => "STOPLOSS_MARKET"@,
        OrderType::StopLimit => "STOPLOSS_LIMIT"@,
        _ => "MARKET"@,
    }
}

/// Broker duration: `IOC` for immediate-or-cancel, `DAY` otherwise.
pub open spec fn spec_tif_str(tif: TimeInForce) -> Seq<char> {
    match tif {
        TimeInForce::Ioc => "IOC"@,
        _ => "DAY"@,
    }
}

/// The broker's transaction type for `side`.
pub fn side_str(side: OrderSide) -> (s: &'static str)
    ensures
        s@ == spec_side_str(side),
{
    match side {
        OrderSide::Buy => "BUY",
        OrderSide::Sell => "SELL",
        _ => "BUY",
    }
}

/// The broker's order type for `order_type`.
pub fn order_type_str(order_type: OrderType) -> (s: &'static str)
    ensures
        s@ == spec_order_type_str(order_type),
{
    match order_type {
        OrderType::Market => "MARKET",
        OrderType::Limit => "LIMIT",
        OrderType::StopMarket => "STOPLOSS_MARKET",
        OrderType::StopLimit => "STOPLOSS_LIMIT",
        _ => "MARKET",
    }
}

/// The broker's duration for `tif`.
pub fn tif_str(tif: TimeInForce) -> (s: &'static str)
    ensures
        s@ == spec_tif_str(tif),
{
    match tif {
        TimeInForce::Gtd | TimeInForce::Day => "DAY",
        TimeInForce::Ioc => "IOC",
        _ => "DAY",
    }
}

} // verus!

//! Verified core of an Angel One / NSE market-data and order-routing pipeline.
//!
//! The library holds the logic that decides things: the SmartAPI binary
//! packet decoder and the normalised tick schema, the NSE F&O pre-trade risk
//! gate, the order-book snapshot decoder, the order and cancellation
//! requests of the execution client, the routing of the data client, the
//! login request and its one-time code, the subscription grouping and
//! reconnection rule of the ingestion stream, the session clock and the
//! position rules of the intraday strategy, the storage fan-out and the
//! circuit breaker's watchdog.  Everything that talks to the network, the
//! disk or the terminal lives outside this crate and hands it plain values.

pub mod auth;
pub mod circuit;
pub mod clock;
pub mod config;
pub mod data_client;
pub mod decimal;
pub mod decode;
pub mod execution;
pub mod factories;
pub mod ingest;
pub mod le_bytes;
pub mod orders;
pub mod parser;
pub mod replay;
pub mod risk;
pub mod schema;
pub mod session;
pub mod storage;
pub mod text;
pub mod window;

//! Instrument configuration: the token table of the data client, the
//! exchange segment a token streams on, and the broker fields the execution
//! client needs for each instrument.

use vstd::prelude::*;
use std::collections::HashMap;
use vstd::hash_map::StringHashMap;
use crate::clock::{parse_rfc3339_ns, rfc3339_instant_ns};
use crate::execution::{InstrumentMapping, MappingModel};
use crate::text::{decimal_text, push_decimal};

verus! {

broadcast use vstd::std_specs::hash::group_hash_axioms;

/// Product type used when an instrument names none: positional F&O.
pub const DEFAULT_PRODUCT_TYPE: &'static str = "CARRYFORWARD";

/// The product type of an instrument that names none.
pub fn default_product_type() -> (s: String)
    ensures
        s@ == DEFAULT_PRODUCT_TYPE@,
{
    String::from_str(DEFAULT_PRODUCT_TYPE)
}

/// Exchange type of a broker exchange: `NFO` derivatives stream on NSE_FO
/// (2), everything else (NSE and BSE cash, indices) on NSE_CM (1).
pub open spec fn spec_exchange_type(exchange: Seq<char>) -> u8 {
    if exchange == "NFO"@ {
        2
    } else {
        1
    }
}

/// The exchange type a broker exchange streams on.
pub fn exchange_type_for(exchange: &str) -> (t: u8)
    ensures
        t == spec_exchange_type(exchange@),
{
    let nfo = String::from_str("NFO");
    let ex = String::from_str(exchange);
    if ex == nfo {
        2
    } else {
        1
    }
}

/// One entry of the data client's instrument table.
#[derive(Debug, Clone)]
pub struct InstrumentEntry {
    pub token: u32,
    pub symbol: String,
    pub venue: String,
}

/// The data client's instrument table.
#[derive(Debug, Clone)]
pub struct InstrumentsConfig {
    pub instruments: Vec<InstrumentEntry>,
}

/// The engine's instrument id text, `SYMBOL.VENUE`.
pub open spec fn instrument_id_text(symbol: Seq<char>, venue: Seq<char>) -> Seq<char> {
    symbol + "."@ + venue
}

/// The token table of a list of entries: each token to the id text of the
/// last entry that names it.
pub open spec fn spec_token_map(entries: Seq<InstrumentEntry>) -> Map<u32, Seq<char>>
    decreases entries.len(),
{
    if entries.len() == 0 {
        Map::empty()
    } else {
        let e = entries.last();
        spec_token_map(entries.drop_last()).insert(e.token, instrument_id_text(e.symbol@, e.venue@))
    }
}

/// The texts held by a map of strings.
pub open spec fn texts(m: Map<u32, String>) -> Map<u32, Seq<char>> {
    m.map_values(|s: String| s@)
}

fn id_text(symbol: &String, venue: &String) -> (t: String)
    ensures
        t@ == instrument_id_text(symbol@, venue@),
{
    let mut t = symbol.clone();
    t.append(".");
    t.append(venue.as_str());
    t
}

impl InstrumentsConfig {
    /// The token table: each token to the id text `SYMBOL.VENUE` of the
    /// last entry that names it.
    pub fn into_map(self) -> (m: HashMap<u32, String>)
        ensures
            texts(m@) == spec_token_map(self.instruments@),
    {
        let mut m: HashMap<u32, String> = HashMap::new();
        let n = self.instruments.len();
        let mut i: usize = 0;
        while i < n
            invariant
                n == self.instruments.len(),
                i <= n,
                texts(m@) == spec_token_map(self.instruments@.take(i as int)),
            decreases n - i,
        {
            let e = &self.instruments[i];
            let t = id_text(&e.symbol, &e.venue);
            m.insert(e.token, t);
            proof {
                assert(self.instruments@.take((i + 1) as int).drop_last() =~= self.instruments@.take(
                    i as int,
                ));
                assert(texts(m@) =~= spec_token_map(self.instruments@.take((i + 1) as int)));
            }
            i = i + 1;
        }
        assert(self.instruments@.take(n as int) =~= self.instruments@);
        m
    }
}

/// One instrument of the trading node's configuration.
#[derive(Debug, Clone)]
pub struct TradingInstrument {
    /// Engine symbol, e.g. `NIFTY26JUNFUT`.
    pub symbol: String,
    /// Broker token.
    pub token: u32,
    /// Broker trading symbol, e.g. `NIFTY25JUNFUT`.
    pub trading_symbol: String,
    /// Broker exchange: `NFO` for F&O, `NSE` for cash.
    pub exchange: String,
    /// Expiry as RFC 3339 text, e.g. `2026-06-26T15:30:00Z`.
    pub expiry_utc: Option<String>,
    pub is_physical_settlement: bool,
    /// `MIS`, `CARRYFORWARD` or `NRML`.
    pub product_type: String,
}

/// The three tables the trading node builds from its instruments.
pub struct InstrumentMaps {
    /// Token to engine instrument id (data client).
    pub data_map: HashMap<u32, String>,
    /// Token to exchange type (1 = NSE_CM, 2 = NSE_FO).
    pub exchange_map: HashMap<u32, u8>,
    /// Engine instrument id to broker fields (execution client).
    pub exec_map: StringHashMap<InstrumentMapping>,
}

/// The expiry instant of an optional RFC 3339 text; a text that does not
/// parse gives none.
pub open spec fn spec_expiry(text: Option<String>) -> Option<i64> {
    match text {
        Some(t) => rfc3339_instant_ns(t@),
        None => None,
    }
}

/// The broker fields of one configured instrument.
pub open spec fn spec_mapping(e: TradingInstrument) -> MappingModel {
    MappingModel {
        token: decimal_text(e.token as nat),
        trading_symbol: e.trading_symbol@,
        exchange: e.exchange@,
        expiry_utc_ns: spec_expiry(e.expiry_utc),
        is_physical_settlement: e.is_physical_settlement,
        product_type: e.product_type@,
    }
}

/// Token to instrument id, the last entry naming a token winning.
pub open spec fn spec_data_map(entries: Seq<TradingInstrument>, venue: Seq<char>) -> Map<
    u32,
    Seq<char>,
>
    decreases entries.len(),
{
    if entries.len() == 0 {
        Map::empty()
    } else {
        let e = entries.last();
        spec_data_map(entries.drop_last(), venue).insert(
            e.token,
            instrument_id_text(e.symbol@, venue),
        )
    }
}

/// Token to exchange type, the last entry naming a token winning.
pub open spec fn spec_exchange_map(entries: Seq<TradingInstrument>) -> Map<u32, u8>
    decreases entries.len(),
{
    if entries.len() == 0 {
        Map::empty()
    } else {
        let e = entries.last();
        spec_exchange_map(entries.drop_last()).insert(e.token, spec_exchange_type(e.exchange@))
    }
}

/// Instrument id to broker fields, the last entry naming an id winning.
pub open spec fn spec_exec_map(entries: Seq<TradingInstrument>, venue: Seq<char>) -> Map<
    Seq<char>,
    MappingModel,
>
    decreases entries.len(),
{
    if entries.len() == 0 {
        Map::empty()
    } else {
        let e = entries.last();
        spec_exec_map(entries.drop_last(), venue).insert(
            instrument_id_text(e.symbol@, venue),
            spec_mapping(e),
        )
    }
}

/// The broker fields held by an id-keyed table.
pub open spec fn mapping_views(m: Map<Seq<char>, InstrumentMapping>) -> Map<
    Seq<char>,
    MappingModel,
> {
    m.map_values(|x: InstrumentMapping| x@)
}

fn mapping_for(e: &TradingInstrument) -> (m: InstrumentMapping)
    ensures
        m@ == spec_mapping(*e),
{
    let mut token = String::new();
    push_decimal(&mut token, e.token as u64);
    let expiry_utc_ns = match &e.expiry_utc {
        Some(t) => parse_rfc3339_ns(t.as_str()),
        None => None,
    };
    InstrumentMapping {
        token,
        trading_symbol: e.trading_symbol.clone(),
        exchange: e.exchange.clone(),
        expiry_utc_ns,
        is_physical_settlement: e.is_physical_settlement,
        product_type: e.product_type.clone(),
    }
}

/// Builds the token, exchange-type and broker tables from the configured
/// instruments of venue `venue`; where two entries share a key, the later
/// one wins.
pub fn build_instrument_maps(entries: &[TradingInstrument], venue: &str) -> (r: InstrumentMaps)
    ensures
        texts(r.data_map@) == spec_data_map(entries@, venue@),
        r.exchange_map@ == spec_exchange_map(entries@),
        mapping_views(r.exec_map@) == spec_exec_map(entries@, venue@),
{
    let mut data_map: HashMap<u32, String> = HashMap::new();
    let mut exchange_map: HashMap<u32, u8> = HashMap::new();
    let mut exec_map: StringHashMap<InstrumentMapping> = StringHashMap::new();
    let venue_text = String::from_str(venue);
    let n = entries.len();
    let mut i: usize = 0;
    while i < n
        invariant
            n == entries.len(),
            i <= n,
            venue_text@ == venue@,
            texts(data_map@) == spec_data_map(entries@.take(i as int), venue@),
            exchange_map@ == spec_exchange_map(entries@.take(i as int)),
            mapping_views(exec_map@) == spec_exec_map(entries@.take(i as int), venue@),
        decreases n - i,
    {
        let e = &entries[i];
        let id = id_text(&e.symbol, &venue_text);
        let id_key = id.clone();
        data_map.insert(e.token, id);
        exchange_map.insert(e.token, exchange_type_for(e.exchange.as_str()));
        let m = mapping_for(e);
        exec_map.insert(id_key, m);
        proof {
            let next = entries@.take((i + 1) as int);
            assert(next.drop_last() =~= entries@.take(i as int));
            assert(next.last() == entries@[i as int]);
            assert(texts(data_map@) =~= spec_data_map(next, venue@));
            assert(exchange_map@ =~= spec_exchange_map(next));
            assert(mapping_views(exec_map@) =~= spec_exec_map(next, venue@));
        }
        i = i + 1;
    }
    assert(entries@.take(n as int) =~= entries@);
    InstrumentMaps { data_map, exchange_map, exec_map }
}

/// The engine instrument id `SYMBOL.VENUE` of a symbol on a venue.
pub fn instrument_id_of(symbol: &str, venue: &str) -> (t: String)
    ensures
        t@ == instrument_id_text(symbol@, venue@),
{
    let mut t = String::from_str(symbol);
    t.append(".");
    t.append(venue);
    t
}

/// The engine instrument ids of a strategy's symbols on its venue, in the
/// order the symbols are configured.
pub fn instrument_ids(symbols: &Vec<String>, venue: &str) -> (ids: Vec<String>)
    ensures
        ids@.len() == symbols@.len(),
        forall|i: int| 0 <= i < ids@.len() ==> (#[trigger] ids@[i])@ == instrument_id_text(
            symbols@[i]@,
            venue@,
        ),
{
    let mut ids: Vec<String> = Vec::new();
    let n = symbols.len();
    let mut i: usize = 0;
    while i < n
        invariant
            n == symbols@.len(),
            i <= n,
            ids@.len() == i,
            forall|j: int| 0 <= j < i ==> (#[trigger] ids@[j])@ == instrument_id_text(
                symbols@[j]@,
                venue@,
            ),
        decreases n - i,
    {
        ids.push(instrument_id_of(symbols[i].as_str(), venue));
        i = i + 1;
    }
    ids
}

} // verus!

//! Factories that build the Angel One clients from their configurations,
//! under the names the trading node registers them by.

use vstd::prelude::*;
use crate::data_client::{AngelOneDataClient, AngelOneDataClientConfig};
use crate::execution::{AngelOneExecutionClient, AngelOneExecutionClientConfig};

verus! {

/// Name both factories register under.
pub const FACTORY_NAME: &'static str = "ANGEL_ONE";

/// Builds data clients.
#[derive(Debug, Clone, Copy)]
pub struct AngelOneDataClientFactory;

/// Builds execution clients.
#[derive(Debug, Clone, Copy)]
pub struct AngelOneExecClientFactory;

impl AngelOneDataClientFactory {
    /// The factory's name.
    pub fn name(&self) -> (s: &'static str)
        ensures
            s@ == FACTORY_NAME@,
    {
        FACTORY_NAME
    }

    /// The configuration type the factory accepts.
    pub fn config_type(&self) -> (s: &'static str)
        ensures
            s@ == "AngelOneDataLiveConfig"@,
    {
        "AngelOneDataLiveConfig"
    }

    /// A new, disconnected data client for `config`.
    pub fn create(&self, config: AngelOneDataClientConfig) -> (c: AngelOneDataClient)
        ensures
            *c.spec_config() == config,
            !c.spec_connected(),
            c.spec_tokens() is None,
            c.quote_subs() == Set::<Seq<char>>::empty(),
            c.book_subs() == Set::<Seq<char>>::empty(),
    {
        AngelOneDataClient::new(config)
    }
}

impl AngelOneExecClientFactory {
    /// The factory's name.
    pub fn name(&self) -> (s: &'static str)
        ensures
            s@ == FACTORY_NAME@,
    {
        FACTORY_NAME
    }

    /// The configuration type the factory accepts.
    pub fn config_type(&self) -> (s: &'static str)
        ensures
            s@ == "AngelOneExecLiveConfig"@,
    {
        "AngelOneExecLiveConfig"
    }

    /// A new, disconnected execution client for `config`.
    pub fn create(&self, config: AngelOneExecutionClientConfig) -> (c: AngelOneExecutionClient)
        ensures
            *c.spec_config() == config,
            !c.spec_connected(),
            c.spec_tokens() is None,
    {
        AngelOneExecutionClient::new(config)
    }
}

} // verus!

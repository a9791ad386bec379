//! The exchange clients and what they have in common.

pub mod binance_ws;
pub mod huobi_rest_api;
pub mod kraken_rest_api;
pub mod orderbook_provider;

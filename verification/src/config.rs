//! The configuration of the exchange clients, assembled from settings that
//! were read elsewhere.

use vstd::prelude::*;
use vstd::string::StringExecFns;

verus! {

/// The trading pair to ask Kraken for, and where.
#[derive(Debug, PartialEq, Eq)]
pub struct KrakenConfig {
    pub trading_pair: String,
    pub endpoint: String,
}

/// The trading pair to ask Huobi for, and where.
#[derive(Debug, PartialEq, Eq)]
pub struct HuobiConfig {
    pub trading_pair: String,
    pub endpoint: String,
}

/// One configuration per exchange.
#[derive(Debug, PartialEq, Eq)]
pub struct AppConfig {
    pub kraken: KrakenConfig,
    pub huobi: HuobiConfig,
}

/// A value that the configuration needs.
#[derive(Clone, Copy, Debug, PartialEq, Eq, Structural)]
pub enum Setting {
    KrakenTradingPair,
    KrakenEndpoint,
    HuobiTradingPair,
    HuobiEndpoint,
}

/// Why no configuration could be assembled.
#[derive(Clone, Copy, Debug, PartialEq, Eq, Structural)]
pub enum ConfigError {
    /// No entry gives this setting a value.
    Missing(Setting),
}

impl Setting {
    /// The key under which the setting is looked up.
    pub open spec fn key_text(self) -> Seq<char> {
        match self {
            Setting::KrakenTradingPair => "kraken.trading_pair"@,
            Setting::KrakenEndpoint => "kraken.endpoint"@,
            Setting::HuobiTradingPair => "huobi.trading_pair"@,
            Setting::HuobiEndpoint => "huobi.endpoint"@,
        }
    }

    /// The name of the environment variable that gives the setting: the
    /// key in upper case under the prefix `APP`, `_` between the parts.
    pub open spec fn env_text(self) -> Seq<char> {
        match self {
            Setting::KrakenTradingPair => "APP_KRAKEN_TRADING_PAIR"@,
            Setting::KrakenEndpoint => "APP_KRAKEN_ENDPOINT"@,
            Setting::HuobiTradingPair => "APP_HUOBI_TRADING_PAIR"@,
            Setting::HuobiEndpoint => "APP_HUOBI_ENDPOINT"@,
        }
    }

    /// The name of the environment variable that gives the setting.
    pub fn env_name(&self) -> (name: &'static str)
        ensures
            name@ == self.env_text(),
    {
        match self {
            Setting::KrakenTradingPair => "APP_KRAKEN_TRADING_PAIR",
            Setting::KrakenEndpoint => "APP_KRAKEN_ENDPOINT",
            Setting::HuobiTradingPair => "APP_HUOBI_TRADING_PAIR",
            Setting::HuobiEndpoint => "APP_HUOBI_ENDPOINT",
        }
    }

    /// The key under which the setting is looked up.
    pub fn key(&self) -> (k: &'static str)
        ensures
            k@ == self.key_text(),
    {
        match self {
            Setting::KrakenTradingPair => "kraken.trading_pair",
            Setting::KrakenEndpoint => "kraken.endpoint",
            Setting::HuobiTradingPair => "huobi.trading_pair",
            Setting::HuobiEndpoint => "huobi.endpoint",
        }
    }
}

/// The value that the entries give to `key`: that of the last entry with
/// this key, so that a later source overrides an earlier one.
pub open spec fn setting_value(entries: Seq<(String, String)>, key: Seq<char>) -> Option<Seq<char>>
    decreases entries.len(),
{
    if entries.len() == 0 {
        None
    } else if entries.last().0@ == key {
        Some(entries.last().1@)
    } else {
        setting_value(entries.drop_last(), key)
    }
}

/// Looks a key up among the entries.
pub fn lookup(entries: &Vec<(String, String)>, key: &str) -> (r: Option<String>)
    ensures
        match r {
            Some(value) => setting_value(entries@, key@) == Some(value@),
            None => setting_value(entries@, key@).is_none(),
        },
{
    let wanted = String::from_str(key);
    let mut i: usize = entries.len();
    assert(entries@.take(i as int) =~= entries@);
    while i > 0
        invariant
            i <= entries@.len(),
            wanted@ == key@,
            setting_value(entries@, key@) == setting_value(entries@.take(i as int), key@),
        decreases i,
    {
        i = i - 1;
        proof {
            let front = entries@.take(i + 1);
            assert(front.last() == entries@[i as int]);
            assert(front.drop_last() =~= entries@.take(i as int));
        }
        if entries[i].0 == wanted {
            return Some(entries[i].1.clone());
        }
    }
    assert(entries@.take(0).len() == 0);
    None
}

/// Whether `config` holds exactly the values that `entries` give.
pub open spec fn holds_settings(config: AppConfig, entries: Seq<(String, String)>) -> bool {
    &&& setting_value(entries, Setting::KrakenTradingPair.key_text()) == Some(
        config.kraken.trading_pair@,
    )
    &&& setting_value(entries, Setting::KrakenEndpoint.key_text()) == Some(config.kraken.endpoint@)
    &&& setting_value(entries, Setting::HuobiTradingPair.key_text()) == Some(
        config.huobi.trading_pair@,
    )
    &&& setting_value(entries, Setting::HuobiEndpoint.key_text()) == Some(config.huobi.endpoint@)
}

/// The first setting, in the order Kraken's pair, Kraken's endpoint,
/// Huobi's pair, Huobi's endpoint, to which `entries` give no value.
pub open spec fn first_missing(entries: Seq<(String, String)>) -> Option<Setting> {
    if setting_value(entries, Setting::KrakenTradingPair.key_text()).is_none() {
        Some(Setting::KrakenTradingPair)
    } else if setting_value(entries, Setting::KrakenEndpoint.key_text()).is_none() {
        Some(Setting::KrakenEndpoint)
    } else if setting_value(entries, Setting::HuobiTradingPair.key_text()).is_none() {
        Some(Setting::HuobiTradingPair)
    } else if setting_value(entries, Setting::HuobiEndpoint.key_text()).is_none() {
        Some(Setting::HuobiEndpoint)
    } else {
        None
    }
}

/// Assembles the configuration from settings given as pairs of key and
/// value, a later entry overriding an earlier one with the same key. Fails
/// with the first setting that has no value.
pub fn load_config(entries: &Vec<(String, String)>) -> (r: Result<AppConfig, ConfigError>)
    ensures
        match r {
            Ok(config) => first_missing(entries@).is_none() && holds_settings(config, entries@),
            Err(ConfigError::Missing(setting)) => first_missing(entries@) == Some(setting),
        },
{
    let kraken_pair = match lookup(entries, Setting::KrakenTradingPair.key()) {
        Some(value) => value,
        None => { return Err(ConfigError::Missing(Setting::KrakenTradingPair)); },
    };
    let kraken_endpoint = match lookup(entries, Setting::KrakenEndpoint.key()) {
        Some(value) => value,
        None => { return Err(ConfigError::Missing(Setting::KrakenEndpoint)); },
    };
    let huobi_pair = match lookup(entries, Setting::HuobiTradingPair.key()) {
        Some(value) => value,
        None => { return Err(ConfigError::Missing(Setting::HuobiTradingPair)); },
    };
    let huobi_endpoint = match lookup(entries, Setting::HuobiEndpoint.key()) {
        Some(value) => value,
        None => { return Err(ConfigError::Missing(Setting::HuobiEndpoint)); },
    };
    Ok(
        AppConfig {
            kraken: KrakenConfig { trading_pair: kraken_pair, endpoint: kraken_endpoint },
            huobi: HuobiConfig { trading_pair: huobi_pair, endpoint: huobi_endpoint },
        },
    )
}

} // verus!

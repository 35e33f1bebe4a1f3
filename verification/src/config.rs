//! Configuration sections that hold no numbers with fractions (exchange,
//! execution, logging), their defaults, and the rules that decide whether a
//! configuration is valid and which rule it breaks first.

use vstd::prelude::*;
use crate::types::{ExecutionMode, same_text};

verus! {

/// Exchange configuration.
#[derive(Debug, Clone)]
pub struct ExchangeConfig {
    pub name: String,
    pub ws_url: String,
    pub api_url: String,
    pub symbols: Vec<String>,
}

impl Default for ExchangeConfig {
    /// Hyperliquid's public endpoints, trading BTC only.
    fn default() -> (c: Self)
        ensures
            c.name@ == "hyperliquid"@,
            c.ws_url@ == "wss://api.hyperliquid.xyz/ws"@,
            c.api_url@ == "https://api.hyperliquid.xyz"@,
            c.symbols@.len() == 1,
            c.symbols@[0]@ == "BTC"@,
    {
        let mut symbols: Vec<String> = Vec::new();
        symbols.push("BTC".to_owned());
        ExchangeConfig {
            name: "hyperliquid".to_owned(),
            ws_url: "wss://api.hyperliquid.xyz/ws".to_owned(),
            api_url: "https://api.hyperliquid.xyz".to_owned(),
            symbols,
        }
    }
}

/// Execution configuration.
#[derive(Debug, Clone)]
pub struct ExecutionConfig {
    pub mode: ExecutionMode,
    pub ttl_seconds: i64,
    pub post_only: bool,
    /// Seconds between two sweeps for expired orders.
    pub ttl_check_interval_secs: u64,
}

impl Default for ExecutionConfig {
    /// Dry run, orders live 120 seconds, post-only, swept every 10 seconds.
    fn default() -> (c: Self)
        ensures
            c.mode == ExecutionMode::DryRun,
            c.ttl_seconds == 120,
            c.post_only,
            c.ttl_check_interval_secs == 10,
    {
        ExecutionConfig {
            mode: ExecutionMode::DryRun,
            ttl_seconds: 120,
            post_only: true,
            ttl_check_interval_secs: 10,
        }
    }
}

/// Logging configuration.
#[derive(Debug, Clone)]
pub struct LoggingConfig {
    pub level: String,
    pub format: String,
}

impl Default for LoggingConfig {
    /// Level `info`, format `json`.
    fn default() -> (c: Self)
        ensures
            c.level@ == "info"@,
            c.format@ == "json"@,
    {
        LoggingConfig { level: "info".to_owned(), format: "json".to_owned() }
    }
}

/// Bot runtime configuration.
#[derive(Debug, Clone, Copy)]
pub struct BotConfig {
    /// Capacity of the channel of incoming trades.
    pub trade_buffer_size: usize,
    /// Capacity of the channel of finished candles.
    pub candle_buffer_size: usize,
    /// Port of the health endpoint (0 disables it).
    pub health_check_port: u16,
}

impl Default for BotConfig {
    /// Room for 10000 trades and 1000 candles; health endpoint on port 8080.
    fn default() -> (c: Self)
        ensures
            c.trade_buffer_size == 10000,
            c.candle_buffer_size == 1000,
            c.health_check_port == 8080,
    {
        BotConfig { trade_buffer_size: 10000, candle_buffer_size: 1000, health_check_port: 8080 }
    }
}

/// Outcome of each range rule on a setting with a fractional value, in the
/// order the rules are checked. Each field is true when the setting is
/// within its range.
#[derive(Debug, Clone, Copy)]
pub struct NumericRangeChecks {
    /// The CVD exhaustion ratio lies in (0, 1].
    pub exhaustion_ratio_ok: bool,
    /// The CVD absorption percentile lies in (0, 1].
    pub absorption_pctile_ok: bool,
    /// The risk R-multiple is above 0.
    pub risk_multiple_ok: bool,
    /// The entry offset percentage lies in (0, 1).
    pub entry_offset_ok: bool,
    /// The maximum position in USD is above 0.
    pub max_position_ok: bool,
    /// The maximum leverage is above 0.
    pub max_leverage_ok: bool,
    /// The maximum drawdown percentage lies in (0, 1].
    pub max_drawdown_ok: bool,
}

/// The rule a configuration breaks.
#[derive(Debug, Clone)]
pub enum ConfigError {
    NoSymbols,
    MissingWsUrl,
    MissingApiUrl,
    ZeroLookback,
    ExhaustionRatioOutOfRange,
    AbsorptionPercentileOutOfRange,
    NonPositiveRiskMultiple,
    EntryOffsetOutOfRange,
    NonPositiveMaxPosition,
    NonPositiveMaxLeverage,
    DrawdownOutOfRange,
    NonPositiveTtl,
    ZeroTtlCheckInterval,
    InvalidLogLevel { level: String },
    InvalidLogFormat { format: String },
}

impl ConfigError {
    /// The error's message.
    pub open spec fn spec_message(&self) -> Seq<char> {
        match self {
            ConfigError::NoSymbols => "At least one symbol must be configured"@,
            ConfigError::MissingWsUrl => "WebSocket URL must be configured"@,
            ConfigError::MissingApiUrl => "API URL must be configured"@,
            ConfigError::ZeroLookback => "Lookback must be greater than 0"@,
            ConfigError::ExhaustionRatioOutOfRange => "CVD exhaustion ratio must be between 0 and 1"@,
            ConfigError::AbsorptionPercentileOutOfRange =>
                "CVD absorption percentile must be between 0 and 1"@,
            ConfigError::NonPositiveRiskMultiple => "Risk R-multiple must be greater than 0"@,
            ConfigError::EntryOffsetOutOfRange => "Entry offset percentage must be between 0 and 1"@,
            ConfigError::NonPositiveMaxPosition => "Max position USD must be greater than 0"@,
            ConfigError::NonPositiveMaxLeverage => "Max leverage must be greater than 0"@,
            ConfigError::DrawdownOutOfRange => "Max drawdown percentage must be between 0 and 1"@,
            ConfigError::NonPositiveTtl => "TTL seconds must be greater than 0"@,
            ConfigError::ZeroTtlCheckInterval => "TTL check interval must be greater than 0"@,
            ConfigError::InvalidLogLevel { level } => "Invalid log level: "@ + level@,
            ConfigError::InvalidLogFormat { format } => "Invalid log format: "@ + format@,
        }
    }

    /// The error's message, such as `Invalid log level: verbose`.
    pub fn message(&self) -> (m: String)
        ensures
            m@ == self.spec_message(),
    {
        match self {
            ConfigError::NoSymbols => "At least one symbol must be configured".to_owned(),
            ConfigError::MissingWsUrl => "WebSocket URL must be configured".to_owned(),
            ConfigError::MissingApiUrl => "API URL must be configured".to_owned(),
            ConfigError::ZeroLookback => "Lookback must be greater than 0".to_owned(),
            ConfigError::ExhaustionRatioOutOfRange =>
                "CVD exhaustion ratio must be between 0 and 1".to_owned(),
            ConfigError::AbsorptionPercentileOutOfRange =>
                "CVD absorption percentile must be between 0 and 1".to_owned(),
            ConfigError::NonPositiveRiskMultiple => "Risk R-multiple must be greater than 0".to_owned(),
            ConfigError::EntryOffsetOutOfRange =>
                "Entry offset percentage must be between 0 and 1".to_owned(),
            ConfigError::NonPositiveMaxPosition => "Max position USD must be greater than 0".to_owned(),
            ConfigError::NonPositiveMaxLeverage => "Max leverage must be greater than 0".to_owned(),
            ConfigError::DrawdownOutOfRange =>
                "Max drawdown percentage must be between 0 and 1".to_owned(),
            ConfigError::NonPositiveTtl => "TTL seconds must be greater than 0".to_owned(),
            ConfigError::ZeroTtlCheckInterval =>
                "TTL check interval must be greater than 0".to_owned(),
            ConfigError::InvalidLogLevel { level } => "Invalid log level: ".to_owned().concat(
                level.as_str(),
            ),
            ConfigError::InvalidLogFormat { format } => "Invalid log format: ".to_owned().concat(
                format.as_str(),
            ),
        }
    }
}

/// The accepted log levels: `trace`, `debug`, `info`, `warn`, `error`.
pub open spec fn spec_is_log_level(level: Seq<char>) -> bool {
    level == "trace"@ || level == "debug"@ || level == "info"@ || level == "warn"@ || level
        == "error"@
}

/// The accepted log formats: `json` and `pretty`.
pub open spec fn spec_is_log_format(format: Seq<char>) -> bool {
    format == "json"@ || format == "pretty"@
}

/// Whether `level` is an accepted log level.
pub fn is_log_level(level: &str) -> (b: bool)
    ensures
        b == spec_is_log_level(level@),
{
    same_text(level, "trace") || same_text(level, "debug") || same_text(level, "info")
        || same_text(level, "warn") || same_text(level, "error")
}

/// Whether `format` is an accepted log format.
pub fn is_log_format(format: &str) -> (b: bool)
    ensures
        b == spec_is_log_format(format@),
{
    same_text(format, "json") || same_text(format, "pretty")
}

/// The first rule that a configuration breaks, checked in this order:
/// symbols, WebSocket URL, API URL, lookback, the seven numeric ranges, order TTL,
/// TTL sweep interval, log level, log format.
pub open spec fn spec_validate(
    exchange: ExchangeConfig,
    lookback: usize,
    numeric: NumericRangeChecks,
    execution: ExecutionConfig,
    logging: LoggingConfig,
) -> Result<(), ConfigError> {
    if exchange.symbols@.len() == 0 {
        Err(ConfigError::NoSymbols)
    } else if exchange.ws_url@.len() == 0 {
        Err(ConfigError::MissingWsUrl)
    } else if exchange.api_url@.len() == 0 {
        Err(ConfigError::MissingApiUrl)
    } else if lookback == 0 {
        Err(ConfigError::ZeroLookback)
    } else if !numeric.exhaustion_ratio_ok {
        Err(ConfigError::ExhaustionRatioOutOfRange)
    } else if !numeric.absorption_pctile_ok {
        Err(ConfigError::AbsorptionPercentileOutOfRange)
    } else if !numeric.risk_multiple_ok {
        Err(ConfigError::NonPositiveRiskMultiple)
    } else if !numeric.entry_offset_ok {
        Err(ConfigError::EntryOffsetOutOfRange)
    } else if !numeric.max_position_ok {
        Err(ConfigError::NonPositiveMaxPosition)
    } else if !numeric.max_leverage_ok {
        Err(ConfigError::NonPositiveMaxLeverage)
    } else if !numeric.max_drawdown_ok {
        Err(ConfigError::DrawdownOutOfRange)
    } else if execution.ttl_seconds <= 0 {
        Err(ConfigError::NonPositiveTtl)
    } else if execution.ttl_check_interval_secs == 0 {
        Err(ConfigError::ZeroTtlCheckInterval)
    } else if !spec_is_log_level(logging.level@) {
        Err(ConfigError::InvalidLogLevel { level: logging.level })
    } else if !spec_is_log_format(logging.format@) {
        Err(ConfigError::InvalidLogFormat { format: logging.format })
    } else {
        Ok(())
    }
}

/// Validates a configuration: the exchange, execution and logging sections,
/// the strategy lookback, and the outcome of the range rules on the
/// fractional settings. Returns the first rule broken.
pub fn validate_settings(
    exchange: &ExchangeConfig,
    lookback: usize,
    numeric: &NumericRangeChecks,
    execution: &ExecutionConfig,
    logging: &LoggingConfig,
) -> (r: Result<(), ConfigError>)
    ensures
        r == spec_validate(*exchange, lookback, *numeric, *execution, *logging),
{
    if exchange.symbols.len() == 0 {
        return Err(ConfigError::NoSymbols);
    }
    if exchange.ws_url.as_str().is_empty() {
        return Err(ConfigError::MissingWsUrl);
    }
    if exchange.api_url.as_str().is_empty() {
        return Err(ConfigError::MissingApiUrl);
    }
    if lookback == 0 {
        return Err(ConfigError::ZeroLookback);
    }
    if !numeric.exhaustion_ratio_ok {
        return Err(ConfigError::ExhaustionRatioOutOfRange);
    }
    if !numeric.absorption_pctile_ok {
        return Err(ConfigError::AbsorptionPercentileOutOfRange);
    }
    if !numeric.risk_multiple_ok {
        return Err(ConfigError::NonPositiveRiskMultiple);
    }
    if !numeric.entry_offset_ok {
        return Err(ConfigError::EntryOffsetOutOfRange);
    }
    if !numeric.max_position_ok {
        return Err(ConfigError::NonPositiveMaxPosition);
    }
    if !numeric.max_leverage_ok {
        return Err(ConfigError::NonPositiveMaxLeverage);
    }
    if !numeric.max_drawdown_ok {
        return Err(ConfigError::DrawdownOutOfRange);
    }
    if execution.ttl_seconds <= 0 {
        return Err(ConfigError::NonPositiveTtl);
    }
    if execution.ttl_check_interval_secs == 0 {
        return Err(ConfigError::ZeroTtlCheckInterval);
    }
    if !is_log_level(logging.level.as_str()) {
        return Err(ConfigError::InvalidLogLevel { level: logging.level.clone() });
    }
    if !is_log_format(logging.format.as_str()) {
        return Err(ConfigError::InvalidLogFormat { format: logging.format.clone() });
    }
    Ok(())
}

/// Number of decimals of a symbol's price tick (the tick is `10^-decimals`):
/// 0 for BTC, 1 for ETH, 2 for SOL, and 0 for any other symbol.
pub open spec fn spec_tick_decimals(symbol: Seq<char>) -> u32 {
    if symbol == "BTC"@ {
        0
    } else if symbol == "ETH"@ {
        1
    } else if symbol == "SOL"@ {
        2
    } else {
        0
    }
}

/// Number of decimals of a symbol's price tick when no exchange metadata is
/// at hand (the tick is `10^-decimals`).
pub fn tick_size_decimals(symbol: &str) -> (d: u32)
    ensures
        d == spec_tick_decimals(symbol@),
{
    if same_text(symbol, "BTC") {
        0
    } else if same_text(symbol, "ETH") {
        1
    } else if same_text(symbol, "SOL") {
        2
    } else {
        0
    }
}

/// The default sections, with a positive lookback and every numeric setting
/// in range, form a valid configuration.
pub proof fn lemma_defaults_are_valid(
    exchange: ExchangeConfig,
    lookback: usize,
    numeric: NumericRangeChecks,
    execution: ExecutionConfig,
    logging: LoggingConfig,
)
    requires
        exchange.ws_url@ == "wss://api.hyperliquid.xyz/ws"@,
        exchange.api_url@ == "https://api.hyperliquid.xyz"@,
        exchange.symbols@.len() == 1,
        lookback > 0,
        numeric.exhaustion_ratio_ok,
        numeric.absorption_pctile_ok,
        numeric.risk_multiple_ok,
        numeric.entry_offset_ok,
        numeric.max_position_ok,
        numeric.max_leverage_ok,
        numeric.max_drawdown_ok,
        execution.ttl_seconds == 120,
        execution.ttl_check_interval_secs == 10,
        logging.level@ == "info"@,
        logging.format@ == "json"@,
    ensures
        spec_validate(exchange, lookback, numeric, execution, logging) is Ok,
{
    reveal_strlit("wss://api.hyperliquid.xyz/ws");
    reveal_strlit("https://api.hyperliquid.xyz");
    assert(exchange.ws_url@.len() > 0);
    assert(exchange.api_url@.len() > 0);
}

/// A configuration is accepted exactly when every rule holds: some symbol,
/// both URLs set, a positive lookback, every fractional setting in range, a
/// positive order TTL and sweep interval, a log level among `trace`,
/// `debug`, `info`, `warn`, `error` and a log format among `json`, `pretty`.
pub proof fn lemma_accepted_iff_every_rule_holds(
    exchange: ExchangeConfig,
    lookback: usize,
    numeric: NumericRangeChecks,
    execution: ExecutionConfig,
    logging: LoggingConfig,
)
    ensures
        spec_validate(exchange, lookback, numeric, execution, logging) is Ok <==> (
        exchange.symbols@.len() > 0 && exchange.ws_url@.len() > 0 && exchange.api_url@.len() > 0
            && lookback > 0 && numeric.exhaustion_ratio_ok && numeric.absorption_pctile_ok
            && numeric.risk_multiple_ok && numeric.entry_offset_ok && numeric.max_position_ok
            && numeric.max_leverage_ok && numeric.max_drawdown_ok && execution.ttl_seconds > 0
            && execution.ttl_check_interval_secs > 0 && (logging.level@ == "trace"@
            || logging.level@ == "debug"@ || logging.level@ == "info"@ || logging.level@ == "warn"@
            || logging.level@ == "error"@) && (logging.format@ == "json"@ || logging.format@
            == "pretty"@)),
        exchange.symbols@.len() == 0 ==> spec_validate(exchange, lookback, numeric, execution, logging)
            == Err::<(), ConfigError>(ConfigError::NoSymbols),
{
}


} // verus!

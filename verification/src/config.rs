use vstd::prelude::*;

verus! {

/// Timestamps are non-leap seconds since the Unix epoch. The stores accept
/// instants up to the last second of year 9999.
pub const MAX_TIMESTAMP: i64 = 253_402_300_799;

/// Polling periods and intervals are bounded by a century of seconds, which
/// keeps every window end and recency cutoff far from the integer limits.
pub const MAX_DURATION_SECONDS: i64 = 3_155_760_000;

/// Why a configuration was rejected at startup.
#[derive(Clone, Copy, PartialEq, Eq, Structural, Debug)]
pub enum ConfigError {
    /// The window period was zero, negative, or over `MAX_DURATION_SECONDS`.
    InvalidPeriod,
    /// The poll interval was zero, negative, or over `MAX_DURATION_SECONDS`.
    InvalidDelta,
}

/// Validated timing configuration: the window period granted by an open or
/// prolong request, and the cadence at which a scheduled job ticks.
///
/// A non-positive period would produce a window that is expired the moment
/// it is created, so it is rejected here, at startup, rather than handled
/// as a runtime case.
#[derive(Clone, Copy, PartialEq, Eq, Structural, Debug)]
pub struct Config {
    pub pooling_period_seconds: i64,
    pub pooling_delta_seconds: i64,
}

impl Config {
    pub open spec fn wf(self) -> bool {
        &&& 0 < self.pooling_period_seconds <= MAX_DURATION_SECONDS
        &&& 0 < self.pooling_delta_seconds <= MAX_DURATION_SECONDS
    }

    /// Accepts exactly the configurations whose period and interval are
    /// positive and within bounds.
    pub fn new(pooling_period_seconds: i64, pooling_delta_seconds: i64) -> (r: Result<Config,
        ConfigError>)
        ensures
            !(0 < pooling_period_seconds <= MAX_DURATION_SECONDS) ==> r == Err::<
                Config,
                ConfigError,
            >(ConfigError::InvalidPeriod),
            0 < pooling_period_seconds <= MAX_DURATION_SECONDS && !(0 < pooling_delta_seconds
                <= MAX_DURATION_SECONDS) ==> r == Err::<Config, ConfigError>(
                ConfigError::InvalidDelta,
            ),
            0 < pooling_period_seconds <= MAX_DURATION_SECONDS && 0 < pooling_delta_seconds
                <= MAX_DURATION_SECONDS ==> (r matches Ok(c) && c.pooling_period_seconds
                == pooling_period_seconds && c.pooling_delta_seconds == pooling_delta_seconds
                && c.wf()),
    {
        if pooling_period_seconds <= 0 || pooling_period_seconds > MAX_DURATION_SECONDS {
            Err(ConfigError::InvalidPeriod)
        } else if pooling_delta_seconds <= 0 || pooling_delta_seconds > MAX_DURATION_SECONDS {
            Err(ConfigError::InvalidDelta)
        } else {
            Ok(Config { pooling_period_seconds, pooling_delta_seconds })
        }
    }
}

} // verus!

//! Run configuration and its validation.

use vstd::prelude::*;

verus! {

/// Per-invocation settings, read once at startup and never mutated:
/// the continuous-mode flag, the refresh interval in whole seconds, and
/// the detail-level flag.
#[derive(Clone, Copy, Debug, PartialEq, Eq, Structural)]
pub struct Args {
    /// Continuous updates until cancelled.
    pub watch: bool,
    /// Refresh interval in seconds; meaningful only in watch mode.
    pub interval: u64,
    /// Show all CPU cores and longer process lists.
    pub detailed: bool,
}

/// A configuration value rejected at startup.
#[derive(Clone, Copy, Debug, PartialEq, Eq, Structural)]
pub enum ConfigError {
    /// The refresh interval must be a positive number of seconds.
    ZeroInterval,
}

/// Form the run configuration from raw flag values, rejecting an interval
/// of zero before the refresh loop is entered.
pub fn parse_args(watch: bool, interval: u64, detailed: bool) -> (r: Result<Args, ConfigError>)
    ensures
        interval >= 1 ==> r == Ok::<Args, ConfigError>(Args { watch, interval, detailed }),
        interval == 0 ==> r == Err::<Args, ConfigError>(ConfigError::ZeroInterval),
{
    if interval == 0 {
        Err(ConfigError::ZeroInterval)
    } else {
        Ok(Args { watch, interval, detailed })
    }
}

} // verus!

use vstd::prelude::*;

verus! {

/// Bounds for the per-tick batch size: every tick draws a send count in
/// `[min, max]` inclusive, and the ephemeral account pool holds `max`
/// accounts.
#[derive(Clone, Copy, Debug, PartialEq, Eq, Structural)]
pub struct Config {
    pub min: u8,
    pub max: u8,
}

/// The fatal configuration error: bounds that no tick could satisfy.
#[derive(Clone, Copy, Debug, PartialEq, Eq, Structural)]
pub enum ConfigError {
    InconsistentRange,
}

/// Bounds are usable when the range `[min, max]` is non-empty and admits at
/// least one send per tick.
pub open spec fn spec_valid_bounds(min: u8, max: u8) -> bool {
    min <= max && 1 <= max
}

impl Config {
    pub open spec fn wf(self) -> bool {
        spec_valid_bounds(self.min, self.max)
    }

    /// Checks the configured bounds before anything else runs: `max < min` or
    /// `max == 0` is rejected here, ahead of any network activity, which only
    /// a validated `Config` can lead to.
    pub fn validate(min: u8, max: u8) -> (r: Result<Config, ConfigError>)
        ensures
            r is Ok <==> spec_valid_bounds(min, max),
            r is Ok ==> r->Ok_0 == (Config { min, max }),
            r is Err ==> r->Err_0 == ConfigError::InconsistentRange,
    {
        if max < min || max == 0 {
            Err(ConfigError::InconsistentRange)
        } else {
            Ok(Config { min, max })
        }
    }
}

} // verus!

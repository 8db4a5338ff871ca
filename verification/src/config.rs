//! Synthesis configuration supplied by the calling environment: the
//! fixed logical viewport size, the follow threshold of the clustering
//! rule, and the fixed zoom stamped on every synthesized waypoint.

use vstd::prelude::*;
use crate::geometry::{valid_dim, COORD_LIMIT};

verus! {

/// Configuration for one synthesis run. All lengths are in the same
/// integer world unit as the event positions; `target_zoom` is an
/// opaque value stamped unchanged on every waypoint (a rendering hint,
/// never read by the clustering or query logic).
#[derive(Clone, Copy, Debug, PartialEq, Eq, Structural)]
pub struct Config {
    pub view_w: i64,
    pub view_h: i64,
    pub follow_threshold: i64,
    pub target_zoom: i64,
}

/// A configuration error, reported to the caller before synthesis
/// begins; synthesis never starts on an invalid configuration.
#[derive(Clone, Copy, Debug, PartialEq, Eq, Structural)]
pub enum ConfigError {
    /// A viewport dimension is zero, negative, or above `COORD_LIMIT`.
    InvalidViewport,
    /// The follow threshold is negative or above `COORD_LIMIT`.
    InvalidThreshold,
}

/// Both viewport dimensions are usable.
pub open spec fn valid_viewport(cfg: Config) -> bool {
    valid_dim(cfg.view_w as int) && valid_dim(cfg.view_h as int)
}

/// The follow threshold is non-negative and bounded.
pub open spec fn valid_threshold(cfg: Config) -> bool {
    0 <= cfg.follow_threshold <= COORD_LIMIT
}

/// The configuration synthesis accepts.
pub open spec fn valid_config(cfg: Config) -> bool {
    valid_viewport(cfg) && valid_threshold(cfg)
}

/// The error synthesis reports for an invalid configuration; the
/// viewport is checked first.
pub open spec fn config_error_of(cfg: Config) -> ConfigError {
    if !valid_viewport(cfg) {
        ConfigError::InvalidViewport
    } else {
        ConfigError::InvalidThreshold
    }
}

} // verus!

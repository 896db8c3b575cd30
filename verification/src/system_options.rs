//! What a host can ask of the star system.

use vstd::prelude::*;
use crate::fixed::ONE;

verus! {

/// The options of a star system. A host that leaves one out gets its
/// default.
#[derive(Clone, Debug)]
pub struct StarSystemOptions {
    /// One of `debug`, `info`, `warn` and `error`.
    pub log_level: String,
    /// How many stars the sky starts with.
    pub star_count: u32,
    /// The colour behind the stars, as `#RRGGBB` or `#RRGGBBAA`.
    pub clear_color: String,
    /// How fast the stars of the canvas renderer fade, per frame.
    pub fade_speed: i64,
    /// Whether to try the instanced renderer first.
    pub use_advanced: bool,
    /// The size scale of the stars, from 0.1 to 4.
    pub star_size: i64,
}

impl Default for StarSystemOptions {
    fn default() -> (options: StarSystemOptions)
        ensures
            options.log_level@ == "warn"@,
            options.star_count == 1000,
            options.clear_color@ == "#000000"@,
            options.fade_speed == 1_000,
            options.use_advanced,
            options.star_size == ONE,
    {
        StarSystemOptions {
            log_level: default_log_level(),
            star_count: default_star_count(),
            clear_color: default_clear_color(),
            fade_speed: default_fade_speed(),
            use_advanced: default_use_advanced(),
            star_size: default_star_size(),
        }
    }
}

/// Warnings and errors are logged.
pub fn default_log_level() -> (level: String)
    ensures
        level@ == "warn"@,
{
    "warn".to_owned()
}

/// A thousand stars.
pub fn default_star_count() -> (count: u32)
    ensures
        count == 1000,
{
    1000
}

/// Black.
pub fn default_clear_color() -> (color: String)
    ensures
        color@ == "#000000"@,
{
    "#000000".to_owned()
}

/// A thousandth per frame.
pub fn default_fade_speed() -> (speed: i64)
    ensures
        speed == 1_000,
{
    1_000
}

/// The instanced renderer is tried first.
pub fn default_use_advanced() -> (advanced: bool)
    ensures
        advanced,
{
    true
}

/// Stars at their natural size.
pub fn default_star_size() -> (size: i64)
    ensures
        size == ONE,
{
    ONE
}

} // verus!

//! The filter that keeps the polling errors of the Telegram library out of the log.
use vstd::prelude::*;

use crate::bot::sanitize::opt_text;
use crate::text::str_eq;

verus! {

/// Drops the events of the Telegram library's error handlers.
pub struct TeloxideNoiseFilter {}

/// Whether an event from the module `origin` is logged.
pub open spec fn noise_filter_passes(origin: Option<Seq<char>>) -> bool {
    !(origin matches Some(p) && p == "teloxide::error_handlers"@)
}

impl TeloxideNoiseFilter {
    /// Whether an event from the module `origin` (where the event names
    /// one) is logged: all are, but those of `teloxide::error_handlers`.
    pub fn enabled(&self, origin: Option<&str>) -> (res: bool)
        ensures
            res == noise_filter_passes(opt_text(origin)),
    {
        match origin {
            Some(p) => !str_eq(p, "teloxide::error_handlers"),
            None => true,
        }
    }
}

} // verus!

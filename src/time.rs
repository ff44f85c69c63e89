use vstd::prelude::*;

use core::time::Duration;

verus! {

/// A monotonic clock: the time elapsed since a fixed epoch.
pub trait Uptime {
    fn get(&self) -> Duration;
}

/// Relies on `Duration::as_millis`: the whole milliseconds of a duration.
pub assume_specification[ Duration::as_millis ](d: &Duration) -> u128;

} // verus!

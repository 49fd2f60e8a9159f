//! Where the registry gets the time from.

use crate::framework::clock_seconds;
use vstd::prelude::*;

verus! {

/// A source of the current time, in whole seconds since the Unix epoch.
///
/// Everything in this library that depends on the time takes it as an argument;
/// a provider is asked once per step and the answer handed on.
pub trait TimeProvider: Send + Sync {
    fn now(&self) -> (seconds: i64);
}

/// The provider that reads the machine's clock.
pub struct RealTimeProvider;

impl RealTimeProvider {
    pub fn new() -> (provider: Self) {
        Self {  }
    }
}

impl TimeProvider for RealTimeProvider {
    fn now(&self) -> (seconds: i64) {
        clock_seconds()
    }
}

} // verus!

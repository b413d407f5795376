//! A small wall-clock facade.
//!
//! The conflux handshake measures a round-trip time and computes a
//! handshake deadline, so it needs a way to read the wall clock.  A
//! [`DynTimeProvider`] either reads the real system clock or reports a
//! fixed instant, which makes the code that consumes time deterministic
//! under test.  All times are in whole milliseconds since the Unix epoch.
//!
//! Nothing may be assumed about the system clock: it is not monotonic, and
//! consumers must tolerate readings that go backward.

use vstd::prelude::*;

verus! {

/// Where a [`DynTimeProvider`] gets its readings.
#[derive(Clone, Copy, Debug, PartialEq, Eq, Structural)]
pub enum TimeProviderImpl {
    /// Read the real system clock.
    System,
    /// Always report this instant; for tests and simulations.
    Fixed(u64),
}

/// A type-erased wall-clock reader.
#[derive(Clone, Copy, Debug, PartialEq, Eq, Structural)]
pub struct DynTimeProvider {
    /// The clock behind this provider.
    pub imp: TimeProviderImpl,
}

/// Relies on `std::time::SystemTime::now`: returns whatever the system
/// clock reads, as whole milliseconds since the Unix epoch (zero if the
/// clock reads earlier than the epoch).  Nothing is promised about the
/// value: the system clock can move backward between any two readings.
#[verifier::external_body]
fn system_wallclock_millis() -> u64 {
    match std::time::SystemTime::now().duration_since(std::time::UNIX_EPOCH) {
        Ok(d) => d.as_millis() as u64,
        Err(_) => 0,
    }
}

impl DynTimeProvider {
    /// A provider that reads the real system clock.
    pub fn new() -> (r: Self)
        ensures
            r.imp == TimeProviderImpl::System,
    {
        DynTimeProvider { imp: TimeProviderImpl::System }
    }

    /// A provider pinned to a fixed instant, for tests and simulations.
    pub fn fixed(now_millis: u64) -> (r: Self)
        ensures
            r.imp == TimeProviderImpl::Fixed(now_millis),
    {
        DynTimeProvider { imp: TimeProviderImpl::Fixed(now_millis) }
    }

    /// The current wall-clock time, in milliseconds since the Unix epoch.
    ///
    /// For a fixed provider this is exactly the pinned instant; for the
    /// system clock no value can be promised.
    pub fn wallclock(&self) -> (r: u64)
        ensures
            self.imp matches TimeProviderImpl::Fixed(t) ==> r == t,
    {
        match &self.imp {
            TimeProviderImpl::System => system_wallclock_millis(),
            TimeProviderImpl::Fixed(t) => *t,
        }
    }
}

} // verus!

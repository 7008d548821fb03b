//! Shared storage for a runtime-configured tick rate.

use core::sync::atomic::{AtomicU32, Ordering};
use vstd::prelude::*;

verus! {

/// Relies on `critical_section::with`: it acquires the platform's critical
/// section, runs the closure -- here a single atomic store of the new rate
/// -- and releases the section afterwards, so the store cannot interleave
/// with another context's frequency change.
#[verifier::external_body]
fn store_frequency(cell: &AtomicU32, khz: u32) {
    critical_section::with(|_cs| cell.store(khz, Ordering::Relaxed))
}

/// A holder through which a tick rate determined at run time (for example
/// after clock-tree setup) is published once and read thereafter by many
/// timeout instances.
///
/// The rate is shared mutable state: another execution context may publish
/// a new rate between any two reads, so nothing relates the value of one
/// load to another. Writes are guarded by the platform critical section;
/// reads are single atomic loads and may stay unsynchronized.
pub struct FrequencyHolder {
    frequency: AtomicU32,
}

impl FrequencyHolder {
    /// A holder initially publishing `frequency` kilohertz.
    pub fn new(frequency: u32) -> Self {
        FrequencyHolder { frequency: AtomicU32::new(frequency) }
    }

    /// Publishes a new rate in kilohertz, under the platform critical
    /// section.
    pub fn set(&self, frequency: u32) {
        store_frequency(&self.frequency, frequency)
    }

    /// The most recently published rate in kilohertz.
    pub fn get(&self) -> u32 {
        self.frequency.load(Ordering::Relaxed)
    }
}

} // verus!

//! The memory monitor: declarations for the host-memory readings that the
//! admission gate samples. What the host reports is machine state, so nothing
//! is promised of the values; the comparison against the configured ceiling
//! is verified separately in the admission module.

use vstd::prelude::*;

verus! {

#[verifier::external_type_specification]
#[verifier::external_body]
pub struct ExSystem(sysinfo::System);

/// Relies on sysinfo::System::new: a monitor with nothing loaded yet.
pub assume_specification[ sysinfo::System::new ]() -> sysinfo::System;

/// Relies on sysinfo::System::refresh_memory: re-reads the host RAM figures.
pub assume_specification[ sysinfo::System::refresh_memory ](s: &mut sysinfo::System);

/// Relies on sysinfo::System::used_memory: bytes of RAM in use, as the host
/// reports them; machine state, so nothing is promised of the value.
pub assume_specification[ sysinfo::System::used_memory ](s: &sysinfo::System) -> u64;

/// Relies on sysinfo::System::total_memory: total bytes of RAM, as the host
/// reports them; machine state, so nothing is promised of the value.
pub assume_specification[ sysinfo::System::total_memory ](s: &sysinfo::System) -> u64;

} // verus!

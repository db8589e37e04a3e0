//! The trusted boundary to the `sysinfo` crate: the system-metrics provider
//! that owns the raw CPU, memory and network counters. Every reading it
//! returns is a momentary fact about this machine, so none of these contracts
//! can pin a value down; the verified code takes the readings as arguments
//! and is proved for every value they could have.

use vstd::prelude::*;

verus! {

#[verifier::external_type_specification]
#[verifier::external_body]
pub struct ExSystem(sysinfo::System);

#[verifier::external_type_specification]
#[verifier::external_body]
pub struct ExNetworks(sysinfo::Networks);

#[verifier::external_type_specification]
#[verifier::external_body]
pub struct ExNetworkData(sysinfo::NetworkData);

/// Relies on sysinfo's `System::new_with_specifics`: a provider that will
/// refresh CPU usage and RAM alone, the explicit minimization for a
/// once-per-second poll.
#[verifier::external_body]
pub(crate) fn new_system() -> sysinfo::System {
    sysinfo::System::new_with_specifics(
        sysinfo::RefreshKind::nothing().with_memory(
            sysinfo::MemoryRefreshKind::nothing().with_ram(),
        ).with_cpu(sysinfo::CpuRefreshKind::nothing().with_cpu_usage()),
    )
}

/// Relies on sysinfo's `Networks::new_with_refreshed_list`: the network
/// interface list, loaded once.
#[verifier::external_body]
pub(crate) fn new_networks() -> sysinfo::Networks {
    sysinfo::Networks::new_with_refreshed_list()
}

/// Relies on sysinfo's `System::refresh_specifics`: re-reads CPU usage and
/// RAM from the operating system. What the new counters hold is machine
/// state, so nothing is promised of it.
#[verifier::external_body]
pub(crate) fn refresh_cpu_and_ram(system: &mut sysinfo::System) {
    system.refresh_specifics(
        sysinfo::RefreshKind::nothing().with_memory(
            sysinfo::MemoryRefreshKind::nothing().with_ram(),
        ).with_cpu(sysinfo::CpuRefreshKind::nothing().with_cpu_usage()),
    );
}

/// Relies on sysinfo's `System::used_memory`: RAM in use, in bytes, as of
/// the last refresh. A momentary machine fact; nothing is promised of it.
#[verifier::external_body]
pub(crate) fn used_memory(system: &sysinfo::System) -> u64 {
    system.used_memory()
}

/// Relies on sysinfo's `System::total_memory`: total RAM in bytes. A machine
/// fact; nothing is promised of it.
#[verifier::external_body]
pub(crate) fn total_memory(system: &sysinfo::System) -> u64 {
    system.total_memory()
}

/// Relies on sysinfo's `Networks::refresh(true)`: re-reads the interface
/// list and its counters, dropping interfaces the operating system no longer
/// exposes. The new contents are machine state; nothing is promised.
#[verifier::external_body]
pub(crate) fn refresh_networks(networks: &mut sysinfo::Networks) {
    networks.refresh(true);
}

/// Relies on sysinfo's `Networks::iter` and `NetworkData::transmitted` /
/// `received`: each interface's name with the bytes it sent and received
/// since the last refresh. The walk is over a hash map, so not even the
/// order is promised.
#[verifier::external_body]
pub(crate) fn network_counters(networks: &sysinfo::Networks) -> Vec<(String, u64, u64)> {
    networks.iter().map(
        |entry: (&String, &sysinfo::NetworkData)| (
            entry.0.clone(),
            entry.1.transmitted(),
            entry.1.received(),
        ),
    ).collect()
}

} // verus!

//! The applet state and its three seams: construct the initial state,
//! advance it on each timer tick, and render it as a short label. A tick
//! refreshes CPU/memory and network counters through the system-metrics
//! provider and recomputes the derived figures; the physical interface set
//! is re-scanned lazily, when a tick finds it older than the freshness
//! threshold.

use vstd::prelude::*;
use vstd::string::StringExecFns;
use crate::classify::{get_physical_interfaces, physical_of};
use crate::config::SysInfoConfig;
use crate::metrics::{aggregate_throughput, ram_percent_checked, ram_usage_percent, sum_rx, sum_tx};
use crate::sysext;
use crate::textfmt::{push_decimal, push_rate, spec_decimal, spec_rate};

verus! {

/// Seconds the physical interface set stays fresh. A tick whose elapsed time
/// since the last scan strictly exceeds this re-scans first; elapsed time
/// exactly at the threshold is still fresh.
pub const RESCAN_INTERVAL_SECS: u64 = 10;

/// What the hosting runtime sends the applet: the once-per-second timer tick.
#[derive(Debug, Clone)]
pub enum Message {
    Tick,
}

/// The applet state: the configuration, the provider's raw counter state,
/// the most recent derived metrics, and the physical interface set with the
/// time it was last scanned.
pub struct SysInfo {
    pub config: SysInfoConfig,
    pub system: sysinfo::System,
    pub networks: sysinfo::Networks,
    /// CPU usage as an integer percentage, rounded by the caller from the
    /// provider's floating-point reading, which this library does not touch.
    pub cpu_usage: u64,
    /// RAM usage as a truncated integer percentage, 0 to 100.
    pub ram_usage: u64,
    /// Bytes received over the physical interfaces since the last refresh;
    /// with a one-second tick, bytes per second.
    pub download_bytes: u128,
    /// Bytes transmitted over the physical interfaces since the last refresh.
    pub upload_bytes: u128,
    /// Wall-clock seconds at the last interface scan.
    pub last_scan_secs: u64,
    /// Interface names currently classified as physical and filter-passing.
    pub physical_interfaces: Vec<String>,
}

impl SysInfo {
    /// Construct the initial state: zeroed metrics, a fresh provider, and a
    /// first classification of the device-backed interface names.
    pub fn init(config: SysInfoConfig, device_backed: &Vec<String>, now_secs: u64) -> (s: Self)
        ensures
            s.config == config,
            s.cpu_usage == 0,
            s.ram_usage == 0,
            s.download_bytes == 0,
            s.upload_bytes == 0,
            s.last_scan_secs == now_secs,
            s.physical_interfaces@ == physical_of(device_backed@, config),
    {
        let physical_interfaces = get_physical_interfaces(device_backed, &config);
        SysInfo {
            config,
            system: sysext::new_system(),
            networks: sysext::new_networks(),
            cpu_usage: 0,
            ram_usage: 0,
            download_bytes: 0,
            upload_bytes: 0,
            last_scan_secs: now_secs,
            physical_interfaces,
        }
    }

    /// Whether the physical interface set has gone stale: strictly more than
    /// `RESCAN_INTERVAL_SECS` have elapsed since the last scan. Elapsed time
    /// exactly at the threshold is still fresh.
    pub fn needs_rescan(&self, now_secs: u64) -> (r: bool)
        requires
            now_secs >= self.last_scan_secs,
        ensures
            r == (now_secs - self.last_scan_secs > RESCAN_INTERVAL_SECS),
    {
        now_secs - self.last_scan_secs > RESCAN_INTERVAL_SECS
    }

    /// Replace the physical interface set with a fresh classification of the
    /// device-backed names and reset the scan clock. Nothing else changes.
    pub fn rescan_physical_interfaces(&mut self, device_backed: &Vec<String>, now_secs: u64)
        ensures
            final(self).physical_interfaces@ == physical_of(device_backed@, old(self).config),
            final(self).last_scan_secs == now_secs,
            final(self).config == old(self).config,
            final(self).cpu_usage == old(self).cpu_usage,
            final(self).ram_usage == old(self).ram_usage,
            final(self).download_bytes == old(self).download_bytes,
            final(self).upload_bytes == old(self).upload_bytes,
    {
        self.physical_interfaces = get_physical_interfaces(device_backed, &self.config);
        self.last_scan_secs = now_secs;
    }

    /// Recompute the derived metrics from one set of raw readings: the RAM
    /// percentage from the memory counters, and the aggregate throughput
    /// from the per-interface counters, restricted to the current physical
    /// interface set.
    pub fn apply_sample(
        &mut self,
        used_memory: u64,
        total_memory: u64,
        counters: &Vec<(String, u64, u64)>,
    )
        ensures
            final(self).cpu_usage == old(self).cpu_usage,
            final(self).ram_usage == ram_percent_checked(used_memory as int, total_memory as int),
            final(self).ram_usage <= 100,
            final(self).upload_bytes == sum_tx(counters@, old(self).physical_interfaces@),
            final(self).download_bytes == sum_rx(counters@, old(self).physical_interfaces@),
            final(self).config == old(self).config,
            final(self).physical_interfaces == old(self).physical_interfaces,
            final(self).last_scan_secs == old(self).last_scan_secs,
    {
        // A reading that claims more memory in use than the machine has is a
        // failed read and degrades to 0%, like every other failed read.
        self.ram_usage = if used_memory <= total_memory || total_memory == 0 {
            ram_usage_percent(used_memory, total_memory)
        } else {
            0
        };
        let rates = aggregate_throughput(counters, &self.physical_interfaces);
        self.upload_bytes = rates.0;
        self.download_bytes = rates.1;
    }

    /// One sampling tick: refresh CPU/memory and network counters through
    /// the provider, then recompute the derived metrics. The readings are
    /// machine state, so the contract pins what a tick never does: it leaves
    /// the configuration, the physical interface set, the scan clock and the
    /// CPU figure alone, and the RAM percentage it stores never exceeds 100.
    pub fn update_sysinfo_data(&mut self)
        ensures
            final(self).cpu_usage == old(self).cpu_usage,
            final(self).ram_usage <= 100,
            final(self).config == old(self).config,
            final(self).physical_interfaces == old(self).physical_interfaces,
            final(self).last_scan_secs == old(self).last_scan_secs,
    {
        sysext::refresh_cpu_and_ram(&mut self.system);
        let used = sysext::used_memory(&self.system);
        let total = sysext::total_memory(&self.system);
        sysext::refresh_networks(&mut self.networks);
        let counters = sysext::network_counters(&self.networks);
        self.apply_sample(used, total, &counters);
    }

    /// Advance the state on a message from the hosting runtime.
    pub fn update(&mut self, message: Message)
        ensures
            final(self).cpu_usage == old(self).cpu_usage,
            final(self).ram_usage <= 100,
            final(self).config == old(self).config,
            final(self).physical_interfaces == old(self).physical_interfaces,
            final(self).last_scan_secs == old(self).last_scan_secs,
    {
        match message {
            Message::Tick => self.update_sysinfo_data(),
        }
    }

    /// Store the CPU usage figure for the tick. The provider reports CPU
    /// usage as floating point, which this library does not touch, so the
    /// caller reads it after the tick's refresh, rounds it to an integer
    /// percentage, and hands it over here.
    pub fn set_cpu_usage(&mut self, cpu_usage: u64)
        ensures
            final(self).cpu_usage == cpu_usage,
            final(self).ram_usage == old(self).ram_usage,
            final(self).download_bytes == old(self).download_bytes,
            final(self).upload_bytes == old(self).upload_bytes,
            final(self).config == old(self).config,
            final(self).physical_interfaces == old(self).physical_interfaces,
            final(self).last_scan_secs == old(self).last_scan_secs,
    {
        self.cpu_usage = cpu_usage;
    }

    /// The label the widget shows: rounded CPU percent, integer RAM percent,
    /// and the download and upload rates in decimal megabytes per second
    /// with two decimal places.
    pub open spec fn spec_label(self) -> Seq<char> {
        "CPU "@ + spec_decimal(self.cpu_usage as nat) + "% RAM "@ + spec_decimal(
            self.ram_usage as nat,
        ) + "% ↓"@ + spec_rate(self.download_bytes as nat) + "MB/s ↑"@ + spec_rate(
            self.upload_bytes as nat,
        ) + "MB/s"@
    }

    /// Render the current state as the short label the widget displays.
    pub fn label(&self) -> (r: String)
        ensures
            r@ == self.spec_label(),
    {
        let mut out = String::new();
        out.append("CPU ");
        push_decimal(&mut out, self.cpu_usage as u128);
        out.append("% RAM ");
        push_decimal(&mut out, self.ram_usage as u128);
        out.append("% ↓");
        push_rate(&mut out, self.download_bytes);
        out.append("MB/s ↑");
        push_rate(&mut out, self.upload_bytes);
        out.append("MB/s");
        proof {
            assert(out@ =~= self.spec_label());
        }
        out
    }
}

} // verus!

//! A small system-metrics library: it samples CPU, memory and network
//! counters, classifies network interfaces as physical or not, and derives
//! the figures a status widget displays (RAM percentage, MB/s throughput).

pub mod applet;
pub mod classify;
pub mod config;
pub mod metrics;
pub mod sysext;
pub mod textfmt;

//! The user-facing configuration: optional include and exclude lists of
//! network-interface names. Loaded once at startup; a missing or malformed
//! entry falls back to the default, which filters nothing.

use vstd::prelude::*;

verus! {

/// Interface filtering configuration.
///
/// `include_interfaces`, when present, restricts the physical set to the
/// named interfaces; `exclude_interfaces`, when present, then removes the
/// named interfaces. Both absent means every physical interface passes.
#[derive(Debug)]
pub struct SysInfoConfig {
    pub include_interfaces: Option<Vec<String>>,
    pub exclude_interfaces: Option<Vec<String>>,
}

/// The default configuration: no include list and no exclude list.
pub open spec fn spec_default_config() -> SysInfoConfig {
    SysInfoConfig { include_interfaces: None, exclude_interfaces: None }
}

impl Default for SysInfoConfig {
    fn default() -> (r: Self)
        ensures
            r == spec_default_config(),
    {
        SysInfoConfig { include_interfaces: None, exclude_interfaces: None }
    }
}

impl SysInfoConfig {
    /// The configuration the process runs with: the entry the config store
    /// handed over, or the default (no filtering) when the store had no
    /// usable entry. Reading the store is the caller's business; this
    /// function owns only the fallback rule.
    pub fn config(entry: Option<SysInfoConfig>) -> (r: SysInfoConfig)
        ensures
            r == match entry {
                Some(c) => c,
                None => spec_default_config(),
            },
    {
        match entry {
            Some(c) => c,
            None => SysInfoConfig::default(),
        }
    }
}

} // verus!

//! Process-lifetime configuration: one substructure per vendor family.
//!
//! Loading this value from disk or environment is the caller's business; the
//! library consumes a fully populated value.

use vstd::prelude::*;

verus! {

/// Configuration of the TCP (kasa) family: a list of device IPv4 addresses.
pub struct KasaConfig {
    pub enabled: bool,
    pub addresses: Vec<String>,
}

/// Configuration of the UDP (govee) family: device IPv4 addresses and the
/// multicast scan timeout in milliseconds.
pub struct GoveeConfig {
    pub enabled: bool,
    pub addresses: Vec<String>,
    pub scan_timeout: u64,
}

/// Configuration of the HTTP bridge (hue) family.
pub struct HueConfig {
    pub enabled: bool,
    pub bridge_ip: Option<String>,
    pub username: Option<String>,
}

/// The whole configuration value.
pub struct CuteLightsConfig {
    pub kasa: KasaConfig,
    pub govee: GoveeConfig,
    pub hue: HueConfig,
}

/// Scan timeout used when the configuration does not name one.
pub fn default_scan_timeout() -> (r: u64)
    ensures
        r == 5000,
{
    5000
}

impl KasaConfig {
    /// A disabled family with no addresses.
    pub fn empty() -> (r: KasaConfig)
        ensures
            !r.enabled,
            r.addresses@.len() == 0,
    {
        KasaConfig { enabled: false, addresses: Vec::new() }
    }
}

impl GoveeConfig {
    /// A disabled family with no addresses and the default scan timeout.
    pub fn empty() -> (r: GoveeConfig)
        ensures
            !r.enabled,
            r.addresses@.len() == 0,
            r.scan_timeout == 5000,
    {
        GoveeConfig { enabled: false, addresses: Vec::new(), scan_timeout: default_scan_timeout() }
    }
}

impl HueConfig {
    /// A disabled family with no bridge coordinates.
    pub fn empty() -> (r: HueConfig)
        ensures
            !r.enabled,
            r.bridge_ip is None,
            r.username is None,
    {
        HueConfig { enabled: false, bridge_ip: None, username: None }
    }
}

impl CuteLightsConfig {
    /// A configuration with every family disabled.
    pub fn empty() -> (r: CuteLightsConfig)
        ensures
            !r.kasa.enabled,
            !r.govee.enabled,
            !r.hue.enabled,
    {
        CuteLightsConfig {
            kasa: KasaConfig::empty(),
            govee: GoveeConfig::empty(),
            hue: HueConfig::empty(),
        }
    }
}

} // verus!

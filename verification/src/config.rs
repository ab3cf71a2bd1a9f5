//! What is fixed when the firmware is built.

use vstd::prelude::*;

verus! {

/// The settings of one device: the network it joins and the place where it
/// looks for its manifest. Loaded once at startup and not changed after.
#[derive(Clone, Copy, Debug, PartialEq, Eq)]
pub struct Config {
    /// The name of the wireless network.
    pub wifi_ssid: &'static str,
    /// The key of the wireless network.
    pub wifi_psk: &'static str,
    /// The address of the manifest document.
    pub manifest_url: &'static str,
}

impl Config {
    /// Settings with nothing filled in.
    pub fn empty() -> (config: Config)
        ensures
            config.wifi_ssid@ == Seq::<char>::empty(),
            config.wifi_psk@ == Seq::<char>::empty(),
            config.manifest_url@ == Seq::<char>::empty(),
    {
        proof {
            reveal_strlit("");
        }
        Config { wifi_ssid: "", wifi_psk: "", manifest_url: "" }
    }

    /// Whether the address of the manifest is set: without one there is
    /// nothing to fetch.
    pub fn has_manifest_url(&self) -> (set: bool)
        ensures
            set == (self.manifest_url@.len() > 0),
    {
        !self.manifest_url.is_empty()
    }

    /// Whether a network name is set: without one the device cannot join.
    pub fn has_network(&self) -> (set: bool)
        ensures
            set == (self.wifi_ssid@.len() > 0),
    {
        !self.wifi_ssid.is_empty()
    }
}

} // verus!

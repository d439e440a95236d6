use vstd::prelude::*;

verus! {

/// Build-time settings of the Wi-Fi firmwares: the network to join.
/// Each field is empty unless the firmware's settings file gives it.
#[derive(Clone, Copy, Debug)]
pub struct Config {
    pub wifi_ssid: &'static str,
    pub wifi_password: &'static str,
}

impl Config {
    /// Settings that name the network `wifi_ssid` with key `wifi_password`.
    pub fn new(wifi_ssid: &'static str, wifi_password: &'static str) -> (c: Self)
        ensures
            c.wifi_ssid@ == wifi_ssid@,
            c.wifi_password@ == wifi_password@,
    {
        Config { wifi_ssid, wifi_password }
    }
}

impl Default for Config {
    /// The settings when the settings file gives none: both fields empty.
    fn default() -> (c: Self)
        ensures
            c.wifi_ssid@.len() == 0,
            c.wifi_password@.len() == 0,
    {
        proof {
            reveal_strlit("");
        }
        Config { wifi_ssid: "", wifi_password: "" }
    }
}

} // verus!

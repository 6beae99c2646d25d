//! How the board joins a network: the access point it opens when it has no network to
//! join, which stored configuration it keeps, and how long it waits to connect. The Wi-Fi
//! driver is the firmware's.
use vstd::prelude::*;
use crate::text::same_text;

verus! {

broadcast use vstd::string::group_string_axioms;

/// A configuration of the Wi-Fi driver, as far as the board reads it.
#[derive(Debug, Clone)]
pub enum WifiConfig {
    /// Join the network `ssid`.
    Client { ssid: String },
    /// Open an access point named `ssid`.
    AccessPoint { ssid: String },
    /// Something else.
    Other,
}

/// The name of the board's own access point.
pub open spec fn ap_ssid() -> Seq<char> {
    "E-Chess"@
}

/// The board's own access point: its name and password, on channel 1 for four clients.
pub struct AccessPointSettings {
    pub ssid: String,
    pub password: String,
    pub channel: u8,
    pub max_connections: u16,
}

/// The board's own access point.
pub fn ap_config() -> (r: AccessPointSettings)
    ensures
        r.ssid@ == ap_ssid(),
        r.password@ == "1337_e-chess"@,
        r.channel == 1,
        r.max_connections == 4,
{
    AccessPointSettings {
        ssid: "E-Chess".to_string(),
        password: "1337_e-chess".to_string(),
        channel: 1,
        max_connections: 4,
    }
}

/// The configuration to start with, from the stored one (`None` where none can be read):
/// a stored network or configuration is kept, but an access point of another name, or
/// nothing, gives way to the board's own access point, which is then stored (`true`).
pub fn choose_config(stored: Option<WifiConfig>) -> (r: (WifiConfig, bool))
    ensures
        match stored {
            None => r.0 matches WifiConfig::AccessPoint { ssid } && ssid@ == ap_ssid() && r.1,
            Some(WifiConfig::AccessPoint { ssid }) => if ssid@ == ap_ssid() {
                r.0 matches WifiConfig::AccessPoint { ssid: s } && s@ == ap_ssid() && !r.1
            } else {
                r.0 matches WifiConfig::AccessPoint { ssid: s } && s@ == ap_ssid() && r.1
            },
            Some(WifiConfig::Client { ssid }) => r.0 matches WifiConfig::Client { ssid: s } && s@ == ssid@ && !r.1,
            Some(WifiConfig::Other) => r.0 is Other && !r.1,
        },
{
    match stored {
        None => (WifiConfig::AccessPoint { ssid: ap_config().ssid }, true),
        Some(WifiConfig::AccessPoint { ssid }) => {
            if same_text(ssid.as_str(), "E-Chess") {
                (WifiConfig::AccessPoint { ssid }, false)
            } else {
                (WifiConfig::AccessPoint { ssid: ap_config().ssid }, true)
            }
        },
        Some(WifiConfig::Client { ssid }) => (WifiConfig::Client { ssid }, false),
        Some(WifiConfig::Other) => (WifiConfig::Other, false),
    }
}

/// What to do while waiting to join a network.
#[derive(Debug, Clone, Copy, PartialEq, Eq, Structural)]
pub enum ConnectStep {
    /// Connected.
    Connected,
    /// Wait a second more.
    Wait,
    /// Give up and open the board's own access point, keeping the stored settings.
    FallBack,
}

/// After `waited` seconds of waiting: connected, or wait while at most 15 seconds have
/// passed, else fall back to the access point.
pub fn connect_step(waited: u32, connected: bool) -> (r: ConnectStep)
    ensures
        connected ==> r == ConnectStep::Connected,
        !connected && waited > 15 ==> r == ConnectStep::FallBack,
        !connected && waited <= 15 ==> r == ConnectStep::Wait,
{
    if connected {
        ConnectStep::Connected
    } else if waited > 15 {
        ConnectStep::FallBack
    } else {
        ConnectStep::Wait
    }
}

} // verus!

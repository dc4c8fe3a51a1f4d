//! Configuration of the device: WiFi network and KNX gateway.
//!
//! One `KEY=value` entry per line.

use vstd::prelude::*;

verus! {

/// The configuration text.
pub const CONFIG: &'static str = "
WIFI_NETWORK=Your_WiFi_SSID
WIFI_PASSWORD=Your_WiFi_Password
KNX_GATEWAY_IP=192.168.1.10
";

} // verus!

//! The client configuration derived from a successful match.
//!
//! A configuration is only ever built from a validated credential plus
//! the channel of the matched scan entry; there is no path to a connect
//! request without a resolved channel. The authentication method is
//! fixed to WPA2-Personal: no negotiation, and no fallback to open,
//! WEP, or WPA3.

use vstd::prelude::*;

verus! {

/// The authentication method requested from the access point.
#[derive(Clone, Copy, Debug, PartialEq, Eq, Structural)]
pub enum AuthMethod {
    /// No authentication (open network).
    Open,
    /// Wired-equivalent privacy.
    Wep,
    /// WPA2 with a pre-shared key.
    Wpa2Personal,
    /// WPA3 with a pre-shared key.
    Wpa3Personal,
}

/// A directed client connection request: the validated credential bound
/// to the channel on which the target network was discovered.
#[derive(Clone, Copy, Debug)]
pub struct ClientConfiguration {
    /// The target network name.
    pub ssid: &'static str,
    /// The passphrase to authenticate with.
    pub password: &'static str,
    /// Always WPA2-Personal when derived from a match.
    pub auth_method: AuthMethod,
    /// The channel of the matched scan entry.
    pub channel: u8,
}

/// The configuration derived from a validated credential and a matched
/// channel.
pub open spec fn derived_configuration(
    ssid: &'static str,
    password: &'static str,
    channel: u8,
) -> ClientConfiguration {
    ClientConfiguration { ssid, password, auth_method: AuthMethod::Wpa2Personal, channel }
}

} // verus!

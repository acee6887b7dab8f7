//! Validated network credentials.
//!
//! A credential is a pair of a network name and a passphrase. The only
//! validation point is construction: neither value may be empty. The
//! bytes are preserved exactly as given, with no normalization, so that
//! the name can later be compared byte-for-byte against scan results.

use vstd::prelude::*;

verus! {

/// The credential validation errors.
#[derive(Clone, Copy, Debug, PartialEq, Eq, Structural)]
pub enum Error {
    /// The network name could not be parsed.
    InvalidSsid,
    /// The network name was empty.
    EmptySsid,
    /// The passphrase could not be parsed.
    InvalidWifiPsk,
    /// The passphrase was empty.
    EmptyWifiPsk,
}

impl Error {
    /// The human-readable message for this error.
    pub fn message(&self) -> (m: &'static str)
        ensures
            self is InvalidSsid ==> m@ == "could not parse SSID"@,
            self is EmptySsid ==> m@ == "SSID was empty"@,
            self is InvalidWifiPsk ==> m@ == "could not parse wifi password"@,
            self is EmptyWifiPsk ==> m@ == "wifi password was empty"@,
    {
        match self {
            Error::InvalidSsid => "could not parse SSID",
            Error::EmptySsid => "SSID was empty",
            Error::InvalidWifiPsk => "could not parse wifi password",
            Error::EmptyWifiPsk => "wifi password was empty",
        }
    }
}

/// A validated, non-empty network name.
#[derive(Clone, Copy, Debug)]
pub struct Ssid(&'static str);

impl View for Ssid {
    type V = Seq<char>;

    closed spec fn view(&self) -> Seq<char> {
        self.0@
    }
}

impl Ssid {
    /// The name as given at construction.
    pub closed spec fn spec_str(&self) -> &'static str {
        self.0
    }

    /// Validates a network name: it must be non-empty.
    pub fn new(ssid: &'static str) -> (r: Result<Self, Error>)
        ensures
            r is Err <==> ssid@.len() == 0,
            r is Err ==> r == Err::<Self, Error>(Error::EmptySsid),
            r matches Ok(s) ==> s.spec_str() == ssid && s@ == ssid@,
    {
        if ssid.is_empty() {
            return Err(Error::EmptySsid);
        }
        Ok(Self(ssid))
    }

    /// The validated name.
    pub fn as_str(&self) -> (r: &'static str)
        ensures
            r == self.spec_str(),
            r@ == self@,
    {
        self.0
    }
}

/// A validated, non-empty wireless passphrase.
#[derive(Clone, Copy, Debug)]
pub struct WifiPsk(&'static str);

impl View for WifiPsk {
    type V = Seq<char>;

    closed spec fn view(&self) -> Seq<char> {
        self.0@
    }
}

impl WifiPsk {
    /// The passphrase as given at construction.
    pub closed spec fn spec_str(&self) -> &'static str {
        self.0
    }

    /// Validates a passphrase: it must be non-empty.
    pub fn new(wifi_psk: &'static str) -> (r: Result<Self, Error>)
        ensures
            r is Err <==> wifi_psk@.len() == 0,
            r is Err ==> r == Err::<Self, Error>(Error::EmptyWifiPsk),
            r matches Ok(p) ==> p.spec_str() == wifi_psk && p@ == wifi_psk@,
    {
        if wifi_psk.is_empty() {
            return Err(Error::EmptyWifiPsk);
        }
        Ok(Self(wifi_psk))
    }

    /// The validated passphrase.
    pub fn as_str(&self) -> (r: &'static str)
        ensures
            r == self.spec_str(),
            r@ == self@,
    {
        self.0
    }
}

} // verus!

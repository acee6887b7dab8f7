//! The association state machine.
//!
//! The machine drives the ordered sequence start, scan, match,
//! configure, connect, await lease. It owns no radio itself: in each
//! non-terminal state it requests one [`RadioAction`]; the caller
//! performs that action against the radio and reports the outcome back
//! as a [`RadioEvent`]. Transitions are strictly sequential with no
//! backward edges: a configuration is only ever requested after a
//! match, a connect only after the configuration was applied, and the
//! lease wait only after the connection established. Every failure
//! puts the machine in the terminal failure state with the error
//! classified by the step that failed, and a terminal machine requests
//! no further action.
//!
//! Matching happens when the scan outcome is received: the scanned
//! state resolves immediately to a match or to `NetworkNotFound`.

use vstd::prelude::*;

use crate::config::AuthMethod;
use crate::config::ClientConfiguration;
use crate::config::derived_configuration;
use crate::credential::Ssid;
use crate::credential::WifiPsk;
use crate::handle::Ipv4Lease;
use crate::handle::WifiHandle;
use crate::scan::DiscoveredNetwork;
use crate::scan::find_channel;
use crate::scan::first_match_channel;

verus! {

/// The classified failures of the association sequence. Each is fatal
/// to the attempt; the core never retries internally.
#[derive(Clone, Copy, Debug, PartialEq, Eq, Structural)]
pub enum AssocError {
    /// The radio peripheral or event-loop context could not be
    /// acquired, or the radio could not be started.
    RadioUnavailable,
    /// The scan operation itself errored.
    ScanFailed,
    /// The scan succeeded but the target network was absent. Distinct
    /// from `ScanFailed` so the caller can decide to rescan or abort.
    NetworkNotFound,
    /// The radio refused the derived client configuration.
    ConfigurationRejected,
    /// Association or authentication failed.
    ConnectFailed,
    /// No IPv4 lease was obtained.
    LeaseFailed,
}

impl AssocError {
    /// The human-readable message for this failure.
    pub fn message(&self) -> (m: &'static str)
        ensures
            self is RadioUnavailable ==> m@ == "radio unavailable"@,
            self is ScanFailed ==> m@ == "network scan failed"@,
            self is NetworkNotFound ==> m@ == "could not find configured SSID"@,
            self is ConfigurationRejected ==> m@ == "radio rejected the client configuration"@,
            self is ConnectFailed ==> m@ == "could not connect to the network"@,
            self is LeaseFailed ==> m@ == "could not obtain a DHCP lease"@,
    {
        match self {
            AssocError::RadioUnavailable => "radio unavailable",
            AssocError::ScanFailed => "network scan failed",
            AssocError::NetworkNotFound => "could not find configured SSID",
            AssocError::ConfigurationRejected => "radio rejected the client configuration",
            AssocError::ConnectFailed => "could not connect to the network",
            AssocError::LeaseFailed => "could not obtain a DHCP lease",
        }
    }
}

/// The states of the association sequence, in their only order.
#[derive(Clone, Copy, Debug, PartialEq, Eq, Structural)]
pub enum AssocState {
    /// Nothing has happened yet.
    Idle,
    /// The radio is up with a default configuration and may scan.
    Started,
    /// The target network was found on `channel`.
    Matched { channel: u8 },
    /// The derived client configuration was applied.
    Configured,
    /// The connection established.
    Connected,
    /// Terminal success: an IPv4 lease was obtained.
    LeaseAcquired { lease: Ipv4Lease },
    /// Terminal failure, classified by the step that failed.
    Failed { error: AssocError },
}

/// The radio work the machine asks its caller to perform next.
#[derive(Clone, Copy, Debug)]
pub enum RadioAction {
    /// Acquire the radio peripheral and event-loop context, apply a
    /// default configuration, and start the radio so it can scan.
    AcquireAndStart,
    /// Perform a blocking network scan.
    Scan,
    /// Apply this client configuration to the radio.
    ApplyConfiguration(ClientConfiguration),
    /// Issue the connect request and block until it resolves.
    Connect,
    /// Block until an IPv4 lease is obtained.
    AwaitLease,
}

/// The outcome of a performed [`RadioAction`], reported back to the
/// machine by its caller.
#[derive(Clone, Debug)]
pub enum RadioEvent {
    /// The radio is up and ready to scan.
    Started,
    /// The scan finished with these discovered networks.
    ScanComplete(Vec<DiscoveredNetwork>),
    /// The client configuration was accepted.
    ConfigurationApplied,
    /// The connection established.
    Connected,
    /// An IPv4 lease was obtained.
    LeaseObtained(Ipv4Lease),
    /// The requested action failed.
    StepFailed,
}

/// Whether `st` may receive `ev`: each success event belongs to exactly
/// one state, and a failure may arrive in any non-terminal state.
pub open spec fn event_fits(st: AssocState, ev: RadioEvent) -> bool {
    match ev {
        RadioEvent::Started => st is Idle,
        RadioEvent::ScanComplete(_) => st is Started,
        RadioEvent::ConfigurationApplied => st is Matched,
        RadioEvent::Connected => st is Configured,
        RadioEvent::LeaseObtained(_) => st is Connected,
        RadioEvent::StepFailed => !(st is LeaseAcquired) && !(st is Failed),
    }
}

/// The error that classifies a failure in state `st`. Only non-terminal
/// states can fail; on the terminal states the result is never used.
pub open spec fn failure_of(st: AssocState) -> AssocError {
    match st {
        AssocState::Idle => AssocError::RadioUnavailable,
        AssocState::Started => AssocError::ScanFailed,
        AssocState::Matched { .. } => AssocError::ConfigurationRejected,
        AssocState::Configured => AssocError::ConnectFailed,
        AssocState::Connected => AssocError::LeaseFailed,
        AssocState::LeaseAcquired { .. } => AssocError::RadioUnavailable,
        AssocState::Failed { error } => error,
    }
}

/// The transition relation of the sequence, for a machine whose target
/// network is named `name` and whose state fits `ev`: each success
/// event advances to the next state in order — a finished scan resolves
/// immediately to the first entry named `name`, or fails with
/// `NetworkNotFound` — and a failure event ends the attempt with the
/// error of the failing step.
pub open spec fn spec_step(st: AssocState, name: Seq<char>, ev: RadioEvent) -> AssocState {
    match ev {
        RadioEvent::Started => AssocState::Started,
        RadioEvent::ScanComplete(results) => match first_match_channel(results@, name) {
            Some(channel) => AssocState::Matched { channel },
            None => AssocState::Failed { error: AssocError::NetworkNotFound },
        },
        RadioEvent::ConfigurationApplied => AssocState::Configured,
        RadioEvent::Connected => AssocState::Connected,
        RadioEvent::LeaseObtained(lease) => AssocState::LeaseAcquired { lease },
        RadioEvent::StepFailed => AssocState::Failed { error: failure_of(st) },
    }
}

/// The radio action a machine in state `st` requests from its caller,
/// for the credential (`ssid`, `psk`): one action per non-terminal
/// state, in sequence order, and none once the sequence has ended. The
/// configuration requested after a match is exactly the one derived
/// from the credential and the matched channel.
pub open spec fn action_for(
    st: AssocState,
    ssid: &'static str,
    psk: &'static str,
) -> Option<RadioAction> {
    match st {
        AssocState::Idle => Some(RadioAction::AcquireAndStart),
        AssocState::Started => Some(RadioAction::Scan),
        AssocState::Matched { channel } => Some(
            RadioAction::ApplyConfiguration(derived_configuration(ssid, psk, channel)),
        ),
        AssocState::Configured => Some(RadioAction::Connect),
        AssocState::Connected => Some(RadioAction::AwaitLease),
        AssocState::LeaseAcquired { .. } => None,
        AssocState::Failed { .. } => None,
    }
}

/// Drives the association sequence for one validated credential.
/// Constructed idle; stepped by [`AssociationStateMachine::on_event`];
/// consumed by [`AssociationStateMachine::into_outcome`] once terminal.
pub struct AssociationStateMachine {
    ssid: Ssid,
    psk: WifiPsk,
    state: AssocState,
}

impl AssociationStateMachine {
    /// The current state of the sequence.
    pub closed spec fn spec_state(&self) -> AssocState {
        self.state
    }

    /// The validated target network name.
    pub closed spec fn spec_ssid(&self) -> Ssid {
        self.ssid
    }

    /// The validated passphrase.
    pub closed spec fn spec_psk(&self) -> WifiPsk {
        self.psk
    }

    /// A fresh, idle machine for one validated credential. Validation
    /// happened strictly earlier, so no radio action is ever requested
    /// for a credential that failed it.
    pub fn new(ssid: Ssid, psk: WifiPsk) -> (r: Self)
        ensures
            r.spec_state() == AssocState::Idle,
            r.spec_ssid() == ssid,
            r.spec_psk() == psk,
    {
        Self { ssid, psk, state: AssocState::Idle }
    }

    /// The radio action to perform next, or `None` once the sequence
    /// has ended.
    pub fn next_action(&self) -> (r: Option<RadioAction>)
        ensures
            r == action_for(self.spec_state(), self.spec_ssid().spec_str(), self.spec_psk().spec_str()),
    {
        match self.state {
            AssocState::Idle => Some(RadioAction::AcquireAndStart),
            AssocState::Started => Some(RadioAction::Scan),
            AssocState::Matched { channel } => Some(
                RadioAction::ApplyConfiguration(
                    ClientConfiguration {
                        ssid: self.ssid.as_str(),
                        password: self.psk.as_str(),
                        auth_method: AuthMethod::Wpa2Personal,
                        channel,
                    },
                ),
            ),
            AssocState::Configured => Some(RadioAction::Connect),
            AssocState::Connected => Some(RadioAction::AwaitLease),
            AssocState::LeaseAcquired { .. } => None,
            AssocState::Failed { .. } => None,
        }
    }

    /// Whether the sequence has ended, in success or failure.
    pub fn is_terminal(&self) -> (r: bool)
        ensures
            r == (self.spec_state() is LeaseAcquired || self.spec_state() is Failed),
    {
        match self.state {
            AssocState::LeaseAcquired { .. } => true,
            AssocState::Failed { .. } => true,
            _ => false,
        }
    }

    /// Advances the sequence by the outcome of the action just
    /// performed. The new state is exactly [`spec_step`] of the old
    /// one; the credential is untouched.
    pub fn on_event(&mut self, ev: RadioEvent)
        requires
            event_fits(old(self).spec_state(), ev),
        ensures
            final(self).spec_state() == spec_step(old(self).spec_state(), old(self).spec_ssid()@, ev),
            final(self).spec_ssid() == old(self).spec_ssid(),
            final(self).spec_psk() == old(self).spec_psk(),
    {
        match ev {
            RadioEvent::Started => {
                self.state = AssocState::Started;
            }
            RadioEvent::ScanComplete(results) => {
                match find_channel(&results, self.ssid.as_str()) {
                    Some(channel) => {
                        self.state = AssocState::Matched { channel };
                    }
                    None => {
                        self.state = AssocState::Failed { error: AssocError::NetworkNotFound };
                    }
                }
            }
            RadioEvent::ConfigurationApplied => {
                self.state = AssocState::Configured;
            }
            RadioEvent::Connected => {
                self.state = AssocState::Connected;
            }
            RadioEvent::LeaseObtained(lease) => {
                self.state = AssocState::LeaseAcquired { lease };
            }
            RadioEvent::StepFailed => {
                let error = match self.state {
                    AssocState::Idle => AssocError::RadioUnavailable,
                    AssocState::Started => AssocError::ScanFailed,
                    AssocState::Matched { .. } => AssocError::ConfigurationRejected,
                    AssocState::Configured => AssocError::ConnectFailed,
                    AssocState::Connected => AssocError::LeaseFailed,
                    // Unreachable: terminal states receive no events.
                    AssocState::LeaseAcquired { .. } => AssocError::RadioUnavailable,
                    AssocState::Failed { error } => error,
                };
                self.state = AssocState::Failed { error };
            }
        }
    }

    /// The result of a finished sequence: the associated session on
    /// success, the classified error on failure.
    pub fn into_outcome(self) -> (r: Result<WifiHandle, AssocError>)
        requires
            self.spec_state() is LeaseAcquired || self.spec_state() is Failed,
        ensures
            self.spec_state() matches AssocState::LeaseAcquired { lease } ==> (r matches Ok(h)
                && h.spec_active() && h.spec_lease() == lease),
            self.spec_state() matches AssocState::Failed { error } ==> r == Err::<
                WifiHandle,
                AssocError,
            >(error),
    {
        match self.state {
            AssocState::LeaseAcquired { lease } => Ok(WifiHandle::acquire(lease)),
            AssocState::Failed { error } => Err(error),
            // Unreachable: the sequence has ended.
            _ => Err(AssocError::RadioUnavailable),
        }
    }
}

/// A scan without the target network halts the sequence: from the
/// scanning state, a scan outcome in which no entry is named `name`
/// fails with `NetworkNotFound`, and the failed machine requests no
/// further radio action — in particular, no configuration is ever
/// applied and no connect is ever issued.
pub proof fn lemma_network_not_found(
    scan: Vec<DiscoveredNetwork>,
    name: Seq<char>,
    ssid: &'static str,
    psk: &'static str,
)
    requires
        forall|i: int| 0 <= i < scan@.len() ==> scan@[i].ssid@ != name,
    ensures
        spec_step(AssocState::Started, name, RadioEvent::ScanComplete(scan)) == (AssocState::Failed {
            error: AssocError::NetworkNotFound,
        }),
        action_for(
            spec_step(AssocState::Started, name, RadioEvent::ScanComplete(scan)),
            ssid,
            psk,
        ) is None,
{
    crate::scan::lemma_first_match_none(scan@, name);
}

/// A scan whose only entry named `name` is entry `i` resolves to that
/// entry's channel, and the configuration then requested is exactly the
/// derived one: the credential's name and passphrase, WPA2-Personal
/// authentication, and that entry's channel.
pub proof fn lemma_unique_match_configures_channel(
    scan: Vec<DiscoveredNetwork>,
    name: Seq<char>,
    i: int,
    ssid: &'static str,
    psk: &'static str,
)
    requires
        0 <= i < scan@.len(),
        scan@[i].ssid@ == name,
        forall|j: int| 0 <= j < scan@.len() && j != i ==> scan@[j].ssid@ != name,
    ensures
        spec_step(AssocState::Started, name, RadioEvent::ScanComplete(scan)) == (AssocState::Matched {
            channel: scan@[i].channel,
        }),
        action_for(AssocState::Matched { channel: scan@[i].channel }, ssid, psk) == Some(
            RadioAction::ApplyConfiguration(derived_configuration(ssid, psk, scan@[i].channel)),
        ),
        derived_configuration(ssid, psk, scan@[i].channel).channel == scan@[i].channel,
        derived_configuration(ssid, psk, scan@[i].channel).auth_method == AuthMethod::Wpa2Personal,
        derived_configuration(ssid, psk, scan@[i].channel).ssid == ssid,
        derived_configuration(ssid, psk, scan@[i].channel).password == psk,
{
    crate::scan::lemma_first_match_selects_first(scan@, name, i);
}

} // verus!

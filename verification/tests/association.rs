use trmnl_core::assoc::AssocError;
use trmnl_core::assoc::AssociationStateMachine;
use trmnl_core::assoc::RadioAction;
use trmnl_core::assoc::RadioEvent;
use trmnl_core::config::AuthMethod;
use trmnl_core::config::ClientConfiguration;
use trmnl_core::credential::Ssid;
use trmnl_core::credential::WifiPsk;
use trmnl_core::handle::Ipv4Lease;
use trmnl_core::handle::WifiHandle;
use trmnl_core::handle::pack_ipv4;
use trmnl_core::scan::DiscoveredNetwork;

/// Which step, if any, the mock radio fails at.
#[derive(Clone, Copy, PartialEq)]
enum FailAt {
    Nowhere,
    Start,
    Scan,
    Configure,
    Connect,
    Lease,
}

/// A scripted radio that records every invocation.
struct MockRadio {
    scan_results: Vec<DiscoveredNetwork>,
    lease: Ipv4Lease,
    fail_at: FailAt,
    invocations: u32,
    applied_configurations: Vec<ClientConfiguration>,
    connect_calls: u32,
    disable_calls: u32,
}

impl MockRadio {
    fn new(scan_results: Vec<DiscoveredNetwork>, lease: Ipv4Lease) -> Self {
        Self {
            scan_results,
            lease,
            fail_at: FailAt::Nowhere,
            invocations: 0,
            applied_configurations: Vec::new(),
            connect_calls: 0,
            disable_calls: 0,
        }
    }

    fn perform(&mut self, action: RadioAction) -> RadioEvent {
        self.invocations += 1;
        match action {
            RadioAction::AcquireAndStart => {
                if self.fail_at == FailAt::Start {
                    RadioEvent::StepFailed
                } else {
                    RadioEvent::Started
                }
            }
            RadioAction::Scan => {
                if self.fail_at == FailAt::Scan {
                    RadioEvent::StepFailed
                } else {
                    RadioEvent::ScanComplete(self.scan_results.clone())
                }
            }
            RadioAction::ApplyConfiguration(configuration) => {
                if self.fail_at == FailAt::Configure {
                    RadioEvent::StepFailed
                } else {
                    self.applied_configurations.push(configuration);
                    RadioEvent::ConfigurationApplied
                }
            }
            RadioAction::Connect => {
                if self.fail_at == FailAt::Connect {
                    RadioEvent::StepFailed
                } else {
                    self.connect_calls += 1;
                    RadioEvent::Connected
                }
            }
            RadioAction::AwaitLease => {
                if self.fail_at == FailAt::Lease {
                    RadioEvent::StepFailed
                } else {
                    RadioEvent::LeaseObtained(self.lease)
                }
            }
        }
    }

    fn disable(&mut self) {
        self.disable_calls += 1;
    }
}

fn lease_192_168_1_42() -> Ipv4Lease {
    Ipv4Lease {
        addr: pack_ipv4(192, 168, 1, 42),
        gateway: pack_ipv4(192, 168, 1, 1),
        mask: 24,
    }
}

/// Runs the whole association sequence against the mock radio.
fn associate(
    ssid: Ssid,
    psk: WifiPsk,
    radio: &mut MockRadio,
) -> Result<WifiHandle, AssocError> {
    let mut machine = AssociationStateMachine::new(ssid, psk);
    while let Some(action) = machine.next_action() {
        let event = radio.perform(action);
        machine.on_event(event);
    }
    assert!(machine.is_terminal());
    machine.into_outcome()
}

fn credential() -> (Ssid, WifiPsk) {
    (Ssid::new("wirt 2.4").unwrap(), WifiPsk::new("rosy&nina").unwrap())
}

#[test]
fn invalid_credential_makes_no_radio_call() {
    let mut radio = MockRadio::new(Vec::new(), lease_192_168_1_42());
    let ssid = Ssid::new("");
    let psk = WifiPsk::new("");
    assert!(ssid.is_err());
    assert!(psk.is_err());
    // Validation gates entry into the state machine: with either
    // credential rejected, no machine is built and the radio is idle.
    assert_eq!(radio.invocations, 0);
    assert_eq!(radio.applied_configurations.len(), 0);
}

#[test]
fn end_to_end_success_records_derived_configuration() {
    let (ssid, psk) = credential();
    let mut radio = MockRadio::new(
        vec![DiscoveredNetwork { ssid: "wirt 2.4".to_owned(), channel: 6 }],
        lease_192_168_1_42(),
    );
    let outcome = associate(ssid, psk, &mut radio);
    let handle = outcome.unwrap();
    assert!(handle.is_active());
    assert_eq!(handle.lease().addr, pack_ipv4(192, 168, 1, 42));
    assert_eq!(radio.applied_configurations.len(), 1);
    let configuration = &radio.applied_configurations[0];
    assert_eq!(configuration.ssid, "wirt 2.4");
    assert_eq!(configuration.password, "rosy&nina");
    assert_eq!(configuration.channel, 6);
    assert_eq!(configuration.auth_method, AuthMethod::Wpa2Personal);
    assert_eq!(radio.connect_calls, 1);
}

#[test]
fn empty_scan_fails_with_network_not_found() {
    let (ssid, psk) = credential();
    let mut radio = MockRadio::new(Vec::new(), lease_192_168_1_42());
    let outcome = associate(ssid, psk, &mut radio);
    assert!(matches!(outcome, Err(AssocError::NetworkNotFound)));
    // No configuration or connect call was made, so nothing lingers on
    // the radio after a release.
    assert_eq!(radio.applied_configurations.len(), 0);
    assert_eq!(radio.connect_calls, 0);
    radio.disable();
    assert_eq!(radio.disable_calls, 1);
}

#[test]
fn absent_network_fails_with_network_not_found() {
    let (ssid, psk) = credential();
    let mut radio = MockRadio::new(
        vec![
            DiscoveredNetwork { ssid: "neighbour".to_owned(), channel: 1 },
            DiscoveredNetwork { ssid: "wirt 5".to_owned(), channel: 36 },
        ],
        lease_192_168_1_42(),
    );
    let outcome = associate(ssid, psk, &mut radio);
    assert!(matches!(outcome, Err(AssocError::NetworkNotFound)));
    assert_eq!(radio.applied_configurations.len(), 0);
    assert_eq!(radio.connect_calls, 0);
}

#[test]
fn duplicate_names_use_first_scan_entry() {
    let ssid = Ssid::new("B").unwrap();
    let psk = WifiPsk::new("pw").unwrap();
    let mut radio = MockRadio::new(
        vec![
            DiscoveredNetwork { ssid: "A".to_owned(), channel: 1 },
            DiscoveredNetwork { ssid: "B".to_owned(), channel: 1 },
            DiscoveredNetwork { ssid: "B".to_owned(), channel: 11 },
        ],
        lease_192_168_1_42(),
    );
    let outcome = associate(ssid, psk, &mut radio);
    assert!(outcome.is_ok());
    assert_eq!(radio.applied_configurations.len(), 1);
    assert_eq!(radio.applied_configurations[0].channel, 1);
}

#[test]
fn release_is_idempotent() {
    let (ssid, psk) = credential();
    let mut radio = MockRadio::new(
        vec![DiscoveredNetwork { ssid: "wirt 2.4".to_owned(), channel: 6 }],
        lease_192_168_1_42(),
    );
    let mut handle = associate(ssid, psk, &mut radio).unwrap();
    if handle.release() {
        radio.disable();
    }
    if handle.release() {
        radio.disable();
    }
    assert!(!handle.is_active());
    assert_eq!(radio.disable_calls, 1);
}

#[test]
fn start_failure_is_radio_unavailable() {
    let (ssid, psk) = credential();
    let mut radio = MockRadio::new(Vec::new(), lease_192_168_1_42());
    radio.fail_at = FailAt::Start;
    let outcome = associate(ssid, psk, &mut radio);
    assert!(matches!(outcome, Err(AssocError::RadioUnavailable)));
    assert_eq!(radio.invocations, 1);
}

#[test]
fn scan_failure_is_distinct_from_not_found() {
    let (ssid, psk) = credential();
    let mut radio = MockRadio::new(
        vec![DiscoveredNetwork { ssid: "wirt 2.4".to_owned(), channel: 6 }],
        lease_192_168_1_42(),
    );
    radio.fail_at = FailAt::Scan;
    let outcome = associate(ssid, psk, &mut radio);
    assert!(matches!(outcome, Err(AssocError::ScanFailed)));
}

#[test]
fn rejected_configuration_is_classified() {
    let (ssid, psk) = credential();
    let mut radio = MockRadio::new(
        vec![DiscoveredNetwork { ssid: "wirt 2.4".to_owned(), channel: 6 }],
        lease_192_168_1_42(),
    );
    radio.fail_at = FailAt::Configure;
    let outcome = associate(ssid, psk, &mut radio);
    assert!(matches!(outcome, Err(AssocError::ConfigurationRejected)));
    assert_eq!(radio.connect_calls, 0);
}

#[test]
fn connect_failure_is_classified() {
    let (ssid, psk) = credential();
    let mut radio = MockRadio::new(
        vec![DiscoveredNetwork { ssid: "wirt 2.4".to_owned(), channel: 6 }],
        lease_192_168_1_42(),
    );
    radio.fail_at = FailAt::Connect;
    let outcome = associate(ssid, psk, &mut radio);
    assert!(matches!(outcome, Err(AssocError::ConnectFailed)));
}

#[test]
fn lease_failure_is_classified() {
    let (ssid, psk) = credential();
    let mut radio = MockRadio::new(
        vec![DiscoveredNetwork { ssid: "wirt 2.4".to_owned(), channel: 6 }],
        lease_192_168_1_42(),
    );
    radio.fail_at = FailAt::Lease;
    let outcome = associate(ssid, psk, &mut radio);
    assert!(matches!(outcome, Err(AssocError::LeaseFailed)));
    assert_eq!(radio.connect_calls, 1);
}

#[test]
fn error_messages_are_distinct() {
    let messages = [
        AssocError::RadioUnavailable.message(),
        AssocError::ScanFailed.message(),
        AssocError::NetworkNotFound.message(),
        AssocError::ConfigurationRejected.message(),
        AssocError::ConnectFailed.message(),
        AssocError::LeaseFailed.message(),
    ];
    for i in 0..messages.len() {
        for j in 0..messages.len() {
            if i != j {
                assert_ne!(messages[i], messages[j]);
            }
        }
    }
}

#[test]
fn pack_ipv4_packs_most_significant_first() {
    assert_eq!(pack_ipv4(192, 168, 1, 42), 0xC0A8012A);
    assert_eq!(pack_ipv4(0, 0, 0, 0), 0);
    assert_eq!(pack_ipv4(255, 255, 255, 255), u32::MAX);
}

use wifi_bringup::bringup::{
    Action, BringUp, Config, Event, HaltReason, LinkCredential, LinkStatus, Stage, SOCKET_SLOTS,
};
use wifi_bringup::endpoint::{RemoteEndpoint, RemoteIp, WireEndpoint};
use wifi_bringup::error::{AdapterError, HandshakeFailure, NbError, SessionError, TransportFault};
use wifi_bringup::session::{Certificates, HandshakeReport, Mode, TlsVersion};

fn config() -> Config<'static> {
    Config {
        credential: LinkCredential { network: "home", passphrase: "correct horse" },
        remote: RemoteEndpoint { ip: RemoteIp::V4([52, 28, 41, 87]), port: 8883 },
        hostname: "broker.example.net",
        mode: Mode::Client,
        version: TlsVersion::Tls1_2,
        certificates: Certificates {
            root_ca: b"root ca\0",
            client_cert: Some(b"client certificate\0"),
            client_key: Some(b"client key\0"),
            password: None,
        },
    }
}

fn open_broker() -> Action {
    Action::Open(WireEndpoint { octets: [52, 28, 41, 87], port: 8883 })
}

fn happy_path() -> [Event; 8] {
    [
        Event::Configured(true),
        Event::Started(true),
        Event::AssociationIssued(true),
        Event::Association(LinkStatus::Associated),
        Event::Interface(true),
        Event::Opened(Ok(())),
        Event::Transport(true),
        Event::Handshake(HandshakeReport::Complete),
    ]
}

fn at(stage: Stage) -> BringUp<'static> {
    at_with(stage, config())
}

fn at_with(stage: Stage, config: Config<'static>) -> BringUp<'static> {
    let mut bringup = BringUp::new(config);
    for event in happy_path() {
        if bringup.stage() == stage {
            break;
        }
        bringup.step(event);
    }
    assert_eq!(bringup.stage(), stage);
    bringup
}

#[test]
fn the_interface_has_three_socket_slots() {
    assert_eq!(SOCKET_SLOTS, 3);
}

#[test]
fn bring_up_starts_by_configuring() {
    let bringup = BringUp::new(config());
    assert_eq!(bringup.stage(), Stage::Configuring);
    assert_eq!(bringup.action(), Action::Configure);
    assert_eq!(*bringup.config(), config());
    assert_eq!(bringup.handle(), None);
}

#[test]
fn bring_up_reaches_established_and_sends() {
    let mut bringup = BringUp::new(config());
    assert_eq!(bringup.step(Event::Configured(true)), Action::Start);
    assert_eq!(bringup.step(Event::Started(true)), Action::Associate);
    assert_eq!(bringup.step(Event::AssociationIssued(true)), Action::PollAssociation);
    assert_eq!(bringup.step(Event::Association(LinkStatus::Associated)), Action::PumpInterface);
    assert_eq!(bringup.step(Event::Interface(true)), open_broker());
    assert_eq!(bringup.step(Event::Opened(Ok(()))), Action::PollTransport);
    assert_eq!(bringup.step(Event::Transport(true)), Action::Handshake);
    assert_eq!(bringup.step(Event::Handshake(HandshakeReport::Complete)), Action::Ready);
    assert_eq!(bringup.stage(), Stage::Established);

    let room: usize = 1536;
    let small = [9u8; 23];
    let large = [9u8; 4000];
    assert_eq!(bringup.send(&small, Ok(small.len().min(room))), Ok(23));
    assert_eq!(bringup.send(&large, Ok(large.len().min(room))), Ok(1536));
    assert_eq!(bringup.receive(&small, Ok(5)), Ok(5));
}

#[test]
fn bring_up_with_waiting_at_every_stage() {
    let mut bringup = BringUp::new(config());
    let events = [
        Event::Configured(true),
        Event::Started(true),
        Event::AssociationIssued(true),
        Event::Association(LinkStatus::Pending),
        Event::Association(LinkStatus::Pending),
        Event::Association(LinkStatus::Associated),
        Event::Interface(false),
        Event::Interface(false),
        Event::Interface(true),
        Event::Opened(Err(TransportFault::Busy)),
        Event::Opened(Ok(())),
        Event::Transport(false),
        Event::Transport(true),
        Event::Handshake(HandshakeReport::WouldBlock),
        Event::Handshake(HandshakeReport::WouldBlock),
        Event::Handshake(HandshakeReport::Complete),
    ];
    assert_eq!(bringup.run(&events), Action::Ready);
    assert_eq!(bringup.stage(), Stage::Established);
}

#[test]
fn run_of_the_shortest_path_takes_eight_events() {
    let mut bringup = BringUp::new(config());
    assert_eq!(bringup.run(&happy_path()[..7]), Action::Handshake);
    assert_eq!(bringup.stage(), Stage::Handshaking);
    assert_eq!(bringup.run(&happy_path()[7..]), Action::Ready);
    assert_eq!(bringup.stage(), Stage::Established);
}

#[test]
fn run_without_events_changes_nothing() {
    let mut bringup = at(Stage::AwaitingAssociation);
    assert_eq!(bringup.run(&[]), Action::PollAssociation);
    assert_eq!(bringup.stage(), Stage::AwaitingAssociation);
}

#[test]
fn rejected_configuration_halts_before_association() {
    let mut bringup = BringUp::new(config());
    assert_eq!(bringup.step(Event::Configured(false)), Action::Halt);
    assert_eq!(bringup.stage(), Stage::Halted(HaltReason::ConfigureRejected));
    for event in happy_path() {
        assert_eq!(bringup.step(event), Action::Halt);
        assert_eq!(bringup.stage(), Stage::Halted(HaltReason::ConfigureRejected));
    }
}

#[test]
fn radio_that_does_not_start_halts() {
    let mut bringup = at(Stage::Starting);
    assert_eq!(bringup.step(Event::Started(false)), Action::Halt);
    assert_eq!(bringup.stage(), Stage::Halted(HaltReason::StartFailed));
}

#[test]
fn refused_association_halts() {
    let mut bringup = at(Stage::Associating);
    assert_eq!(bringup.step(Event::AssociationIssued(false)), Action::Halt);
    assert_eq!(bringup.stage(), Stage::Halted(HaltReason::AssociationRefused));
}

#[test]
fn pending_association_is_polled_again() {
    let mut bringup = at(Stage::AwaitingAssociation);
    for _ in 0..25 {
        assert_eq!(bringup.step(Event::Association(LinkStatus::Pending)), Action::PollAssociation);
        assert_eq!(bringup.stage(), Stage::AwaitingAssociation);
    }
}

#[test]
fn link_fault_halts() {
    let mut bringup = at(Stage::AwaitingAssociation);
    assert_eq!(bringup.step(Event::Association(LinkStatus::Fault)), Action::Halt);
    assert_eq!(bringup.stage(), Stage::Halted(HaltReason::LinkFault));
}

#[test]
fn missing_address_keeps_the_bring_up_waiting() {
    let mut bringup = at(Stage::AwaitingAddress);
    for _ in 0..1000 {
        assert_eq!(bringup.step(Event::Interface(false)), Action::PumpInterface);
        assert_eq!(bringup.stage(), Stage::AwaitingAddress);
        assert_eq!(bringup.handle(), None);
    }
    assert_eq!(bringup.step(Event::Interface(true)), open_broker());
    assert_eq!(bringup.stage(), Stage::OpeningTransport);
}

#[test]
fn address_stage_takes_the_first_slot() {
    let mut bringup = at(Stage::AwaitingAddress);
    bringup.step(Event::Interface(true));
    let handle = bringup.handle().unwrap();
    assert_eq!((handle.slot(), handle.ticket()), (0, 0));
}

#[test]
fn ipv6_remote_halts_as_unsupported() {
    let remote = RemoteEndpoint { ip: RemoteIp::V6([0; 16]), port: 8883 };
    let mut bringup = at_with(Stage::AwaitingAddress, Config { remote, ..config() });
    assert_eq!(bringup.step(Event::Interface(true)), Action::Halt);
    assert_eq!(
        bringup.stage(),
        Stage::Halted(HaltReason::Adapter(AdapterError::UnsupportedAddressFamily))
    );
}

#[test]
fn open_that_would_block_is_issued_again() {
    let mut bringup = at(Stage::OpeningTransport);
    for fault in [TransportFault::Busy, TransportFault::Failed] {
        assert_eq!(bringup.step(Event::Opened(Err(fault))), open_broker());
        assert_eq!(bringup.stage(), Stage::OpeningTransport);
    }
    assert_eq!(bringup.step(Event::Opened(Ok(()))), Action::PollTransport);
}

#[test]
fn unconnected_transport_is_polled_again() {
    let mut bringup = at(Stage::AwaitingTransport);
    for _ in 0..10 {
        assert_eq!(bringup.step(Event::Transport(false)), Action::PollTransport);
        assert_eq!(bringup.stage(), Stage::AwaitingTransport);
    }
    assert_eq!(bringup.step(Event::Transport(true)), Action::Handshake);
}

#[test]
fn empty_root_ca_halts_before_the_handshake() {
    let certificates = Certificates { root_ca: b"", ..config().certificates };
    let mut bringup = at_with(Stage::AwaitingTransport, Config { certificates, ..config() });
    assert_eq!(bringup.step(Event::Transport(true)), Action::Halt);
    assert_eq!(bringup.stage(), Stage::Halted(HaltReason::Session(SessionError::EmptyRootCa)));
    assert_eq!(bringup.step(Event::Handshake(HandshakeReport::Complete)), Action::Halt);
}

#[test]
fn half_a_client_identity_halts_before_the_handshake() {
    let certificates = Certificates { client_key: None, ..config().certificates };
    let mut bringup = at_with(Stage::AwaitingTransport, Config { certificates, ..config() });
    assert_eq!(bringup.step(Event::Transport(true)), Action::Halt);
    assert_eq!(
        bringup.stage(),
        Stage::Halted(HaltReason::Session(SessionError::IncompleteClientIdentity))
    );
}

#[test]
fn handshake_that_would_block_is_driven_on() {
    let mut bringup = at(Stage::Handshaking);
    for _ in 0..10 {
        assert_eq!(bringup.step(Event::Handshake(HandshakeReport::WouldBlock)), Action::Handshake);
        assert_eq!(bringup.stage(), Stage::Handshaking);
    }
    assert_eq!(bringup.step(Event::Handshake(HandshakeReport::Complete)), Action::Ready);
}

#[test]
fn failed_handshake_halts_with_its_reason() {
    for failure in [
        HandshakeFailure::CertificateRejected,
        HandshakeFailure::VersionMismatch,
        HandshakeFailure::PeerRejected,
    ] {
        let mut bringup = at(Stage::Handshaking);
        assert_eq!(bringup.step(Event::Handshake(HandshakeReport::Failed(failure))), Action::Halt);
        assert_eq!(
            bringup.stage(),
            Stage::Halted(HaltReason::Session(SessionError::Handshake(failure)))
        );
    }
}

#[test]
fn event_out_of_order_halts() {
    let stages = [
        Stage::Configuring,
        Stage::Starting,
        Stage::Associating,
        Stage::AwaitingAssociation,
        Stage::AwaitingAddress,
        Stage::OpeningTransport,
        Stage::AwaitingTransport,
        Stage::Handshaking,
    ];
    for (index, stage) in stages.iter().enumerate() {
        let wrong = happy_path()[(index + 1) % 8];
        let mut bringup = at(*stage);
        assert_eq!(bringup.step(wrong), Action::Halt);
        assert_eq!(bringup.stage(), Stage::Halted(HaltReason::OutOfOrder));
    }
}

#[test]
fn established_bring_up_takes_no_event_into_account() {
    let mut bringup = at(Stage::Established);
    for event in happy_path() {
        assert_eq!(bringup.step(event), Action::Ready);
    }
    assert_eq!(bringup.step(Event::Configured(false)), Action::Ready);
    assert_eq!(
        bringup.step(Event::Handshake(HandshakeReport::Failed(HandshakeFailure::PeerRejected))),
        Action::Ready
    );
    assert_eq!(bringup.stage(), Stage::Established);
}

#[test]
fn no_data_before_the_session_is_established() {
    let buffer = [1u8; 16];
    for stage in [
        Stage::Configuring,
        Stage::AwaitingAddress,
        Stage::OpeningTransport,
        Stage::AwaitingTransport,
        Stage::Handshaking,
    ] {
        let bringup = at(stage);
        assert_eq!(bringup.send(&buffer, Ok(16)), Err(NbError::Other(SessionError::NotEstablished)));
        assert_eq!(
            bringup.receive(&buffer, Ok(16)),
            Err(NbError::Other(SessionError::NotEstablished))
        );
    }
}

#[test]
fn no_data_after_a_halt() {
    let mut bringup = at(Stage::Handshaking);
    bringup.step(Event::Handshake(HandshakeReport::Failed(HandshakeFailure::PeerRejected)));
    let buffer = [1u8; 16];
    assert_eq!(bringup.send(&buffer, Ok(16)), Err(NbError::Other(SessionError::NotEstablished)));
}

#[test]
fn established_bring_up_tells_would_block_from_a_transfer() {
    let bringup = at(Stage::Established);
    let buffer = [1u8; 16];
    assert_eq!(bringup.send(&buffer, Ok(0)), Err(NbError::WouldBlock));
    assert_eq!(bringup.send(&buffer, Err(TransportFault::Busy)), Err(NbError::WouldBlock));
    assert_eq!(bringup.send(&buffer, Ok(17)), Err(NbError::Other(SessionError::TransferOverrun)));
    assert_eq!(bringup.send(&[], Ok(0)), Ok(0));
    assert_eq!(bringup.receive(&buffer, Ok(0)), Err(NbError::WouldBlock));
}

#[test]
fn socket_is_held_from_the_open_to_the_end() {
    for stage in [
        Stage::OpeningTransport,
        Stage::AwaitingTransport,
        Stage::Handshaking,
        Stage::Established,
    ] {
        let handle = at(stage).handle().unwrap();
        assert_eq!((handle.slot(), handle.ticket()), (0, 0));
    }
    for stage in [
        Stage::Configuring,
        Stage::Starting,
        Stage::Associating,
        Stage::AwaitingAssociation,
        Stage::AwaitingAddress,
    ] {
        assert_eq!(at(stage).handle(), None);
    }
}

#[test]
fn halted_bring_up_gives_its_socket_back() {
    let mut bringup = at(Stage::OpeningTransport);
    assert!(bringup.handle().is_some());
    assert_eq!(bringup.step(Event::Configured(true)), Action::Halt);
    assert_eq!(bringup.handle(), None);

    let mut bringup = at(Stage::Handshaking);
    bringup.step(Event::Handshake(HandshakeReport::Failed(HandshakeFailure::VersionMismatch)));
    assert_eq!(bringup.handle(), None);
}

//! The bring-up: link association, address acquisition, transport open and
//! secure handshake, in that order, as one state machine.
//!
//! The machine is driven from outside. `action` says what has to be done
//! next; the driver does it and hands what came of it to `step` as an event.
//! A stage either waits (the same action comes again), moves on to the next
//! stage, or halts for good. Nothing is retried after a halt.

use vstd::prelude::*;
use crate::adapter::{complete_open, open_outcome, SlotPool, SocketHandle, WifiTcpClientStack};
use crate::endpoint::{wire_endpoint, wire_endpoint_of, RemoteEndpoint, WireEndpoint};
use crate::error::{AdapterError, NbError, SessionError, TransportFault};
use crate::session::{
    bundle_fault,
    session_transfer,
    Certificates,
    HandshakeReport,
    Mode,
    Session,
    SessionState,
    TlsVersion,
};

verus! {

/// The number of socket slots of the interface that the bring-up uses.
pub const SOCKET_SLOTS: usize = 3;

/// The network to join and the passphrase that admits to it.
#[derive(Clone, Copy, Debug, PartialEq, Eq)]
pub struct LinkCredential<'a> {
    pub network: &'a str,
    pub passphrase: &'a str,
}

/// Everything the bring-up is told at start. Nothing of it changes later.
#[derive(Clone, Copy, Debug, PartialEq, Eq)]
pub struct Config<'a> {
    pub credential: LinkCredential<'a>,
    pub remote: RemoteEndpoint,
    pub hostname: &'a str,
    pub mode: Mode,
    pub version: TlsVersion,
    pub certificates: Certificates<'a>,
}

/// What the link manager answers to a status query.
#[derive(Clone, Copy, Debug, PartialEq, Eq, Structural)]
pub enum LinkStatus {
    /// Association is in progress.
    Pending,
    /// The station is associated.
    Associated,
    /// The radio reported a fault.
    Fault,
}

/// What came of the action that the driver performed.
#[derive(Clone, Copy, Debug, PartialEq, Eq)]
pub enum Event {
    /// The radio took the configuration (`true`) or rejected it.
    Configured(bool),
    /// The radio started in station mode (`true`) or did not.
    Started(bool),
    /// The radio took the request to associate (`true`) or refused it.
    AssociationIssued(bool),
    /// The answer to one status query on the link.
    Association(LinkStatus),
    /// Whether the interface has an address, after one quantum of work.
    Interface(bool),
    /// The transport's answer to one non-blocking open.
    Opened(Result<(), TransportFault>),
    /// Whether the transport reports the socket as connected.
    Transport(bool),
    /// The TLS engine's report after one attempt at the handshake.
    Handshake(HandshakeReport),
}

/// Why the bring-up halted.
#[derive(Clone, Copy, Debug, PartialEq, Eq, Structural)]
pub enum HaltReason {
    /// The radio rejected the configuration.
    ConfigureRejected,
    /// The radio did not start.
    StartFailed,
    /// The radio refused the request to associate.
    AssociationRefused,
    /// The radio reported a fault while associating.
    LinkFault,
    /// The socket adapter reported a hard fault.
    Adapter(AdapterError),
    /// The secure session could not be built, or its handshake failed.
    Session(SessionError),
    /// An event arrived that does not answer the action of the stage.
    OutOfOrder,
}

/// Where the bring-up stands.
#[derive(Clone, Copy, Debug, PartialEq, Eq, Structural)]
pub enum Stage {
    /// The radio has to be configured.
    Configuring,
    /// The radio has to be started.
    Starting,
    /// Association has to be requested.
    Associating,
    /// Association was requested and is awaited.
    AwaitingAssociation,
    /// The station is associated; the interface has no address yet.
    AwaitingAddress,
    /// A socket is held; the transport has not taken the open yet.
    OpeningTransport,
    /// The open was taken; the socket is not connected yet.
    AwaitingTransport,
    /// The socket is connected; the handshake is under way.
    Handshaking,
    /// The secure session is established.
    Established,
    /// The bring-up failed and has stopped.
    Halted(HaltReason),
}

/// What the driver has to do next.
#[derive(Clone, Copy, Debug, PartialEq, Eq)]
pub enum Action {
    /// Hand the credential to the radio.
    Configure,
    /// Start the radio in station mode.
    Start,
    /// Ask the radio to associate.
    Associate,
    /// Ask the link manager whether the station is associated.
    PollAssociation,
    /// Let the interface do one quantum of work, then ask whether it is up.
    PumpInterface,
    /// Issue a non-blocking open on this endpoint.
    Open(WireEndpoint),
    /// Ask the transport whether the socket is connected.
    PollTransport,
    /// Let the TLS engine make one attempt at the handshake.
    Handshake,
    /// Nothing: the secure session is ready for data.
    Ready,
    /// Nothing: the bring-up has halted.
    Halt,
}

/// The place of a stage in the order of the bring-up. A halt has none of its
/// own and is put behind the last.
pub open spec fn rank(stage: Stage) -> nat {
    match stage {
        Stage::Configuring => 0,
        Stage::Starting => 1,
        Stage::Associating => 2,
        Stage::AwaitingAssociation => 3,
        Stage::AwaitingAddress => 4,
        Stage::OpeningTransport => 5,
        Stage::AwaitingTransport => 6,
        Stage::Handshaking => 7,
        Stage::Established => 8,
        Stage::Halted(_) => 9,
    }
}

/// Whether the bring-up holds a socket in `stage`: from the open of the
/// transport on, and no longer once it has halted.
pub open spec fn holds_socket(stage: Stage) -> bool {
    rank(Stage::OpeningTransport) <= rank(stage) <= rank(Stage::Established)
}

/// The stage that follows `AwaitingAddress` once the interface is up: a
/// socket is taken and the remote translated, which fails for a remote that
/// is not IPv4.
pub open spec fn after_address(config: Config) -> Stage {
    match wire_endpoint_of(config.remote) {
        Ok(_) => Stage::OpeningTransport,
        Err(fault) => Stage::Halted(HaltReason::Adapter(fault)),
    }
}

/// The stage that follows `AwaitingTransport` once the socket is connected:
/// the session is built, which fails for a bundle with a fault.
pub open spec fn after_transport(config: Config) -> Stage {
    match bundle_fault(config.certificates) {
        None => Stage::Handshaking,
        Some(fault) => Stage::Halted(HaltReason::Session(fault)),
    }
}

/// The stage after `event` arrived in `stage`.
///
/// Each stage takes one kind of event, the answer to its action; any other
/// halts the bring-up as out of order. A rejected configuration, a radio that
/// does not start, a refused association and a link fault halt it. A pending
/// association, an interface without address, an open that would block, a
/// socket not yet connected and a handshake that would block leave the stage
/// as it is. An established or halted bring-up takes no event into account.
pub open spec fn stage_after(stage: Stage, event: Event, config: Config) -> Stage {
    match stage {
        Stage::Configuring => match event {
            Event::Configured(taken) => if taken {
                Stage::Starting
            } else {
                Stage::Halted(HaltReason::ConfigureRejected)
            },
            _ => Stage::Halted(HaltReason::OutOfOrder),
        },
        Stage::Starting => match event {
            Event::Started(started) => if started {
                Stage::Associating
            } else {
                Stage::Halted(HaltReason::StartFailed)
            },
            _ => Stage::Halted(HaltReason::OutOfOrder),
        },
        Stage::Associating => match event {
            Event::AssociationIssued(taken) => if taken {
                Stage::AwaitingAssociation
            } else {
                Stage::Halted(HaltReason::AssociationRefused)
            },
            _ => Stage::Halted(HaltReason::OutOfOrder),
        },
        Stage::AwaitingAssociation => match event {
            Event::Association(LinkStatus::Pending) => Stage::AwaitingAssociation,
            Event::Association(LinkStatus::Associated) => Stage::AwaitingAddress,
            Event::Association(LinkStatus::Fault) => Stage::Halted(HaltReason::LinkFault),
            _ => Stage::Halted(HaltReason::OutOfOrder),
        },
        Stage::AwaitingAddress => match event {
            Event::Interface(up) => if up {
                after_address(config)
            } else {
                Stage::AwaitingAddress
            },
            _ => Stage::Halted(HaltReason::OutOfOrder),
        },
        Stage::OpeningTransport => match event {
            Event::Opened(reported) => match open_outcome(reported) {
                Ok(()) => Stage::AwaitingTransport,
                Err(NbError::WouldBlock) => Stage::OpeningTransport,
                Err(NbError::Other(fault)) => Stage::Halted(HaltReason::Adapter(fault)),
            },
            _ => Stage::Halted(HaltReason::OutOfOrder),
        },
        Stage::AwaitingTransport => match event {
            Event::Transport(connected) => if connected {
                after_transport(config)
            } else {
                Stage::AwaitingTransport
            },
            _ => Stage::Halted(HaltReason::OutOfOrder),
        },
        Stage::Handshaking => match event {
            Event::Handshake(HandshakeReport::WouldBlock) => Stage::Handshaking,
            Event::Handshake(HandshakeReport::Complete) => Stage::Established,
            Event::Handshake(HandshakeReport::Failed(failure)) => Stage::Halted(
                HaltReason::Session(SessionError::Handshake(failure)),
            ),
            _ => Stage::Halted(HaltReason::OutOfOrder),
        },
        Stage::Established => Stage::Established,
        Stage::Halted(reason) => Stage::Halted(reason),
    }
}

/// The stage after a run of events, taken in order.
pub open spec fn stage_run(stage: Stage, events: Seq<Event>, config: Config) -> Stage
    decreases events.len(),
{
    if events.len() == 0 {
        stage
    } else {
        stage_after(stage_run(stage, events.drop_last(), config), events.last(), config)
    }
}

/// The action that a stage asks for.
pub open spec fn action_for(stage: Stage, config: Config) -> Action {
    match stage {
        Stage::Configuring => Action::Configure,
        Stage::Starting => Action::Start,
        Stage::Associating => Action::Associate,
        Stage::AwaitingAssociation => Action::PollAssociation,
        Stage::AwaitingAddress => Action::PumpInterface,
        Stage::OpeningTransport => match wire_endpoint_of(config.remote) {
            Ok(wire) => Action::Open(wire),
            Err(_) => Action::Halt,
        },
        Stage::AwaitingTransport => Action::PollTransport,
        Stage::Handshaking => Action::Handshake,
        Stage::Established => Action::Ready,
        Stage::Halted(_) => Action::Halt,
    }
}

/// What a transfer over a buffer of `len` bytes answers in a given stage:
/// that of an established session once the bring-up is established, and a
/// refusal before.
pub open spec fn stage_transfer(
    stage: Stage,
    len: nat,
    reported: Result<usize, TransportFault>,
) -> Result<usize, NbError<SessionError>> {
    if stage == Stage::Established {
        session_transfer(SessionState::Established, len, reported)
    } else {
        session_transfer(SessionState::Created, len, reported)
    }
}

/// The bring-up of one client: its configuration, its stage, the adapter
/// with the socket it holds, and the secure session once there is one.
pub struct BringUp<'a> {
    config: Config<'a>,
    stage: Stage,
    stack: WifiTcpClientStack,
    handle: Option<SocketHandle>,
    session: Option<Session<'a>>,
}

impl<'a> BringUp<'a> {
    /// Where the bring-up stands.
    pub closed spec fn stage_of(&self) -> Stage {
        self.stage
    }

    /// What the bring-up was told at start.
    pub closed spec fn config_of(&self) -> Config<'a> {
        self.config
    }

    /// What holds of the socket of a bring-up in each stage. Where it holds
    /// one, that is the first the adapter issued, its handle is live and the
    /// remote is IPv4; elsewhere it holds none, and before it took one every
    /// slot is free.
    spec fn socket_wf(&self) -> bool {
        &&& match self.handle {
            Some(handle) => {
                &&& holds_socket(self.stage)
                &&& handle.slot_index() == 0
                &&& handle.ticket_number() == 0
                &&& self.stack@.is_live(handle)
                &&& wire_endpoint_of(self.config.remote) is Ok
            },
            None => !holds_socket(self.stage),
        }
        &&& rank(self.stage) < rank(Stage::OpeningTransport) ==> self.stack@ == SlotPool::empty(
            SOCKET_SLOTS as nat,
        )
    }

    /// What holds of the session of a bring-up in each stage. There is one
    /// during the handshake, not yet ended, and afterwards, established; there
    /// is none in any other stage.
    spec fn session_wf(&self) -> bool {
        match self.session {
            Some(session) => match self.stage {
                Stage::Handshaking => session@.state == SessionState::Created || session@.state
                    == SessionState::Handshaking,
                Stage::Established => session@.state == SessionState::Established,
                _ => false,
            },
            None => self.stage != Stage::Handshaking && self.stage != Stage::Established,
        }
    }

    /// What holds of the parts of a bring-up in each stage: of its socket and
    /// of its session.
    pub closed spec fn wf(&self) -> bool {
        self.socket_wf() && self.session_wf()
    }

    /// A bring-up at its first stage.
    pub fn new(config: Config<'a>) -> (bringup: Self)
        ensures
            bringup.wf(),
            bringup.stage_of() == Stage::Configuring,
            bringup.config_of() == config,
    {
        BringUp {
            config,
            stage: Stage::Configuring,
            stack: WifiTcpClientStack::new(SOCKET_SLOTS),
            handle: None,
            session: None,
        }
    }

    /// Where the bring-up stands.
    pub fn stage(&self) -> (stage: Stage)
        ensures
            stage == self.stage_of(),
    {
        self.stage
    }

    /// What the bring-up was told at start.
    pub fn config(&self) -> (config: &Config<'a>)
        ensures
            *config == self.config_of(),
    {
        &self.config
    }

    /// The handle of the socket that the bring-up holds: the first that its
    /// adapter issued, in the stages in which it holds one.
    pub fn handle(&self) -> (handle: Option<SocketHandle>)
        requires
            self.wf(),
        ensures
            handle is Some <==> holds_socket(self.stage_of()),
            handle matches Some(held) ==> held.slot_index() == 0 && held.ticket_number() == 0,
    {
        self.handle
    }

    /// What the driver has to do next.
    pub fn action(&self) -> (action: Action)
        ensures
            action == action_for(self.stage_of(), self.config_of()),
    {
        match self.stage {
            Stage::Configuring => Action::Configure,
            Stage::Starting => Action::Start,
            Stage::Associating => Action::Associate,
            Stage::AwaitingAssociation => Action::PollAssociation,
            Stage::AwaitingAddress => Action::PumpInterface,
            Stage::OpeningTransport => match wire_endpoint(&self.config.remote) {
                Ok(wire) => Action::Open(wire),
                Err(_) => Action::Halt,
            },
            Stage::AwaitingTransport => Action::PollTransport,
            Stage::Handshaking => Action::Handshake,
            Stage::Established => Action::Ready,
            Stage::Halted(_) => Action::Halt,
        }
    }

    /// Halts the bring-up: the socket, if one is held, goes back to the pool,
    /// and the session, if there is one, is dropped.
    fn halt(&mut self, reason: HaltReason)
        requires
            old(self).socket_wf(),
        ensures
            final(self).wf(),
            final(self).config == old(self).config,
            final(self).stage == Stage::Halted(reason),
    {
        match self.handle {
            Some(handle) => {
                let _ = self.stack.close(handle);
                self.handle = None;
            },
            None => {},
        }
        self.session = None;
        self.stage = Stage::Halted(reason);
    }

    /// Takes a socket from the adapter and has the remote translated.
    fn acquire(&mut self)
        requires
            old(self).wf(),
            old(self).stage == Stage::AwaitingAddress,
        ensures
            final(self).wf(),
            final(self).config == old(self).config,
            final(self).stage == after_address(old(self).config),
    {
        assert(self.stack@.slots[0] is None);
        match self.stack.socket() {
            Err(fault) => {
                self.halt(HaltReason::Adapter(fault));
            },
            Ok(handle) => match self.stack.connect(&handle, &self.config.remote) {
                Ok(_) => {
                    self.handle = Some(handle);
                    self.stage = Stage::OpeningTransport;
                },
                Err(NbError::Other(fault)) => {
                    let _ = self.stack.close(handle);
                    self.stage = Stage::Halted(HaltReason::Adapter(fault));
                },
                Err(NbError::WouldBlock) => {
                    let _ = self.stack.close(handle);
                    self.stage = Stage::Halted(HaltReason::OutOfOrder);
                },
            },
        }
    }

    /// Builds the secure session over the socket that the bring-up holds.
    fn secure(&mut self)
        requires
            old(self).wf(),
            old(self).stage == Stage::AwaitingTransport,
        ensures
            final(self).wf(),
            final(self).config == old(self).config,
            final(self).stage == after_transport(old(self).config),
    {
        match self.handle {
            None => {
                self.halt(HaltReason::OutOfOrder);
            },
            Some(handle) => match Session::new(
                handle,
                self.config.hostname,
                self.config.mode,
                self.config.version,
                &self.config.certificates,
            ) {
                Ok(session) => {
                    self.session = Some(session);
                    self.stage = Stage::Handshaking;
                },
                Err(fault) => {
                    self.halt(HaltReason::Session(fault));
                },
            },
        }
    }

    /// Hands one report of the TLS engine to the session.
    fn handshake(&mut self, report: HandshakeReport)
        requires
            old(self).wf(),
            old(self).stage == Stage::Handshaking,
        ensures
            final(self).wf(),
            final(self).config == old(self).config,
            final(self).stage == stage_after(
                Stage::Handshaking,
                Event::Handshake(report),
                old(self).config,
            ),
    {
        let answer = match &mut self.session {
            Some(session) => session.connect(report),
            None => Err(SessionError::NotEstablished),
        };
        match answer {
            Ok(true) => {
                self.stage = Stage::Established;
            },
            Ok(false) => {},
            Err(fault) => {
                self.halt(HaltReason::Session(fault));
            },
        }
    }

    /// Takes `event` into account and says what the driver has to do next.
    /// Where the bring-up halts it gives its socket back to the pool.
    pub fn step(&mut self, event: Event) -> (action: Action)
        requires
            old(self).wf(),
        ensures
            final(self).wf(),
            final(self).config_of() == old(self).config_of(),
            final(self).stage_of() == stage_after(old(self).stage_of(), event, old(self).config_of()),
            action == action_for(final(self).stage_of(), final(self).config_of()),
    {
        match self.stage {
            Stage::Configuring => match event {
                Event::Configured(true) => {
                    self.stage = Stage::Starting;
                },
                Event::Configured(false) => {
                    self.halt(HaltReason::ConfigureRejected);
                },
                _ => {
                    self.halt(HaltReason::OutOfOrder);
                },
            },
            Stage::Starting => match event {
                Event::Started(true) => {
                    self.stage = Stage::Associating;
                },
                Event::Started(false) => {
                    self.halt(HaltReason::StartFailed);
                },
                _ => {
                    self.halt(HaltReason::OutOfOrder);
                },
            },
            Stage::Associating => match event {
                Event::AssociationIssued(true) => {
                    self.stage = Stage::AwaitingAssociation;
                },
                Event::AssociationIssued(false) => {
                    self.halt(HaltReason::AssociationRefused);
                },
                _ => {
                    self.halt(HaltReason::OutOfOrder);
                },
            },
            Stage::AwaitingAssociation => match event {
                Event::Association(LinkStatus::Pending) => {},
                Event::Association(LinkStatus::Associated) => {
                    self.stage = Stage::AwaitingAddress;
                },
                Event::Association(LinkStatus::Fault) => {
                    self.halt(HaltReason::LinkFault);
                },
                _ => {
                    self.halt(HaltReason::OutOfOrder);
                },
            },
            Stage::AwaitingAddress => match event {
                Event::Interface(true) => {
                    self.acquire();
                },
                Event::Interface(false) => {},
                _ => {
                    self.halt(HaltReason::OutOfOrder);
                },
            },
            Stage::OpeningTransport => match event {
                Event::Opened(reported) => match complete_open(reported) {
                    Ok(()) => {
                        self.stage = Stage::AwaitingTransport;
                    },
                    Err(NbError::WouldBlock) => {},
                    Err(NbError::Other(fault)) => {
                        self.halt(HaltReason::Adapter(fault));
                    },
                },
                _ => {
                    self.halt(HaltReason::OutOfOrder);
                },
            },
            Stage::AwaitingTransport => match event {
                Event::Transport(true) => {
                    self.secure();
                },
                Event::Transport(false) => {},
                _ => {
                    self.halt(HaltReason::OutOfOrder);
                },
            },
            Stage::Handshaking => match event {
                Event::Handshake(report) => {
                    self.handshake(report);
                },
                _ => {
                    self.halt(HaltReason::OutOfOrder);
                },
            },
            Stage::Established => {},
            Stage::Halted(_) => {},
        }
        self.action()
    }

    /// Takes a run of events into account, in order, and says what the driver
    /// has to do after the last.
    pub fn run(&mut self, events: &[Event]) -> (action: Action)
        requires
            old(self).wf(),
        ensures
            final(self).wf(),
            final(self).config_of() == old(self).config_of(),
            final(self).stage_of() == stage_run(old(self).stage_of(), events@, old(self).config_of()),
            action == action_for(final(self).stage_of(), final(self).config_of()),
    {
        let mut taken: usize = 0;
        let mut action = self.action();
        assert(events@.take(0) =~= Seq::<Event>::empty());
        while taken < events.len()
            invariant
                taken <= events@.len(),
                self.wf(),
                self.config_of() == old(self).config_of(),
                self.stage_of() == stage_run(
                    old(self).stage_of(),
                    events@.take(taken as int),
                    old(self).config_of(),
                ),
                action == action_for(self.stage_of(), self.config_of()),
            decreases events@.len() - taken,
        {
            action = self.step(events[taken]);
            proof {
                let upto = events@.take(taken as int + 1);
                assert(upto.drop_last() =~= events@.take(taken as int));
                assert(upto.last() == events@[taken as int]);
            }
            taken = taken + 1;
        }
        assert(events@.take(taken as int) =~= events@);
        action
    }

    /// Answers one non-blocking write of `buffer` through the secure session,
    /// given what the transport reported for it.
    pub fn send(&self, buffer: &[u8], written: Result<usize, TransportFault>) -> (sent: Result<
        usize,
        NbError<SessionError>,
    >)
        requires
            self.wf(),
        ensures
            sent == stage_transfer(self.stage_of(), buffer@.len(), written),
    {
        match self.stage {
            Stage::Established => match &self.session {
                Some(session) => session.send(buffer, written),
                None => Err(NbError::Other(SessionError::NotEstablished)),
            },
            _ => Err(NbError::Other(SessionError::NotEstablished)),
        }
    }

    /// Answers one non-blocking read into `buffer` through the secure session,
    /// given what the transport reported for it.
    pub fn receive(&self, buffer: &[u8], read: Result<usize, TransportFault>) -> (received: Result<
        usize,
        NbError<SessionError>,
    >)
        requires
            self.wf(),
        ensures
            received == stage_transfer(self.stage_of(), buffer@.len(), read),
    {
        match self.stage {
            Stage::Established => match &self.session {
                Some(session) => session.receive(buffer, read),
                None => Err(NbError::Other(SessionError::NotEstablished)),
            },
            _ => Err(NbError::Other(SessionError::NotEstablished)),
        }
    }
}

/// No stage is skipped: an event leaves the stage as it is, moves the
/// bring-up to the stage of the next rank, or halts it.
pub proof fn law_no_stage_is_skipped(stage: Stage, event: Event, config: Config)
    ensures
        ({
            let next = stage_after(stage, event, config);
            next is Halted || rank(next) == rank(stage) || rank(next) == rank(stage) + 1
        }),
{
}

/// A run of events moves the bring-up on by no more stages than it has
/// events, and never back.
pub proof fn law_run_keeps_the_order(stage: Stage, events: Seq<Event>, config: Config)
    ensures
        ({
            let end = stage_run(stage, events, config);
            end is Halted || rank(stage) <= rank(end) <= rank(stage) + events.len()
        }),
    decreases events.len(),
{
    if events.len() > 0 {
        law_run_keeps_the_order(stage, events.drop_last(), config);
        law_no_stage_is_skipped(
            stage_run(stage, events.drop_last(), config),
            events.last(),
            config,
        );
    }
}

/// The bring-up is established only after every stage had its event: no run
/// of fewer than eight events takes it from the first stage to the last.
pub proof fn law_established_takes_every_stage(events: Seq<Event>, config: Config)
    requires
        stage_run(Stage::Configuring, events, config) == Stage::Established,
    ensures
        events.len() >= 8,
{
    law_run_keeps_the_order(Stage::Configuring, events, config);
}

/// A halt and an established session are final: no event moves the bring-up
/// out of either.
pub proof fn law_end_is_final(stage: Stage, events: Seq<Event>, config: Config)
    requires
        stage is Halted || stage == Stage::Established,
    ensures
        stage_run(stage, events, config) == stage,
    decreases events.len(),
{
    if events.len() > 0 {
        law_end_is_final(stage, events.drop_last(), config);
    }
}

/// A run is the run of its first events followed by the run of the rest.
pub proof fn law_run_splits(stage: Stage, first: Seq<Event>, rest: Seq<Event>, config: Config)
    ensures
        stage_run(stage, first + rest, config) == stage_run(
            stage_run(stage, first, config),
            rest,
            config,
        ),
    decreases rest.len(),
{
    if rest.len() == 0 {
        assert(first + rest =~= first);
    } else {
        law_run_splits(stage, first, rest.drop_last(), config);
        assert((first + rest).drop_last() =~= first + rest.drop_last());
        assert((first + rest).last() == rest.last());
    }
}

/// A rejected configuration halts the bring-up at once and for good:
/// whatever events follow, it stays halted for that reason, the only action
/// it asks for is to halt, and association is never requested.
pub proof fn law_rejected_configuration_halts(later: Seq<Event>, config: Config)
    ensures
        ({
            let end = stage_run(Stage::Configuring, seq![Event::Configured(false)] + later, config);
            &&& end == Stage::Halted(HaltReason::ConfigureRejected)
            &&& action_for(end, config) == Action::Halt
        }),
{
    let first = seq![Event::Configured(false)];
    assert(first.drop_last() =~= Seq::<Event>::empty());
    assert(stage_run(Stage::Configuring, first.drop_last(), config) == Stage::Configuring);
    assert(stage_run(Stage::Configuring, first, config) == Stage::Halted(
        HaltReason::ConfigureRejected,
    ));
    law_run_splits(Stage::Configuring, first, later, config);
    law_end_is_final(Stage::Halted(HaltReason::ConfigureRejected), later, config);
}

/// While the interface reports no address the bring-up waits for one: after
/// any number of such reports it still stands at the address stage and asks
/// for the interface to be pumped, and no socket is opened.
pub proof fn law_no_address_no_progress(events: Seq<Event>, config: Config)
    requires
        forall|i: int| 0 <= i < events.len() ==> events[i] == Event::Interface(false),
    ensures
        stage_run(Stage::AwaitingAddress, events, config) == Stage::AwaitingAddress,
        action_for(stage_run(Stage::AwaitingAddress, events, config), config)
            == Action::PumpInterface,
    decreases events.len(),
{
    if events.len() > 0 {
        law_no_address_no_progress(events.drop_last(), config);
    }
}

/// With a faulty certificate bundle no handshake is ever begun: whatever
/// events arrive, the bring-up reaches neither the handshake nor an
/// established session.
pub proof fn law_faulty_bundle_never_handshakes(events: Seq<Event>, config: Config)
    requires
        bundle_fault(config.certificates) is Some,
    ensures
        ({
            let end = stage_run(Stage::Configuring, events, config);
            end is Halted || rank(end) < rank(Stage::Handshaking)
        }),
    decreases events.len(),
{
    if events.len() > 0 {
        law_faulty_bundle_never_handshakes(events.drop_last(), config);
    }
}

/// With a remote that is not IPv4 no open is ever issued: whatever events
/// arrive, the bring-up does not get beyond the address stage.
pub proof fn law_foreign_remote_never_opens(events: Seq<Event>, config: Config)
    requires
        config.remote.ip is V6,
    ensures
        ({
            let end = stage_run(Stage::Configuring, events, config);
            end is Halted || rank(end) < rank(Stage::OpeningTransport)
        }),
    decreases events.len(),
{
    if events.len() > 0 {
        law_foreign_remote_never_opens(events.drop_last(), config);
    }
}

} // verus!

//! The secure session: the check of the certificate bundle, the handshake
//! as a state machine, and data transfer once the session is established.

use vstd::prelude::*;
use crate::adapter::{complete_transfer, transfer_outcome, SocketHandle};
use crate::error::{AdapterError, HandshakeFailure, NbError, SessionError, TransportFault};

verus! {

/// Which side of the handshake the session takes.
#[derive(Clone, Copy, Debug, PartialEq, Eq, Structural)]
pub enum Mode {
    Client,
    Server,
}

/// The protocol version that the session asks for.
#[derive(Clone, Copy, Debug, PartialEq, Eq, Structural)]
pub enum TlsVersion {
    Tls1_2,
    Tls1_3,
}

/// The trust material of a session. The buffers are borrowed for as long as
/// the bundle lives and are never copied.
#[derive(Clone, Copy, Debug, PartialEq, Eq)]
pub struct Certificates<'a> {
    /// The root CA that the peer's certificate must chain to.
    pub root_ca: &'a [u8],
    /// The certificate that this side presents, if it authenticates itself.
    pub client_cert: Option<&'a [u8]>,
    /// The private key that belongs to `client_cert`.
    pub client_key: Option<&'a [u8]>,
    /// The password that unlocks `client_key`, if it is locked.
    pub password: Option<&'a [u8]>,
}

/// What is wrong with the shape of a bundle, if anything: the root CA must
/// not be empty, and client certificate and client key come together or not
/// at all. The root CA is looked at first.
pub open spec fn bundle_fault(certificates: Certificates) -> Option<SessionError> {
    if certificates.root_ca@.len() == 0 {
        Some(SessionError::EmptyRootCa)
    } else if (certificates.client_cert is Some) != (certificates.client_key is Some) {
        Some(SessionError::IncompleteClientIdentity)
    } else {
        None
    }
}

/// Checks the shape of a certificate bundle.
pub fn check_bundle(certificates: &Certificates) -> (checked: Result<(), SessionError>)
    ensures
        checked == match bundle_fault(*certificates) {
            Some(fault) => Err::<(), SessionError>(fault),
            None => Ok(()),
        },
{
    if certificates.root_ca.len() == 0 {
        Err(SessionError::EmptyRootCa)
    } else if certificates.client_cert.is_some() != certificates.client_key.is_some() {
        Err(SessionError::IncompleteClientIdentity)
    } else {
        Ok(())
    }
}

/// Where a session stands.
#[derive(Clone, Copy, Debug, PartialEq, Eq, Structural)]
pub enum SessionState {
    /// Built, handshake not begun.
    Created,
    /// The handshake has begun and has not ended.
    Handshaking,
    /// The handshake succeeded; the session carries data.
    Established,
    /// The handshake failed; the session is of no further use.
    Failed(HandshakeFailure),
}

/// What the TLS engine reports after one attempt to move the handshake on.
#[derive(Clone, Copy, Debug, PartialEq, Eq, Structural)]
pub enum HandshakeReport {
    /// The transport would block; the handshake stands where it stood.
    WouldBlock,
    /// The handshake is complete.
    Complete,
    /// The handshake failed for good.
    Failed(HandshakeFailure),
}

/// The state after one report. A session that is established or has failed
/// stays as it is. Otherwise would-block keeps the handshake going, and the
/// two other reports end it.
pub open spec fn handshake_step(state: SessionState, report: HandshakeReport) -> SessionState {
    match state {
        SessionState::Established => SessionState::Established,
        SessionState::Failed(failure) => SessionState::Failed(failure),
        _ => match report {
            HandshakeReport::WouldBlock => SessionState::Handshaking,
            HandshakeReport::Complete => SessionState::Established,
            HandshakeReport::Failed(failure) => SessionState::Failed(failure),
        },
    }
}

/// The state after a run of reports, taken in order.
pub open spec fn handshake_run(state: SessionState, reports: Seq<HandshakeReport>) -> SessionState
    decreases reports.len(),
{
    if reports.len() == 0 {
        state
    } else {
        handshake_step(handshake_run(state, reports.drop_last()), reports.last())
    }
}

/// What `connect` answers in a given state: whether the session is
/// established, or the failure that ended the handshake.
pub open spec fn handshake_answer(state: SessionState) -> Result<bool, SessionError> {
    match state {
        SessionState::Established => Ok(true),
        SessionState::Failed(failure) => Err(SessionError::Handshake(failure)),
        _ => Ok(false),
    }
}

/// What a transfer over a buffer of `len` bytes answers in a given state.
/// Before the handshake has succeeded every transfer is refused; afterwards
/// the answer is that of the raw socket.
pub open spec fn session_transfer(
    state: SessionState,
    len: nat,
    reported: Result<usize, TransportFault>,
) -> Result<usize, NbError<SessionError>> {
    if state == SessionState::Established {
        match transfer_outcome(len, reported) {
            Ok(count) => Ok(count),
            Err(NbError::WouldBlock) => Err(NbError::WouldBlock),
            Err(NbError::Other(_)) => Err(NbError::Other(SessionError::TransferOverrun)),
        }
    } else {
        Err(NbError::Other(SessionError::NotEstablished))
    }
}

/// What a session is, as plain values.
pub struct SessionView {
    pub handle: SocketHandle,
    pub hostname: Seq<char>,
    pub mode: Mode,
    pub version: TlsVersion,
    pub state: SessionState,
}

/// A secure session over one socket handle.
pub struct Session<'a> {
    handle: SocketHandle,
    hostname: &'a str,
    mode: Mode,
    version: TlsVersion,
    state: SessionState,
}

impl<'a> View for Session<'a> {
    type V = SessionView;

    closed spec fn view(&self) -> SessionView {
        SessionView {
            handle: self.handle,
            hostname: self.hostname@,
            mode: self.mode,
            version: self.version,
            state: self.state,
        }
    }
}

impl<'a> Session<'a> {
    /// Builds a session over `handle`. The bundle is checked first and nothing
    /// else is done: a bundle with a fault gives that fault and no session.
    pub fn new(
        handle: SocketHandle,
        hostname: &'a str,
        mode: Mode,
        version: TlsVersion,
        certificates: &Certificates,
    ) -> (built: Result<Session<'a>, SessionError>)
        ensures
            match built {
                Ok(session) => bundle_fault(*certificates) is None && session@ == (SessionView {
                    handle,
                    hostname: hostname@,
                    mode,
                    version,
                    state: SessionState::Created,
                }),
                Err(fault) => bundle_fault(*certificates) == Some(fault),
            },
            certificates.root_ca@.len() == 0 ==> built matches Err(SessionError::EmptyRootCa),
    {
        match check_bundle(certificates) {
            Err(fault) => Err(fault),
            Ok(()) => Ok(Session { handle, hostname, mode, version, state: SessionState::Created }),
        }
    }

    /// Where the session stands.
    pub fn state(&self) -> (state: SessionState)
        ensures
            state == self@.state,
    {
        self.state
    }

    /// The handle of the socket under the session.
    pub fn handle(&self) -> (handle: SocketHandle)
        ensures
            handle == self@.handle,
    {
        self.handle
    }

    /// The name that the peer has to prove.
    pub fn hostname(&self) -> (hostname: &'a str)
        ensures
            hostname@ == self@.hostname,
    {
        self.hostname
    }

    /// The side of the handshake that the session takes.
    pub fn mode(&self) -> (mode: Mode)
        ensures
            mode == self@.mode,
    {
        self.mode
    }

    /// The protocol version that the session asks for.
    pub fn version(&self) -> (version: TlsVersion)
        ensures
            version == self@.version,
    {
        self.version
    }

    /// Where the handshake stands: `Ok(true)` once established, `Ok(false)`
    /// while it has to be driven on, the failure once it has failed.
    pub fn status(&self) -> (answer: Result<bool, SessionError>)
        ensures
            answer == handshake_answer(self@.state),
    {
        match self.state {
            SessionState::Established => Ok(true),
            SessionState::Failed(failure) => Err(SessionError::Handshake(failure)),
            _ => Ok(false),
        }
    }

    /// Takes one report of the TLS engine into account and says where the
    /// handshake stands: `Ok(true)` once established, `Ok(false)` while it has
    /// to be driven on, the failure once it has failed. Would-block is absorbed
    /// here and never becomes a failure.
    pub fn connect(&mut self, report: HandshakeReport) -> (answer: Result<bool, SessionError>)
        ensures
            final(self)@ == (SessionView {
                state: handshake_step(old(self)@.state, report),
                ..old(self)@
            }),
            answer == handshake_answer(final(self)@.state),
    {
        let next = match self.state {
            SessionState::Established => SessionState::Established,
            SessionState::Failed(failure) => SessionState::Failed(failure),
            _ => match report {
                HandshakeReport::WouldBlock => SessionState::Handshaking,
                HandshakeReport::Complete => SessionState::Established,
                HandshakeReport::Failed(failure) => SessionState::Failed(failure),
            },
        };
        self.state = next;
        self.status()
    }

    /// Takes a run of reports into account, in order, and says where the
    /// handshake stands after the last.
    pub fn drive(&mut self, reports: &[HandshakeReport]) -> (answer: Result<bool, SessionError>)
        ensures
            final(self)@ == (SessionView {
                state: handshake_run(old(self)@.state, reports@),
                ..old(self)@
            }),
            answer == handshake_answer(final(self)@.state),
    {
        let mut taken: usize = 0;
        let mut answer = self.status();
        assert(reports@.take(0) =~= Seq::<HandshakeReport>::empty());
        while taken < reports.len()
            invariant
                taken <= reports@.len(),
                self@ == (SessionView {
                    state: handshake_run(old(self)@.state, reports@.take(taken as int)),
                    ..old(self)@
                }),
                answer == handshake_answer(self@.state),
            decreases reports@.len() - taken,
        {
            answer = self.connect(reports[taken]);
            proof {
                let upto = reports@.take(taken as int + 1);
                assert(upto.drop_last() =~= reports@.take(taken as int));
                assert(upto.last() == reports@[taken as int]);
            }
            taken = taken + 1;
        }
        assert(reports@.take(taken as int) =~= reports@);
        answer
    }

    /// Answers one non-blocking write of `buffer` through the session, given
    /// what the transport reported for it.
    pub fn send(&self, buffer: &[u8], written: Result<usize, TransportFault>) -> (sent: Result<
        usize,
        NbError<SessionError>,
    >)
        ensures
            sent == session_transfer(self@.state, buffer@.len(), written),
    {
        self.transfer(buffer.len(), written)
    }

    /// Answers one non-blocking read into `buffer` through the session, given
    /// what the transport reported for it.
    pub fn receive(&self, buffer: &[u8], read: Result<usize, TransportFault>) -> (received: Result<
        usize,
        NbError<SessionError>,
    >)
        ensures
            received == session_transfer(self@.state, buffer@.len(), read),
    {
        self.transfer(buffer.len(), read)
    }

    fn transfer(&self, len: usize, reported: Result<usize, TransportFault>) -> (answer: Result<
        usize,
        NbError<SessionError>,
    >)
        ensures
            answer == session_transfer(self@.state, len as nat, reported),
    {
        match self.state {
            SessionState::Established => match complete_transfer(len, reported) {
                Ok(count) => Ok(count),
                Err(NbError::WouldBlock) => Err(NbError::WouldBlock),
                Err(NbError::Other(_)) => Err(NbError::Other(SessionError::TransferOverrun)),
            },
            _ => Err(NbError::Other(SessionError::NotEstablished)),
        }
    }
}

/// A bundle without root CA is refused for that reason, whatever else it
/// holds.
pub proof fn law_empty_root_ca_is_refused(certificates: Certificates)
    requires
        certificates.root_ca@.len() == 0,
    ensures
        bundle_fault(certificates) == Some(SessionError::EmptyRootCa),
{
}

/// Would-block never fails a handshake: a session that has seen nothing but
/// would-block is still to be driven on.
pub proof fn law_would_block_is_absorbed(reports: Seq<HandshakeReport>)
    requires
        forall|i: int| 0 <= i < reports.len() ==> reports[i] == HandshakeReport::WouldBlock,
    ensures
        handshake_run(SessionState::Created, reports) == if reports.len() == 0 {
            SessionState::Created
        } else {
            SessionState::Handshaking
        },
        handshake_answer(handshake_run(SessionState::Created, reports)) == Ok::<
            bool,
            SessionError,
        >(false),
    decreases reports.len(),
{
    if reports.len() > 0 {
        law_would_block_is_absorbed(reports.drop_last());
    }
}

/// The end of a handshake is final: no report moves a session that is
/// established or has failed.
pub proof fn law_handshake_end_is_final(state: SessionState, reports: Seq<HandshakeReport>)
    requires
        state == SessionState::Established || state is Failed,
    ensures
        handshake_run(state, reports) == state,
    decreases reports.len(),
{
    if reports.len() > 0 {
        law_handshake_end_is_final(state, reports.drop_last());
    }
}

/// A session carries data only once its handshake has succeeded: in every
/// other state a transfer is refused, whatever the transport reported.
pub proof fn law_no_data_before_establishment(
    state: SessionState,
    len: nat,
    reported: Result<usize, TransportFault>,
)
    requires
        state != SessionState::Established,
    ensures
        session_transfer(state, len, reported) == Err::<usize, NbError<SessionError>>(
            NbError::Other(SessionError::NotEstablished),
        ),
{
}

} // verus!

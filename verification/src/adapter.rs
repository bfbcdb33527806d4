//! The socket adapter: a fixed pool of socket slots, the handles that own
//! them, and the non-blocking client-socket operations on a handle.
//!
//! The adapter never touches the transport. `connect` says on which wire
//! endpoint an open has to be issued; the other operations take what the
//! transport reported and turn it into what the caller of a non-blocking
//! socket expects.

use vstd::prelude::*;
use crate::endpoint::{wire_endpoint, wire_endpoint_of, RemoteEndpoint, WireEndpoint};
use crate::error::{AdapterError, NbError, TransportFault};

verus! {

/// The owner of one socket slot. A handle names the slot and carries the
/// ticket under which the slot was issued; no two handles that the same
/// stack issued share a ticket.
#[derive(Clone, Copy, Debug, PartialEq, Eq, Structural)]
pub struct SocketHandle {
    slot: usize,
    ticket: u64,
}

impl SocketHandle {
    /// The index of the slot that the handle names.
    pub closed spec fn slot_index(self) -> int {
        self.slot as int
    }

    /// The ticket that the handle carries.
    pub closed spec fn ticket_number(self) -> nat {
        self.ticket as nat
    }

    /// The index of the slot that the handle names.
    pub fn slot(&self) -> (slot: usize)
        ensures
            slot == self.slot_index(),
    {
        self.slot
    }

    /// The ticket that the handle carries.
    pub fn ticket(&self) -> (ticket: u64)
        ensures
            ticket == self.ticket_number(),
    {
        self.ticket
    }
}

/// The mathematical state of the adapter: for each slot the ticket of the
/// handle that owns it, if any, and the number of tickets issued so far.
pub struct SlotPool {
    pub slots: Seq<Option<nat>>,
    pub issued: nat,
}

impl SlotPool {
    /// A pool of `capacity` free slots that has issued no ticket.
    pub open spec fn empty(capacity: nat) -> SlotPool {
        SlotPool { slots: Seq::new(capacity, |i: int| None::<nat>), issued: 0 }
    }

    /// Every ticket that owns a slot has been issued.
    pub open spec fn wf(self) -> bool {
        forall|i: int|
            0 <= i < self.slots.len() ==> (#[trigger] self.slots[i] matches Some(t) ==> t
                < self.issued)
    }

    /// Slot `slot` exists and is owned under `ticket`.
    pub open spec fn holds(self, slot: int, ticket: nat) -> bool {
        0 <= slot < self.slots.len() && self.slots[slot] == Some(ticket)
    }

    /// `handle` owns its slot.
    pub open spec fn is_live(self, handle: SocketHandle) -> bool {
        self.holds(handle.slot_index(), handle.ticket_number())
    }

    /// Slot `slot` exists and has no owner.
    pub open spec fn is_free(self, slot: int) -> bool {
        0 <= slot < self.slots.len() && self.slots[slot] is None
    }

    /// No slot is free.
    pub open spec fn exhausted(self) -> bool {
        forall|i: int| 0 <= i < self.slots.len() ==> (#[trigger] self.slots[i]) is Some
    }

    /// `slot` is the free slot of lowest index.
    pub open spec fn lowest_free(self, slot: int) -> bool {
        self.is_free(slot) && forall|j: int| 0 <= j < slot ==> (#[trigger] self.slots[j]) is Some
    }

    /// The pool after slot `slot` was handed out under the next ticket.
    pub open spec fn claim(self, slot: int) -> SlotPool {
        SlotPool { slots: self.slots.update(slot, Some(self.issued)), issued: self.issued + 1 }
    }

    /// The pool after slot `slot` was given back.
    pub open spec fn release(self, slot: int) -> SlotPool {
        SlotPool { slots: self.slots.update(slot, None), issued: self.issued }
    }

    /// What `connect` answers for `handle` and `remote`: the unsupported-family
    /// fault for a remote that is not IPv4, whatever the handle; the closed-handle
    /// fault for a handle that owns no slot; else the wire endpoint to open.
    pub open spec fn connect_plan(self, handle: SocketHandle, remote: RemoteEndpoint) -> Result<
        WireEndpoint,
        NbError<AdapterError>,
    > {
        match wire_endpoint_of(remote) {
            Err(fault) => Err(NbError::Other(fault)),
            Ok(wire) => if self.is_live(handle) {
                Ok(wire)
            } else {
                Err(NbError::Other(AdapterError::HandleClosed))
            },
        }
    }

    /// What `send` and `receive` answer for `handle`, a buffer of `len` bytes
    /// and the transport's report.
    pub open spec fn transfer_result(
        self,
        handle: SocketHandle,
        len: nat,
        reported: Result<usize, TransportFault>,
    ) -> Result<usize, NbError<AdapterError>> {
        if self.is_live(handle) {
            transfer_outcome(len, reported)
        } else {
            Err(NbError::Other(AdapterError::HandleClosed))
        }
    }

    /// What `is_connected` answers for `handle` and the transport's status.
    pub open spec fn status_result(self, handle: SocketHandle, connected: bool) -> Result<
        bool,
        AdapterError,
    > {
        if self.is_live(handle) {
            Ok(connected)
        } else {
            Err(AdapterError::HandleClosed)
        }
    }
}

/// The number of bytes that the transport moved according to its report:
/// the count it gave, and none where it reported a fault.
pub open spec fn bytes_moved(reported: Result<usize, TransportFault>) -> nat {
    match reported {
        Ok(count) => count as nat,
        Err(_) => 0,
    }
}

/// What the caller of a non-blocking open sees for the transport's report:
/// success as it is, and would-block for every fault. An open that the
/// transport gave up for good is not told apart from one that is merely not
/// ready: the caller issues the open again in both cases.
pub open spec fn open_outcome(reported: Result<(), TransportFault>) -> Result<
    (),
    NbError<AdapterError>,
> {
    match reported {
        Ok(()) => Ok(()),
        Err(_) => Err(NbError::WouldBlock),
    }
}

/// What the caller of a non-blocking transfer over a buffer of `len` bytes
/// sees for the transport's report. A fault is would-block. So is a count of
/// zero for a buffer that is not empty: nothing moved, and that is told apart
/// from a transfer of zero bytes, which only an empty buffer gives. A count
/// beyond the buffer is a hard fault. Any other count is passed on.
pub open spec fn transfer_outcome(len: nat, reported: Result<usize, TransportFault>) -> Result<
    usize,
    NbError<AdapterError>,
> {
    match reported {
        Err(_) => Err(NbError::WouldBlock),
        Ok(count) => if count > len {
            Err(NbError::Other(AdapterError::TransferOverrun))
        } else if count == 0 && len > 0 {
            Err(NbError::WouldBlock)
        } else {
            Ok(count)
        },
    }
}

/// Turns the transport's answer to a non-blocking open into the caller's.
pub fn complete_open(reported: Result<(), TransportFault>) -> (outcome: Result<
    (),
    NbError<AdapterError>,
>)
    ensures
        outcome == open_outcome(reported),
{
    match reported {
        Ok(()) => Ok(()),
        Err(_) => Err(NbError::WouldBlock),
    }
}

/// Turns the transport's answer to one transfer over a buffer of `len` bytes
/// into the caller's.
pub fn complete_transfer(len: usize, reported: Result<usize, TransportFault>) -> (outcome: Result<
    usize,
    NbError<AdapterError>,
>)
    ensures
        outcome == transfer_outcome(len as nat, reported),
{
    match reported {
        Err(_) => Err(NbError::WouldBlock),
        Ok(count) => {
            if count > len {
                Err(NbError::Other(AdapterError::TransferOverrun))
            } else if count == 0 && len > 0 {
                Err(NbError::WouldBlock)
            } else {
                Ok(count)
            }
        },
    }
}

/// The adapter over one interface: it owns the interface's socket slots and
/// answers for the handles it issued.
pub struct WifiTcpClientStack {
    slots: Vec<Option<u64>>,
    issued: u64,
}

impl View for WifiTcpClientStack {
    type V = SlotPool;

    closed spec fn view(&self) -> SlotPool {
        SlotPool {
            slots: Seq::new(
                self.slots@.len(),
                |i: int|
                    match self.slots@[i] {
                        Some(ticket) => Some(ticket as nat),
                        None => None,
                    },
            ),
            issued: self.issued as nat,
        }
    }
}

impl WifiTcpClientStack {
    /// An adapter over an interface with `capacity` socket slots, all free.
    pub fn new(capacity: usize) -> (stack: Self)
        ensures
            stack@ == SlotPool::empty(capacity as nat),
            stack@.wf(),
    {
        let mut slots: Vec<Option<u64>> = Vec::new();
        let mut filled: usize = 0;
        while filled < capacity
            invariant
                filled <= capacity,
                slots@.len() == filled,
                forall|i: int| 0 <= i < filled ==> (#[trigger] slots@[i]) is None,
            decreases capacity - filled,
        {
            slots.push(None);
            filled = filled + 1;
        }
        let stack = WifiTcpClientStack { slots, issued: 0 };
        assert(stack@.slots =~= SlotPool::empty(capacity as nat).slots);
        stack
    }

    /// The number of socket slots of the interface.
    pub fn capacity(&self) -> (capacity: usize)
        ensures
            capacity == self@.slots.len(),
    {
        self.slots.len()
    }

    /// The number of tickets issued so far.
    pub fn issued(&self) -> (issued: u64)
        ensures
            issued == self@.issued,
    {
        self.issued
    }

    /// Whether `handle` owns its slot.
    pub fn is_live(&self, handle: &SocketHandle) -> (live: bool)
        ensures
            live == self@.is_live(*handle),
    {
        if handle.slot < self.slots.len() {
            match self.slots[handle.slot] {
                Some(ticket) => ticket == handle.ticket,
                None => false,
            }
        } else {
            false
        }
    }

    /// Hands out the free slot of lowest index under a fresh ticket. Fails,
    /// and changes nothing, exactly when no slot is free.
    pub fn socket(&mut self) -> (issued: Result<SocketHandle, AdapterError>)
        requires
            old(self)@.issued < u64::MAX,
        ensures
            match issued {
                Ok(handle) => {
                    &&& old(self)@.lowest_free(handle.slot_index())
                    &&& handle.ticket_number() == old(self)@.issued
                    &&& final(self)@ == old(self)@.claim(handle.slot_index())
                },
                Err(fault) => {
                    &&& fault == AdapterError::NoSocketSlot
                    &&& old(self)@.exhausted()
                    &&& final(self)@ == old(self)@
                },
            },
            old(self)@.wf() ==> final(self)@.wf(),
    {
        let mut slot: usize = 0;
        while slot < self.slots.len()
            invariant
                slot <= self.slots@.len(),
                *self == *old(self),
                self.issued < u64::MAX,
                forall|j: int| 0 <= j < slot ==> (#[trigger] self.slots@[j]) is Some,
            decreases self.slots@.len() - slot,
        {
            if self.slots[slot].is_none() {
                let ticket: u64 = self.issued;
                let ghost before = self@;
                self.issued = ticket + 1;
                self.slots.set(slot, Some(ticket));
                let handle = SocketHandle { slot, ticket };
                assert(self@.slots =~= before.claim(slot as int).slots);
                return Ok(handle);
            }
            slot = slot + 1;
        }
        Err(AdapterError::NoSocketSlot)
    }

    /// Says on which wire endpoint the transport has to issue a non-blocking
    /// open for `handle`. A remote that is not IPv4 is refused as unsupported,
    /// a handle that owns no slot as closed; neither is reported as would-block.
    pub fn connect(&self, handle: &SocketHandle, remote: &RemoteEndpoint) -> (plan: Result<
        WireEndpoint,
        NbError<AdapterError>,
    >)
        ensures
            plan == self@.connect_plan(*handle, *remote),
    {
        match wire_endpoint(remote) {
            Err(fault) => Err(NbError::Other(fault)),
            Ok(wire) => {
                if self.is_live(handle) {
                    Ok(wire)
                } else {
                    Err(NbError::Other(AdapterError::HandleClosed))
                }
            },
        }
    }

    /// Answers a status query on `handle` with the transport's own status.
    pub fn is_connected(&self, handle: &SocketHandle, connected: bool) -> (status: Result<
        bool,
        AdapterError,
    >)
        ensures
            status == self@.status_result(*handle, connected),
    {
        if self.is_live(handle) {
            Ok(connected)
        } else {
            Err(AdapterError::HandleClosed)
        }
    }

    /// Answers one non-blocking write of `buffer` on `handle`, given what the
    /// transport reported for it.
    pub fn send(
        &self,
        handle: &SocketHandle,
        buffer: &[u8],
        written: Result<usize, TransportFault>,
    ) -> (sent: Result<usize, NbError<AdapterError>>)
        ensures
            sent == self@.transfer_result(*handle, buffer@.len(), written),
    {
        if self.is_live(handle) {
            complete_transfer(buffer.len(), written)
        } else {
            Err(NbError::Other(AdapterError::HandleClosed))
        }
    }

    /// Answers one non-blocking read into `buffer` on `handle`, given what the
    /// transport reported for it.
    pub fn receive(
        &self,
        handle: &SocketHandle,
        buffer: &[u8],
        read: Result<usize, TransportFault>,
    ) -> (received: Result<usize, NbError<AdapterError>>)
        ensures
            received == self@.transfer_result(*handle, buffer@.len(), read),
    {
        if self.is_live(handle) {
            complete_transfer(buffer.len(), read)
        } else {
            Err(NbError::Other(AdapterError::HandleClosed))
        }
    }

    /// Gives the slot of `handle` back to the pool. The handle must own its
    /// slot; closing always succeeds, and the handle owns nothing afterwards.
    pub fn close(&mut self, handle: SocketHandle) -> (closed: Result<(), AdapterError>)
        requires
            old(self)@.is_live(handle),
        ensures
            closed == Ok::<(), AdapterError>(()),
            final(self)@ == old(self)@.release(handle.slot_index()),
            !final(self)@.is_live(handle),
            old(self)@.wf() ==> final(self)@.wf(),
    {
        let ghost before = self@;
        self.slots.set(handle.slot, None);
        assert(self@.slots =~= before.release(handle.slot as int).slots);
        Ok(())
    }
}

/// One change of a pool: a free slot is handed out, or a slot is given back.
pub enum PoolStep {
    /// Slot of this index is handed out under the next ticket.
    Claim(int),
    /// Slot of this index is given back.
    Release(int),
}

impl SlotPool {
    /// The pool after `step`. A claim of a slot that is not free and a
    /// release of a slot that does not exist change nothing.
    pub open spec fn after(self, step: PoolStep) -> SlotPool {
        match step {
            PoolStep::Claim(slot) => if self.is_free(slot) {
                self.claim(slot)
            } else {
                self
            },
            PoolStep::Release(slot) => if 0 <= slot < self.slots.len() {
                self.release(slot)
            } else {
                self
            },
        }
    }

    /// The pool after a run of steps, taken in order.
    pub open spec fn after_all(self, steps: Seq<PoolStep>) -> SlotPool
        decreases steps.len(),
    {
        if steps.len() == 0 {
            self
        } else {
            self.after_all(steps.drop_last()).after(steps.last())
        }
    }
}

/// A pool stays well-formed under every step, and never takes a ticket back:
/// the count of issued tickets does not fall.
pub proof fn law_steps_keep_pool_well_formed(pool: SlotPool, steps: Seq<PoolStep>)
    requires
        pool.wf(),
    ensures
        pool.after_all(steps).wf(),
        pool.after_all(steps).issued >= pool.issued,
        pool.after_all(steps).slots.len() == pool.slots.len(),
    decreases steps.len(),
{
    if steps.len() > 0 {
        law_steps_keep_pool_well_formed(pool, steps.drop_last());
    }
}

/// A remote that is not IPv4 is refused as unsupported, whatever the handle
/// and the state of the pool: `connect` neither succeeds nor reports
/// would-block for it.
pub proof fn law_foreign_family_is_refused(
    pool: SlotPool,
    handle: SocketHandle,
    remote: RemoteEndpoint,
)
    requires
        remote.ip is V6,
    ensures
        pool.connect_plan(handle, remote) == Err::<WireEndpoint, NbError<AdapterError>>(
            NbError::Other(AdapterError::UnsupportedAddressFamily),
        ),
{
}

/// A transfer that is answered with would-block has moved no byte, so the
/// same call may be repeated without loss or duplication; and a transfer that
/// is answered with a count has moved exactly that many bytes, no more than
/// the buffer holds and at least one where the buffer is not empty.
pub proof fn law_would_block_moves_nothing(
    pool: SlotPool,
    handle: SocketHandle,
    len: nat,
    reported: Result<usize, TransportFault>,
)
    ensures
        pool.transfer_result(handle, len, reported) == Err::<usize, NbError<AdapterError>>(
            NbError::WouldBlock,
        ) ==> bytes_moved(reported) == 0,
        pool.transfer_result(handle, len, reported) matches Ok(count) ==> {
            &&& count == bytes_moved(reported)
            &&& count <= len
            &&& (len > 0 ==> count > 0)
        },
{
}

/// Once a handle is closed, it stays closed: whatever slots are handed out
/// and given back afterwards, the handle owns nothing, and every transfer and
/// every status query on it is refused with the closed-handle fault.
pub proof fn law_closed_handle_stays_closed(
    pool: SlotPool,
    handle: SocketHandle,
    later: Seq<PoolStep>,
)
    requires
        pool.wf(),
        pool.is_live(handle),
    ensures
        !pool.release(handle.slot_index()).after_all(later).is_live(handle),
        forall|len: nat, reported: Result<usize, TransportFault>|
            #[trigger] pool.release(handle.slot_index()).after_all(later).transfer_result(
                handle,
                len,
                reported,
            ) == Err::<usize, NbError<AdapterError>>(NbError::Other(AdapterError::HandleClosed)),
        forall|connected: bool|
            #[trigger] pool.release(handle.slot_index()).after_all(later).status_result(
                handle,
                connected,
            ) == Err::<bool, AdapterError>(AdapterError::HandleClosed),
    decreases later.len(),
{
    let closed = pool.release(handle.slot_index());
    if later.len() > 0 {
        law_closed_handle_stays_closed(pool, handle, later.drop_last());
        law_steps_keep_pool_well_formed(closed, later.drop_last());
    }
}

} // verus!

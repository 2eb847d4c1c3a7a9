//! Bulk multiplayer: a session that queues many words per direction, so that
//! units can exchange short messages once per frame although the hardware
//! moves one word per unit per transfer.
//!
//! Outbound words wait in a [`Ringbuffer`]; each completed transfer delivers
//! one word per peer slot into a [`TransferBuffer`]. The session state lives
//! in one [`BulkMultiplayer`] value that the caller guards with a critical
//! section excluding the transfer-complete interrupt; every method here takes
//! it by reference, so each runs as one step under that guard. The caller
//! moves words between the registers and these methods.

use vstd::prelude::*;

use crate::buffer::{bulk_count, copied_at, TransferBuffer};
use crate::multiplayer::{
    player_index, MultiplayerError, MultiplayerSerial, MultiplayerSiocnt, PlayerId, TransferError,
    SENTINEL,
};
use crate::ringbuf::{queue_pop, Ringbuffer};
use crate::utils::bit_of_u16;

verus! {

/// Why a bulk session could not be set up.
#[derive(Debug, Clone, Copy, PartialEq, Eq, Structural)]
pub enum BulkInitError {
    /// A session already holds the process-wide buffers.
    AlreadyInitialized,
    /// ID discovery failed.
    TransferError(TransferError),
}

impl From<TransferError> for BulkInitError {
    fn from(value: TransferError) -> (r: Self)
        ensures
            r == BulkInitError::TransferError(value),
    {
        BulkInitError::TransferError(value)
    }
}

impl vstd::std_specs::convert::FromSpecImpl<TransferError> for BulkInitError {
    open spec fn obeys_from_spec() -> bool {
        true
    }

    open spec fn from_spec(v: TransferError) -> Self {
        BulkInitError::TransferError(v)
    }
}

/// An error of the per-frame processing.
#[derive(Debug, Clone, Copy, PartialEq, Eq, Structural)]
pub enum BulkTickError {
    /// The error flag was set in the serial-control register.
    FailedOkayCheck,
}

impl From<BulkTickError> for MultiplayerError {
    fn from(value: BulkTickError) -> (r: Self)
        ensures
            r == MultiplayerError::FailedOkayCheck,
    {
        match value {
            BulkTickError::FailedOkayCheck => MultiplayerError::FailedOkayCheck,
        }
    }
}

impl vstd::std_specs::convert::FromSpecImpl<BulkTickError> for MultiplayerError {
    open spec fn obeys_from_spec() -> bool {
        true
    }

    open spec fn from_spec(v: BulkTickError) -> Self {
        MultiplayerError::FailedOkayCheck
    }
}

/// Why queueing words to send failed.
#[derive(Debug, Clone, Copy, PartialEq, Eq, Structural)]
pub enum QueueError {
    /// The outbound queue still held words.
    QueueNotEmpty,
    /// Re-entering multiplayer mode failed.
    MultiplayerError(MultiplayerError),
}

impl From<MultiplayerError> for QueueError {
    fn from(value: MultiplayerError) -> (r: Self)
        ensures
            r == QueueError::MultiplayerError(value),
    {
        QueueError::MultiplayerError(value)
    }
}

impl vstd::std_specs::convert::FromSpecImpl<MultiplayerError> for QueueError {
    open spec fn obeys_from_spec() -> bool {
        true
    }

    open spec fn from_spec(v: MultiplayerError) -> Self {
        QueueError::MultiplayerError(v)
    }
}

/// Whether a transfer carries no data from anyone but unit `me`: every other
/// slot holds the sentinel.
pub open spec fn is_empty_transfer(t: Seq<u16>, me: int) -> bool {
    forall|i: int| 0 <= i < 4 && i != me ==> t[i] == SENTINEL
}

/// Whether a transfer carries no data from any unit but `me`.
pub fn transfer_is_empty(t: &[u16; 4], me: PlayerId) -> (r: bool)
    ensures
        r == is_empty_transfer(t@, player_index(me)),
{
    let me_idx = me.index();
    let mut i: usize = 0;
    while i < 4
        invariant
            0 <= i <= 4,
            me_idx == player_index(me),
            forall|j: int| 0 <= j < i && j != me_idx ==> t@[j] == SENTINEL,
        decreases 4 - i,
    {
        if t[i] != SENTINEL && i != me_idx {
            return false;
        }
        i += 1;
    }
    true
}

/// The length shared by the four output buffers of `read_all`, or
/// `BufferLengthMismatch` when they differ.
pub fn common_len(buffers: &[&mut [u16]; 4]) -> (r: Result<usize, MultiplayerError>)
    ensures
        ({
            let b = buffers@;
            let same = b[1]@.len() == b[0]@.len() && b[2]@.len() == b[0]@.len() && b[3]@.len()
                == b[0]@.len();
            &&& same ==> r == Ok::<usize, MultiplayerError>(b[0]@.len() as usize)
            &&& !same ==> r == Err::<usize, _>(MultiplayerError::BufferLengthMismatch)
        }),
{
    let to_read = buffers[0].len();
    let mut i: usize = 1;
    while i < 4
        invariant
            1 <= i <= 4,
            to_read == buffers@[0]@.len(),
            forall|j: int| 1 <= j < i ==> buffers@[j]@.len() == to_read,
        decreases 4 - i,
    {
        if buffers[i].len() != to_read {
            return Err(MultiplayerError::BufferLengthMismatch);
        }
        i += 1;
    }
    Ok(to_read)
}

/// What the transfer-complete interrupt does to the registers after a
/// transfer: the word to put in the send register for the next transfer, and
/// whether to mark this unit unready.
#[derive(Debug, Clone, Copy, PartialEq, Eq, Structural)]
pub struct InterruptAction {
    pub send: u16,
    pub mark_unready: bool,
}

/// The state of a bulk multiplayer session.
pub struct BulkMultiplayer {
    /// The low-level session, with its player ID known.
    inner: MultiplayerSerial,
    /// Words received, one queue per peer slot.
    inbox: TransferBuffer,
    /// Words queued to send.
    outbox: Ringbuffer,
    /// Whether transfers wait until this unit has data to send.
    block_transfers_until_send: bool,
}

impl BulkMultiplayer {
    /// The internal invariant: the player ID is known and both buffers are
    /// well formed with the same capacity.
    pub closed spec fn wf(&self) -> bool {
        &&& self.inner.spec_player_id() is Some
        &&& self.inbox.wf()
        &&& self.outbox.wf()
        &&& self.inbox.capacity() == self.outbox.capacity()
    }

    /// The low-level session.
    pub closed spec fn spec_inner(&self) -> MultiplayerSerial {
        self.inner
    }

    /// The received transfers.
    pub closed spec fn spec_inbox(&self) -> TransferBuffer {
        self.inbox
    }

    /// The words waiting to be sent.
    pub closed spec fn spec_outbox(&self) -> Ringbuffer {
        self.outbox
    }

    /// Whether transfers wait until this unit has data to send.
    pub closed spec fn spec_blocks(&self) -> bool {
        self.block_transfers_until_send
    }

    /// This unit's player ID.
    pub open spec fn spec_id(&self) -> PlayerId {
        self.spec_inner().spec_player_id()->Some_0
    }

    /// A session over `inner`, whose player ID is known, with room for `cap`
    /// words in each direction and per peer. Transfers wait for data to send
    /// until told otherwise.
    pub fn new(inner: MultiplayerSerial, cap: usize) -> (r: Self)
        requires
            inner.spec_player_id() is Some,
            4 * cap <= usize::MAX,
        ensures
            r.wf(),
            r.spec_inner() == inner,
            r.spec_inbox().len() == 0,
            r.spec_inbox().capacity() == cap,
            r.spec_outbox()@ == Seq::<u16>::empty(),
            r.spec_outbox().capacity() == cap,
            r.spec_blocks(),
    {
        let inbox = TransferBuffer::new(cap);
        let outbox = Ringbuffer::new(cap);
        BulkMultiplayer { inner, inbox, outbox, block_transfers_until_send: true }
    }

    /// Moves this session into the process-wide `slot`, which must be free:
    /// only one session may exist at a time.
    pub fn install(self, slot: &mut Option<BulkMultiplayer>) -> (r: Result<(), BulkInitError>)
        ensures
            (*old(slot)) is Some ==> r == Err::<(), _>(BulkInitError::AlreadyInitialized)
                && *final(slot) == *old(slot),
            (*old(slot)) is None ==> r is Ok && *final(slot) == Some(self),
    {
        if slot.is_some() {
            return Err(BulkInitError::AlreadyInitialized);
        }
        *slot = Some(self);
        Ok(())
    }

    /// This unit's player ID.
    pub fn id(&self) -> (r: PlayerId)
        requires
            self.wf(),
        ensures
            r == self.spec_id(),
    {
        match self.inner.player_id() {
            Some(p) => p,
            None => PlayerId::P0,
        }
    }

    /// The low-level session.
    pub fn inner(&self) -> (r: &MultiplayerSerial)
        ensures
            *r == self.spec_inner(),
    {
        &self.inner
    }

    /// Discards the leading received transfers that carry no data from any
    /// unit but this one, stopping at the first that does. Returns how many
    /// were discarded.
    pub fn skip_empty_transfers(&mut self) -> (r: usize)
        requires
            old(self).wf(),
        ensures
            final(self).wf(),
            final(self).spec_inner() == old(self).spec_inner(),
            final(self).spec_outbox() == old(self).spec_outbox(),
            final(self).spec_blocks() == old(self).spec_blocks(),
            final(self).spec_inbox().capacity() == old(self).spec_inbox().capacity(),
            r <= old(self).spec_inbox().len(),
            forall|k: int|
                0 <= k < r ==> is_empty_transfer(
                    #[trigger] old(self).spec_inbox().transfer(k),
                    player_index(old(self).spec_id()),
                ),
            r < old(self).spec_inbox().len() ==> !is_empty_transfer(
                old(self).spec_inbox().transfer(r as int),
                player_index(old(self).spec_id()),
            ),
            final(self).spec_inbox().len() == old(self).spec_inbox().len() - r,
            forall|p: int|
                0 <= p < 4 ==> #[trigger] final(self).spec_inbox().peer(p) == old(
                    self,
                ).spec_inbox().peer(p).subrange(r as int, old(self).spec_inbox().len() as int),
    {
        let ghost start = self.inbox;
        let me = self.id();
        let mut retvl: usize = 0;
        proof {
            start.lemma_lockstep();
            assert forall|p: int| 0 <= p < 4 implies #[trigger] self.inbox.peer(p)
                == start.peer(p).subrange(0, start.len() as int) by {
                assert(start.peer(p) =~= start.peer(p).subrange(0, start.len() as int));
            }
        }
        loop
            invariant_except_break
                self.wf(),
                self.inner == old(self).inner,
                self.outbox == old(self).outbox,
                self.block_transfers_until_send == old(self).block_transfers_until_send,
                self.inbox.capacity() == start.capacity(),
                start == old(self).inbox,
                start.wf(),
                me == old(self).spec_id(),
                retvl <= start.len(),
                self.inbox.len() == start.len() - retvl,
                forall|p: int|
                    0 <= p < 4 ==> #[trigger] self.inbox.peer(p) == start.peer(p).subrange(
                        retvl as int,
                        start.len() as int,
                    ),
                forall|k: int|
                    0 <= k < retvl ==> is_empty_transfer(
                        #[trigger] start.transfer(k),
                        player_index(me),
                    ),
            ensures
                self.wf(),
                self.inner == old(self).inner,
                self.outbox == old(self).outbox,
                self.block_transfers_until_send == old(self).block_transfers_until_send,
                self.inbox.capacity() == start.capacity(),
                retvl <= start.len(),
                self.inbox.len() == start.len() - retvl,
                forall|p: int|
                    0 <= p < 4 ==> #[trigger] self.inbox.peer(p) == start.peer(p).subrange(
                        retvl as int,
                        start.len() as int,
                    ),
                forall|k: int|
                    0 <= k < retvl ==> is_empty_transfer(
                        #[trigger] start.transfer(k),
                        player_index(me),
                    ),
                retvl < start.len() ==> !is_empty_transfer(
                    start.transfer(retvl as int),
                    player_index(me),
                ),
            decreases self.inbox.len(),
        {
            proof {
                self.inbox.lemma_lockstep();
                start.lemma_lockstep();
            }
            let next = self.inbox.peak();
            let t = match next {
                None => {
                    break;
                },
                Some(t) => t,
            };
            assert(t@ =~= start.transfer(retvl as int));
            if !transfer_is_empty(&t, me) {
                break;
            }
            let ghost prev = self.inbox;
            let _ = self.inbox.pop();
            proof {
                assert forall|p: int| 0 <= p < 4 implies #[trigger] self.inbox.peer(p)
                    == start.peer(p).subrange(retvl + 1, start.len() as int) by {
                    assert(self.inbox.peer(p) =~= start.peer(p).subrange(
                        retvl + 1,
                        start.len() as int,
                    ));
                }
            }
            retvl += 1;
        }
        retvl
    }

    /// Moves received words into the four output slices, one per peer slot:
    /// as many transfers as are stored and as fit in every slice. Returns the
    /// count, the same for every slot.
    pub fn read_bulk(&mut self, buffers: &mut [&mut [u16]; 4]) -> (r: Result<
        [usize; 4],
        MultiplayerError,
    >)
        requires
            old(self).wf(),
        ensures
            final(self).wf(),
            final(self).spec_inner() == old(self).spec_inner(),
            final(self).spec_outbox() == old(self).spec_outbox(),
            final(self).spec_blocks() == old(self).spec_blocks(),
            final(self).spec_inbox().capacity() == old(self).spec_inbox().capacity(),
            ({
                let n = bulk_count(old(self).spec_inbox().len() as int, old(buffers)@, 0);
                &&& r matches Ok(a) && a@ == seq![n as usize, n as usize, n as usize, n as usize]
                &&& final(self).spec_inbox().len() == old(self).spec_inbox().len() - n
                &&& forall|p: int|
                    0 <= p < 4 ==> #[trigger] final(self).spec_inbox().peer(p) == old(
                        self,
                    ).spec_inbox().peer(p).subrange(n, old(self).spec_inbox().len() as int)
            }),
            forall|p: int|
                0 <= p < 4 ==> copied_at(
                    old(self).spec_inbox().peer(p),
                    #[trigger] old(buffers)@[p]@,
                    final(buffers)@[p]@,
                    0,
                ),
    {
        Ok(self.inbox.read_bulk(buffers))
    }

    /// One round of `read_all`, which fills four slices of one length
    /// completely, ticking between rounds until enough transfers arrived:
    /// `read` words of every slice are filled already; this round moves
    /// further received transfers in after them, as many as are stored and as
    /// fit. Returns the new count of filled words.
    pub fn read_all_step(&mut self, buffers: &mut [&mut [u16]; 4], read: usize) -> (r: usize)
        requires
            old(self).wf(),
            forall|p: int| 0 <= p < 4 ==> read <= old(buffers)@[p]@.len(),
        ensures
            final(self).wf(),
            final(self).spec_inner() == old(self).spec_inner(),
            final(self).spec_outbox() == old(self).spec_outbox(),
            final(self).spec_blocks() == old(self).spec_blocks(),
            final(self).spec_inbox().capacity() == old(self).spec_inbox().capacity(),
            r == read + bulk_count(old(self).spec_inbox().len() as int, old(buffers)@, read as int),
            final(self).spec_inbox().len() == old(self).spec_inbox().len() - (r - read),
            forall|p: int|
                0 <= p < 4 ==> #[trigger] final(self).spec_inbox().peer(p) == old(
                    self,
                ).spec_inbox().peer(p).subrange(r - read, old(self).spec_inbox().len() as int),
            forall|p: int|
                0 <= p < 4 ==> copied_at(
                    old(self).spec_inbox().peer(p),
                    #[trigger] old(buffers)@[p]@,
                    final(buffers)@[p]@,
                    read as int,
                ),
    {
        let n = self.inbox.read_bulk_from(buffers, read);
        read + n
    }

    /// Per-frame maintenance: tries to start a transfer, given the
    /// serial-control word just read (see
    /// [`MultiplayerSerial::start_transfer`] for what happens to it). Only
    /// the error flag is an error here; a busy port or units not ready are
    /// retried on the next tick.
    pub fn tick(&self, siocnt: &mut MultiplayerSiocnt) -> (r: Result<(), BulkTickError>)
        ensures
            ({
                let s = old(siocnt)@;
                let busy = bit_of_u16(s, 7);
                &&& final(siocnt)@ == (if !busy && self.spec_inner().spec_is_parent() {
                    crate::utils::with_bit_u16(s, 7, true)
                } else {
                    s
                })
                &&& r == (if !busy && bit_of_u16(s, 3) && bit_of_u16(s, 6) {
                    Err(BulkTickError::FailedOkayCheck)
                } else {
                    Ok(())
                })
            }),
    {
        match self.inner.start_transfer(siocnt) {
            Err(TransferError::FailedOkayCheck) => Err(BulkTickError::FailedOkayCheck),
            Ok(()) | Err(TransferError::AlreadyInProgress) | Err(
                TransferError::FailedReadyCheck,
            ) => Ok(()),
        }
    }

    /// What happens when a transfer completes, given the words received in
    /// the four slots (`flags` is the low byte of the serial-control word).
    /// Unless all four are the sentinel, they are stored as one transfer; when
    /// the inbox is full they are dropped. The oldest queued word is taken to
    /// be sent next; with nothing queued the sentinel is sent instead, and if
    /// transfers wait for data this unit is marked unready.
    pub fn on_transfer_complete(&mut self, words: [u16; 4], flags: u8) -> (r: InterruptAction)
        requires
            old(self).wf(),
        ensures
            final(self).wf(),
            final(self).spec_inner() == old(self).spec_inner(),
            final(self).spec_blocks() == old(self).spec_blocks(),
            final(self).spec_inbox().capacity() == old(self).spec_inbox().capacity(),
            final(self).spec_outbox().capacity() == old(self).spec_outbox().capacity(),
            ({
                let w = words@;
                let stored = !(w[0] == SENTINEL && w[1] == SENTINEL && w[2] == SENTINEL && w[3]
                    == SENTINEL) && old(self).spec_inbox().len() < old(
                    self,
                ).spec_inbox().capacity();
                &&& stored ==> final(self).spec_inbox().len() == old(self).spec_inbox().len() + 1
                &&& stored ==> (forall|p: int|
                    0 <= p < 4 ==> #[trigger] final(self).spec_inbox().peer(p) == old(
                        self,
                    ).spec_inbox().peer(p).push(w[p]))
                &&& !stored ==> final(self).spec_inbox().len() == old(self).spec_inbox().len()
                &&& !stored ==> (forall|p: int|
                    0 <= p < 4 ==> #[trigger] final(self).spec_inbox().peer(p) == old(
                        self,
                    ).spec_inbox().peer(p))
            }),
            ({
                let (q, next) = queue_pop(old(self).spec_outbox()@);
                &&& final(self).spec_outbox()@ == q
                &&& r == (match next {
                    Some(n) => InterruptAction { send: n, mark_unready: false },
                    None => InterruptAction {
                        send: SENTINEL,
                        mark_unready: old(self).spec_blocks(),
                    },
                })
            }),
    {
        let p0 = words[0];
        let p1 = words[1];
        let p2 = words[2];
        let p3 = words[3];
        assert(words@[0] == p0 && words@[1] == p1 && words@[2] == p2 && words@[3] == p3);
        if !(p0 == SENTINEL && p1 == SENTINEL && p2 == SENTINEL && p3 == SENTINEL) {
            let ghost before = self.inbox;
            proof {
                before.lemma_lockstep();
            }
            let _res = self.inbox.push(p0, p1, p2, p3, flags);
            proof {
                if before.len() < before.capacity() {
                    // One slot at a time: the push states each peer queue separately.
                    assert forall|p: int| 0 <= p < 4 implies #[trigger] self.inbox.peer(p)
                        == before.peer(p).push(words@[p]) by {
                        if p == 0 {
                        } else if p == 1 {
                        } else if p == 2 {
                        } else {
                        }
                    }
                }
            }
        }
        match self.outbox.pop() {
            Some(nxt) => InterruptAction { send: nxt, mark_unready: false },
            None => InterruptAction {
                send: SENTINEL,
                mark_unready: self.block_transfers_until_send,
            },
        }
    }

    /// Queues words to send, as many as fit; words that fit stay queued.
    /// Returns how many were queued. The caller then re-enters multiplayer
    /// mode, since marking ready or unready may have changed it.
    pub fn queue_send(&mut self, buffer: &[u16]) -> (r: usize)
        requires
            old(self).wf(),
        ensures
            final(self).wf(),
            final(self).spec_inner() == old(self).spec_inner(),
            final(self).spec_inbox() == old(self).spec_inbox(),
            final(self).spec_blocks() == old(self).spec_blocks(),
            final(self).spec_outbox().capacity() == old(self).spec_outbox().capacity(),
            r == vstd::math::min(
                old(self).spec_outbox().capacity() - old(self).spec_outbox()@.len(),
                buffer@.len() as int,
            ),
            final(self).spec_outbox()@ == old(self).spec_outbox()@ + buffer@.subrange(0, r as int),
    {
        self.outbox.write_bulk(buffer)
    }

    /// Whether transfers wait until this unit has data to send.
    pub fn will_block_transfers(&self) -> (r: bool)
        ensures
            r == self.spec_blocks(),
    {
        self.block_transfers_until_send
    }

    /// Sets whether transfers wait until this unit has data to send. Note
    /// that one unit waiting holds up the transfers of the whole session.
    pub fn block_transfers_until_have_data(&mut self, value: bool)
        requires
            old(self).wf(),
        ensures
            final(self).wf(),
            final(self).spec_blocks() == value,
            final(self).spec_inner() == old(self).spec_inner(),
            final(self).spec_inbox() == old(self).spec_inbox(),
            final(self).spec_outbox() == old(self).spec_outbox(),
    {
        self.block_transfers_until_send = value;
    }

    /// Ends bulk mode, dropping both buffers, and returns the low-level
    /// session for further use.
    pub fn leave(self) -> (r: MultiplayerSerial)
        ensures
            r == self.spec_inner(),
    {
        self.inner
    }
}

} // verus!

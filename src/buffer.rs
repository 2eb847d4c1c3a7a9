//! The inbound buffer of a bulk multiplayer session: four ring buffers, one
//! per peer slot, that share a single pair of cursors. Every push writes one
//! word to each of them and every pop reads one word from each, so the four
//! queues always hold the same number of words, each word of a position
//! coming from the same hardware transfer.

use vstd::math::min;
use vstd::prelude::*;

use crate::multiplayer::{player_index, PlayerId, NO_DATA};
use crate::ringbuf::{advance_by, cursor_len, cursors_valid, is_empty, is_full, len, slot, slot_of};

verus! {

/// Where the storage of peer slot `p` starts in a backing array of
/// `4 * bufflen` words.
pub open spec fn segment_start(p: int, bufflen: int) -> int {
    if p == 0 {
        0
    } else if p == 1 {
        bufflen
    } else if p == 2 {
        2 * bufflen
    } else {
        3 * bufflen
    }
}

/// The fewest of four counts.
pub open spec fn min4(a: int, b: int, c: int, d: int) -> int {
    min(min(a, b), min(c, d))
}

/// `out` is `before` with the words from position `offset` on replaced by the
/// front of `q`, as many as `q` holds and as fit.
pub open spec fn copied_at(q: Seq<u16>, before: Seq<u16>, out: Seq<u16>, offset: int) -> bool {
    let c = min(q.len() as int, before.len() - offset);
    &&& out.len() == before.len()
    &&& forall|j: int| 0 <= j < c ==> #[trigger] out[offset + j] == q[j]
    &&& forall|j: int| 0 <= j < offset ==> #[trigger] out[j] == before[j]
    &&& forall|j: int| offset + c <= j < out.len() ==> #[trigger] out[j] == before[j]
}

/// How many transfers a bulk read consumes: as many as are stored (`stored`)
/// and as fit in every one of the four output slices from position `offset`
/// on.
pub open spec fn bulk_count(stored: int, buffers: Seq<&mut [u16]>, offset: int) -> int {
    min(
        stored,
        min4(
            buffers[0]@.len() - offset,
            buffers[1]@.len() - offset,
            buffers[2]@.len() - offset,
            buffers[3]@.len() - offset,
        ),
    )
}

/// Ring buffer of whole transfers: one word per peer slot.
pub struct TransferBuffer {
    /// Storage: four segments of `bufflen` words, one per peer slot.
    buffer: Vec<u16>,
    /// The maximum number of transfers the buffer can store.
    bufflen: usize,
    /// The next position to read in every segment, modulo `2 * bufflen`.
    read_idx: usize,
    /// The next position to write in every segment, modulo `2 * bufflen`.
    write_idx: usize,
}

impl TransferBuffer {
    /// The internal invariant: storage is four segments of the capacity, the
    /// shared cursors are valid and at most `bufflen` transfers are stored.
    pub closed spec fn wf(&self) -> bool {
        &&& self.buffer@.len() == 4 * self.bufflen
        &&& 4 * self.bufflen <= usize::MAX
        &&& cursors_valid(self.read_idx as int, self.write_idx as int, self.bufflen as int)
        &&& cursor_len(self.read_idx as int, self.write_idx as int, self.bufflen as int)
            <= self.bufflen
    }

    /// The maximum number of transfers the buffer can hold.
    pub closed spec fn capacity(&self) -> nat {
        self.bufflen as nat
    }

    /// The words queued for peer slot `p` (`0 <= p < 4`), oldest first.
    pub closed spec fn peer(&self, p: int) -> Seq<u16> {
        let b = self.bufflen as int;
        let r = self.read_idx as int;
        Seq::new(
            cursor_len(r, self.write_idx as int, b) as nat,
            |k: int| self.buffer@[segment_start(p, b) + slot(r + k, b)],
        )
    }

    /// The number of transfers stored.
    pub closed spec fn len(&self) -> nat {
        cursor_len(self.read_idx as int, self.write_idx as int, self.bufflen as int) as nat
    }

    /// The four peer queues move in lockstep: each holds exactly as many words
    /// as there are stored transfers, never more than the capacity.
    pub proof fn lemma_lockstep(&self)
        requires
            self.wf(),
        ensures
            self.len() <= self.capacity(),
            4 * self.capacity() <= usize::MAX,
            forall|p: int| 0 <= p < 4 ==> #[trigger] self.peer(p).len() == self.len(),
    {
    }

    /// A buffer without storage, for use as a placeholder.
    pub fn empty() -> (r: Self)
        ensures
            r.wf(),
            r.len() == 0,
            r.capacity() == 0,
            forall|p: int| 0 <= p < 4 ==> #[trigger] r.peer(p) == Seq::<u16>::empty(),
    {
        let r = TransferBuffer { buffer: Vec::new(), bufflen: 0, read_idx: 0, write_idx: 0 };
        assert forall|p: int| 0 <= p < 4 implies #[trigger] r.peer(p) == Seq::<u16>::empty() by {
            assert(r.peer(p) =~= Seq::<u16>::empty());
        }
        r
    }

    /// Whether this is a placeholder without storage rather than a real buffer.
    pub fn is_placeholder(&self) -> (r: bool)
        ensures
            r == (self.capacity() == 0),
    {
        self.bufflen == 0
    }

    /// A new, empty buffer that holds up to `cap` transfers.
    pub fn new(cap: usize) -> (r: Self)
        requires
            4 * cap <= usize::MAX,
        ensures
            r.wf(),
            r.len() == 0,
            r.capacity() == cap,
            forall|p: int| 0 <= p < 4 ==> #[trigger] r.peer(p) == Seq::<u16>::empty(),
    {
        let buffer = vec![NO_DATA; cap * 4];
        let r = TransferBuffer { buffer, bufflen: cap, read_idx: 0, write_idx: 0 };
        assert forall|p: int| 0 <= p < 4 implies #[trigger] r.peer(p) == Seq::<u16>::empty() by {
            assert(r.peer(p) =~= Seq::<u16>::empty());
        }
        r
    }

    /// Where the storage of `player`'s slot starts in the backing array.
    fn player_buffer_start(&self, player: PlayerId) -> (r: usize)
        requires
            self.wf(),
        ensures
            r == segment_start(player_index(player), self.bufflen as int),
            r + self.bufflen <= self.buffer@.len(),
    {
        match player {
            PlayerId::P0 => 0,
            PlayerId::P1 => self.bufflen,
            PlayerId::P2 => 2 * self.bufflen,
            PlayerId::P3 => 3 * self.bufflen,
        }
    }

    /// Stores one transfer's worth of words, one per peer slot, or fails with
    /// the buffer unchanged when it is full. `_flags` carries the status bits
    /// of the transfer, which are not stored.
    pub fn push(&mut self, p0: u16, p1: u16, p2: u16, p3: u16, _flags: u8) -> (r: Result<(), ()>)
        requires
            old(self).wf(),
        ensures
            final(self).wf(),
            final(self).capacity() == old(self).capacity(),
            old(self).len() == old(self).capacity() ==> {
                &&& r is Err
                &&& final(self).len() == old(self).len()
                &&& forall|p: int| 0 <= p < 4 ==> #[trigger] final(self).peer(p) == old(self).peer(p)
            },
            old(self).len() < old(self).capacity() ==> {
                &&& r is Ok
                &&& final(self).len() == old(self).len() + 1
                &&& final(self).peer(0) == old(self).peer(0).push(p0)
                &&& final(self).peer(1) == old(self).peer(1).push(p1)
                &&& final(self).peer(2) == old(self).peer(2).push(p2)
                &&& final(self).peer(3) == old(self).peer(3).push(p3)
            },
    {
        let raw_ridx = self.read_idx;
        let raw_widx = self.write_idx;
        if is_full(raw_ridx, raw_widx, self.bufflen) {
            return Err(());
        }
        let ghost before = *self;
        let widx = slot_of(raw_widx, self.bufflen);
        let s0 = self.player_buffer_start(PlayerId::P0);
        let s1 = self.player_buffer_start(PlayerId::P1);
        let s2 = self.player_buffer_start(PlayerId::P2);
        let s3 = self.player_buffer_start(PlayerId::P3);
        self.buffer.set(s0 + widx, p0);
        self.buffer.set(s1 + widx, p1);
        self.buffer.set(s2 + widx, p2);
        self.buffer.set(s3 + widx, p3);
        self.write_idx = advance_by(raw_widx, 1, self.bufflen);
        assert(self.peer(0) =~= before.peer(0).push(p0));
        assert(self.peer(1) =~= before.peer(1).push(p1));
        assert(self.peer(2) =~= before.peer(2).push(p2));
        assert(self.peer(3) =~= before.peer(3).push(p3));
        Ok(())
    }

    /// Stored transfer `k` (0 is the oldest): word `k` of each peer queue, in
    /// slot order.
    pub open spec fn transfer(&self, k: int) -> Seq<u16> {
        seq![self.peer(0)[k], self.peer(1)[k], self.peer(2)[k], self.peer(3)[k]]
    }

    /// Removes and returns the oldest transfer, or `None` when the buffer is
    /// empty.
    pub fn pop(&mut self) -> (r: Option<[u16; 4]>)
        requires
            old(self).wf(),
        ensures
            final(self).wf(),
            final(self).capacity() == old(self).capacity(),
            old(self).len() == 0 ==> {
                &&& r is None
                &&& final(self).len() == 0
                &&& forall|p: int| 0 <= p < 4 ==> #[trigger] final(self).peer(p) == old(self).peer(p)
            },
            old(self).len() > 0 ==> {
                &&& r matches Some(t) && t@ == old(self).transfer(0)
                &&& final(self).len() == old(self).len() - 1
                &&& forall|p: int|
                    0 <= p < 4 ==> #[trigger] final(self).peer(p) == old(self).peer(p).drop_first()
            },
    {
        let retvl = self.peak_in();
        if retvl.is_none() {
            return retvl;
        }
        let ghost before = *self;
        self.read_idx = advance_by(self.read_idx, 1, self.bufflen);
        assert forall|p: int| 0 <= p < 4 implies #[trigger] self.peer(p) == before.peer(p).drop_first() by {
            assert(self.peer(p) =~= before.peer(p).drop_first());
        }
        retvl
    }

    /// The oldest transfer, left in the buffer, or `None` when it is empty.
    pub fn peak(&self) -> (r: Option<[u16; 4]>)
        requires
            self.wf(),
        ensures
            self.len() == 0 ==> r is None,
            self.len() > 0 ==> (r matches Some(t) && t@ == self.transfer(0)),
    {
        self.peak_in()
    }

    fn peak_in(&self) -> (r: Option<[u16; 4]>)
        requires
            self.wf(),
        ensures
            self.len() == 0 ==> r is None,
            self.len() > 0 ==> (r matches Some(t) && t@ == self.transfer(0)),
    {
        let raw_ridx = self.read_idx;
        let raw_widx = self.write_idx;
        if is_empty(raw_ridx, raw_widx, self.bufflen) {
            return None;
        }
        let ridx = slot_of(raw_ridx, self.bufflen);
        let t = [
            self.buffer[self.player_buffer_start(PlayerId::P0) + ridx],
            self.buffer[self.player_buffer_start(PlayerId::P1) + ridx],
            self.buffer[self.player_buffer_start(PlayerId::P2) + ridx],
            self.buffer[self.player_buffer_start(PlayerId::P3) + ridx],
        ];
        assert(t@ =~= self.transfer(0));
        Some(t)
    }

    /// Copies the oldest words of every peer queue into the front of the
    /// matching output slice, as many as are stored and as fit, and consumes
    /// the fewest that any slice took, so that the queues stay in lockstep.
    /// Returns that count for every slot. Past the count, a slice may hold
    /// further copied words.
    pub fn read_bulk(&mut self, buffers: &mut [&mut [u16]; 4]) -> (r: [usize; 4])
        requires
            old(self).wf(),
        ensures
            final(self).wf(),
            final(self).capacity() == old(self).capacity(),
            ({
                let n = bulk_count(old(self).len() as int, old(buffers)@, 0);
                &&& r@ == seq![n as usize, n as usize, n as usize, n as usize]
                &&& final(self).len() == old(self).len() - n
                &&& forall|p: int|
                    0 <= p < 4 ==> #[trigger] final(self).peer(p) == old(self).peer(p).subrange(
                        n,
                        old(self).len() as int,
                    )
            }),
            forall|p: int|
                0 <= p < 4 ==> copied_at(
                    old(self).peer(p),
                    #[trigger] old(buffers)@[p]@,
                    final(buffers)@[p]@,
                    0,
                ),
    {
        let n = self.read_bulk_from(buffers, 0);
        [n, n, n, n]
    }

    /// Like `read_bulk`, but fills every output slice from position `offset`
    /// on, leaving the words before it alone. Returns the count consumed.
    pub fn read_bulk_from(&mut self, buffers: &mut [&mut [u16]; 4], offset: usize) -> (r: usize)
        requires
            old(self).wf(),
            forall|p: int| 0 <= p < 4 ==> offset <= old(buffers)@[p]@.len(),
        ensures
            final(self).wf(),
            final(self).capacity() == old(self).capacity(),
            r == bulk_count(old(self).len() as int, old(buffers)@, offset as int),
            offset + r <= usize::MAX,
            final(self).len() == old(self).len() - r,
            forall|p: int|
                0 <= p < 4 ==> #[trigger] final(self).peer(p) == old(self).peer(p).subrange(
                    r as int,
                    old(self).len() as int,
                ),
            forall|p: int|
                0 <= p < 4 ==> copied_at(
                    old(self).peer(p),
                    #[trigger] old(buffers)@[p]@,
                    final(buffers)@[p]@,
                    offset as int,
                ),
    {
        let ghost before = *self;
        let c0 = self.read_bulk_for_inner(PlayerId::P0, buffers[0], offset);
        let c1 = self.read_bulk_for_inner(PlayerId::P1, buffers[1], offset);
        let c2 = self.read_bulk_for_inner(PlayerId::P2, buffers[2], offset);
        let c3 = self.read_bulk_for_inner(PlayerId::P3, buffers[3], offset);
        let m01 = if c0 < c1 {
            c0
        } else {
            c1
        };
        let m23 = if c2 < c3 {
            c2
        } else {
            c3
        };
        let inc = if m01 < m23 {
            m01
        } else {
            m23
        };
        if inc > 0 {
            self.read_idx = advance_by(self.read_idx, inc, self.bufflen);
        }
        assert forall|p: int| 0 <= p < 4 implies #[trigger] self.peer(p) == before.peer(p).subrange(
            inc as int,
            before.len() as int,
        ) by {
            assert(self.peer(p) =~= before.peer(p).subrange(inc as int, before.len() as int));
        }
        inc
    }

    fn read_bulk_for_inner(&self, player: PlayerId, outbuff: &mut [u16], offset: usize) -> (r: usize)
        requires
            self.wf(),
            offset <= old(outbuff)@.len(),
        ensures
            r == min(self.len() as int, old(outbuff)@.len() - offset),
            offset + r <= usize::MAX,
            copied_at(self.peer(player_index(player)), old(outbuff)@, final(outbuff)@, offset as int),
    {
        let ghost q = self.peer(player_index(player));
        let raw_ridx = self.read_idx;
        let raw_widx = self.write_idx;
        if is_empty(raw_ridx, raw_widx, self.bufflen) {
            return 0;
        }
        let stored = len(raw_ridx, raw_widx, self.bufflen);
        let room = outbuff.len() - offset;
        let to_read = if stored < room {
            stored
        } else {
            room
        };
        let start = self.player_buffer_start(player);
        let mut pos = slot_of(raw_ridx, self.bufflen);
        let mut k: usize = 0;
        while k < to_read
            invariant
                self.wf(),
                q == self.peer(player_index(player)),
                start == segment_start(player_index(player), self.bufflen as int),
                start + self.bufflen <= self.buffer@.len(),
                raw_ridx == self.read_idx,
                to_read <= q.len(),
                offset + to_read <= outbuff@.len(),
                offset + to_read <= usize::MAX,
                outbuff@.len() == old(outbuff)@.len(),
                0 <= k <= to_read,
                pos < self.bufflen,
                pos == slot(raw_ridx + k, self.bufflen as int),
                forall|j: int| 0 <= j < k ==> #[trigger] outbuff@[offset + j] == q[j],
                forall|j: int| 0 <= j < offset ==> #[trigger] outbuff@[j] == old(outbuff)@[j],
                forall|j: int|
                    offset + k <= j < outbuff@.len() ==> #[trigger] outbuff@[j] == old(outbuff)@[j],
            decreases to_read - k,
        {
            outbuff[offset + k] = self.buffer[start + pos];
            pos = if pos + 1 == self.bufflen {
                0
            } else {
                pos + 1
            };
            k += 1;
        }
        to_read
    }
}

} // verus!

//! Fixed-capacity FIFO of 16-bit words, used as the outbound queue of a bulk
//! multiplayer session.
//!
//! Both cursors run modulo `2 * bufflen`, so that equal cursors mean "empty"
//! and cursors `bufflen` apart mean "full" without a separate flag.

use vstd::math::min;
use vstd::prelude::*;

verus! {

/// The value the hardware reports for "no data": an idle slot, a transfer in
/// progress, or a peer that is not connected.
pub const SENTINEL: u16 = 0xFFFF;

/// Whether two raw cursors are valid for a buffer of `bufflen` slots: both are
/// zero for a buffer without storage, both below `2 * bufflen` otherwise.
pub open spec fn cursors_valid(ridx: int, widx: int, bufflen: int) -> bool {
    if bufflen == 0 {
        ridx == 0 && widx == 0
    } else {
        0 <= ridx < 2 * bufflen && 0 <= widx < 2 * bufflen
    }
}

/// Number of stored words: `(widx - ridx) mod (2 * bufflen)`.
pub open spec fn cursor_len(ridx: int, widx: int, bufflen: int) -> int {
    if widx >= ridx {
        widx - ridx
    } else {
        widx + 2 * bufflen - ridx
    }
}

/// The storage slot of raw position `i` (which is below `3 * bufflen`), that is
/// `i mod bufflen`.
pub open spec fn slot(i: int, bufflen: int) -> int {
    if i < bufflen {
        i
    } else if i < 2 * bufflen {
        i - bufflen
    } else {
        i - 2 * bufflen
    }
}

/// Raw cursor `raw` moved `n` places forward, modulo `2 * bufflen`.
pub open spec fn advance(raw: int, n: int, bufflen: int) -> int {
    if raw + n >= 2 * bufflen {
        raw + n - 2 * bufflen
    } else {
        raw + n
    }
}

/// A push onto a bounded FIFO queue `q` of capacity `cap`: the queue after it
/// and whether it succeeded. A full queue refuses the word and stays as it
/// was.
pub open spec fn queue_push(q: Seq<u16>, cap: nat, w: u16) -> (Seq<u16>, bool) {
    if q.len() >= cap {
        (q, false)
    } else {
        (q.push(w), true)
    }
}

/// A pop from a FIFO queue `q`: the queue after it and the word taken, or
/// `None` when the queue is empty.
pub open spec fn queue_pop(q: Seq<u16>) -> (Seq<u16>, Option<u16>) {
    if q.len() == 0 {
        (q, None)
    } else {
        (q.drop_first(), Some(q[0]))
    }
}

/// Pushing each word of `ws` in turn onto the bounded queue `q` of capacity
/// `cap`: the queue afterwards, and for each word whether its push succeeded.
pub open spec fn push_each(q: Seq<u16>, cap: nat, ws: Seq<u16>) -> (Seq<u16>, Seq<bool>)
    decreases ws.len(),
{
    if ws.len() == 0 {
        (q, Seq::empty())
    } else {
        let (q1, ok) = queue_push(q, cap, ws[0]);
        let (q2, oks) = push_each(q1, cap, ws.drop_first());
        (q2, seq![ok] + oks)
    }
}

/// Popping `n` times from the queue `q`: the queue afterwards and what each
/// pop returned, in order.
pub open spec fn pop_n(q: Seq<u16>, n: nat) -> (Seq<u16>, Seq<Option<u16>>)
    decreases n,
{
    if n == 0 {
        (q, Seq::empty())
    } else {
        let (q1, x) = queue_pop(q);
        let (q2, xs) = pop_n(q1, (n - 1) as nat);
        (q2, seq![x] + xs)
    }
}

/// Pushing words one by one onto a queue with `room` free places succeeds
/// for the first `room` words and fails for the rest; the queue gains exactly
/// those first words.
pub proof fn lemma_push_each(q: Seq<u16>, cap: nat, ws: Seq<u16>)
    requires
        q.len() <= cap,
    ensures
        ({
            let room = cap - q.len();
            let (q2, oks) = push_each(q, cap, ws);
            &&& q2 == q + ws.subrange(0, vstd::math::min(room, ws.len() as int))
            &&& oks == Seq::new(ws.len(), |i: int| i < room)
        }),
    decreases ws.len(),
{
    let room = cap - q.len();
    if ws.len() == 0 {
        assert(q + ws.subrange(0, 0) =~= q);
        assert(Seq::<bool>::empty() =~= Seq::new(0, |i: int| i < room));
    } else {
        let (q1, ok) = queue_push(q, cap, ws[0]);
        lemma_push_each(q1, cap, ws.drop_first());
        let (q2, oks) = push_each(q1, cap, ws.drop_first());
        let m = vstd::math::min(room, ws.len() as int);
        if q.len() >= cap {
            assert(ws.drop_first().subrange(0, 0) =~= ws.subrange(0, 0));
            assert(q + ws.subrange(0, 0) =~= q);
        } else {
            assert(q1 + ws.drop_first().subrange(0, m - 1) =~= q + ws.subrange(0, m));
        }
        assert(seq![ok] + oks =~= Seq::new(ws.len(), |i: int| i < room));
    }
}

/// Popping `n` times returns the stored words in order, then `None` once the
/// queue is empty.
pub proof fn lemma_pop_n(q: Seq<u16>, n: nat)
    ensures
        ({
            let (q2, xs) = pop_n(q, n);
            &&& q2 == q.subrange(vstd::math::min(n as int, q.len() as int), q.len() as int)
            &&& xs == Seq::new(
                n,
                |i: int|
                    if i < q.len() {
                        Some(q[i])
                    } else {
                        None
                    },
            )
        }),
    decreases n,
{
    if n == 0 {
        assert(q.subrange(0, q.len() as int) =~= q);
    } else {
        let (q1, x) = queue_pop(q);
        lemma_pop_n(q1, (n - 1) as nat);
        let (q2, xs) = pop_n(q1, (n - 1) as nat);
        if q.len() == 0 {
            assert(q2 =~= q.subrange(0, 0));
        } else {
            assert(q2 =~= q.subrange(vstd::math::min(n as int, q.len() as int), q.len() as int));
        }
        assert(seq![x] + xs =~= Seq::new(
            n,
            |i: int|
                if i < q.len() {
                    Some(q[i])
                } else {
                    None
                },
        ));
    }
}

/// Capacity law of the ring buffer: on an empty buffer of capacity `cap`,
/// pushing more than `cap` words succeeds exactly for the first `cap` and
/// fails for the rest; popping afterwards returns exactly those first `cap`
/// words in order, and then `None`.
pub proof fn lemma_capacity(cap: nat, ws: Seq<u16>)
    requires
        ws.len() > cap,
    ensures
        ({
            let (q, oks) = push_each(Seq::empty(), cap, ws);
            &&& oks == Seq::new(ws.len(), |i: int| i < cap)
            &&& q == ws.subrange(0, cap as int)
            &&& pop_n(q, cap + 1).1 == Seq::new(cap as nat, |i: int| Some(ws[i])).push(None)
            &&& pop_n(q, cap + 1).0 == Seq::<u16>::empty()
        }),
{
    lemma_push_each(Seq::empty(), cap, ws);
    let (q, oks) = push_each(Seq::empty(), cap, ws);
    assert(q =~= ws.subrange(0, cap as int));
    lemma_pop_n(q, cap + 1);
    assert(pop_n(q, cap + 1).1 =~= Seq::new(cap as nat, |i: int| Some(ws[i])).push(None));
    assert(pop_n(q, cap + 1).0 =~= Seq::<u16>::empty());
}

/// Number of words stored in a ring buffer with the given raw cursors.
pub fn len(ridx: usize, widx: usize, bufflen: usize) -> (r: usize)
    requires
        cursors_valid(ridx as int, widx as int, bufflen as int),
        2 * bufflen <= usize::MAX,
    ensures
        r == cursor_len(ridx as int, widx as int, bufflen as int),
{
    if widx >= ridx {
        widx - ridx
    } else {
        2 * bufflen - ridx + widx
    }
}

/// Whether a ring buffer with these raw cursors holds `bufflen` words.
pub fn is_full(ridx: usize, widx: usize, bufflen: usize) -> (r: bool)
    requires
        cursors_valid(ridx as int, widx as int, bufflen as int),
        2 * bufflen <= usize::MAX,
    ensures
        r == (cursor_len(ridx as int, widx as int, bufflen as int) == bufflen),
{
    len(ridx, widx, bufflen) == bufflen
}

/// Whether a ring buffer with these raw cursors holds no word.
pub fn is_empty(ridx: usize, widx: usize, bufflen: usize) -> (r: bool)
    requires
        cursors_valid(ridx as int, widx as int, bufflen as int),
    ensures
        r == (cursor_len(ridx as int, widx as int, bufflen as int) == 0),
{
    ridx == widx
}

/// The storage slot of a raw cursor below `2 * bufflen`.
pub(crate) fn slot_of(raw: usize, bufflen: usize) -> (r: usize)
    requires
        raw < 2 * bufflen,
    ensures
        r == slot(raw as int, bufflen as int),
        r < bufflen,
{
    if raw >= bufflen {
        raw - bufflen
    } else {
        raw
    }
}

/// Raw cursor `raw` moved `n` places forward, modulo `2 * bufflen`.
pub(crate) fn advance_by(raw: usize, n: usize, bufflen: usize) -> (r: usize)
    requires
        raw < 2 * bufflen,
        n <= bufflen,
        2 * bufflen <= usize::MAX,
    ensures
        r == advance(raw as int, n as int, bufflen as int),
        r < 2 * bufflen,
{
    if raw >= 2 * bufflen - n {
        raw - (2 * bufflen - n)
    } else {
        raw + n
    }
}

/// Ring buffer of words for the outbound side of a bulk transfer session.
pub struct Ringbuffer {
    /// Storage, exactly `bufflen` words.
    buffer: Vec<u16>,
    /// The maximum number of words the buffer can store.
    bufflen: usize,
    /// The next position to read, modulo `2 * bufflen`.
    read_idx: usize,
    /// The next position to write, modulo `2 * bufflen`.
    write_idx: usize,
}

impl View for Ringbuffer {
    type V = Seq<u16>;

    /// The stored words, oldest first.
    closed spec fn view(&self) -> Seq<u16> {
        let b = self.bufflen as int;
        let r = self.read_idx as int;
        Seq::new(
            cursor_len(r, self.write_idx as int, b) as nat,
            |k: int| self.buffer@[slot(r + k, b)],
        )
    }
}

impl Ringbuffer {
    /// The internal invariant: storage matches the capacity, the cursors are
    /// valid and at most `bufflen` words are stored.
    pub closed spec fn wf(&self) -> bool {
        &&& self.buffer@.len() == self.bufflen
        &&& 2 * self.bufflen <= usize::MAX
        &&& cursors_valid(self.read_idx as int, self.write_idx as int, self.bufflen as int)
        &&& cursor_len(self.read_idx as int, self.write_idx as int, self.bufflen as int)
            <= self.bufflen
    }

    /// The maximum number of words the buffer can hold.
    pub closed spec fn capacity(&self) -> nat {
        self.bufflen as nat
    }

    /// The stored words are never more than the capacity.
    pub proof fn lemma_len_bounded(&self)
        requires
            self.wf(),
        ensures
            self@.len() <= self.capacity(),
    {
    }

    /// A buffer without storage, for use as a placeholder.
    pub fn empty() -> (r: Self)
        ensures
            r.wf(),
            r@ == Seq::<u16>::empty(),
            r.capacity() == 0,
    {
        let r = Ringbuffer { buffer: Vec::new(), bufflen: 0, read_idx: 0, write_idx: 0 };
        assert(r@ =~= Seq::<u16>::empty());
        r
    }

    /// Whether this is a placeholder without storage rather than a real buffer.
    pub fn is_placeholder(&self) -> (r: bool)
        ensures
            r == (self.capacity() == 0),
    {
        self.bufflen == 0
    }

    /// A new, empty ring buffer that holds up to `cap` words.
    pub fn new(cap: usize) -> (r: Self)
        requires
            2 * cap <= usize::MAX,
        ensures
            r.wf(),
            r@ == Seq::<u16>::empty(),
            r.capacity() == cap,
    {
        let buffer = vec![SENTINEL; cap];
        let r = Ringbuffer { buffer, bufflen: cap, read_idx: 0, write_idx: 0 };
        assert(r@ =~= Seq::<u16>::empty());
        r
    }

    /// Appends `p0`, or fails with the buffer unchanged when it is full.
    pub fn push(&mut self, p0: u16) -> (r: Result<(), ()>)
        requires
            old(self).wf(),
        ensures
            final(self).wf(),
            final(self).capacity() == old(self).capacity(),
            (final(self)@, r is Ok) == queue_push(old(self)@, old(self).capacity(), p0),
    {
        let raw_ridx = self.read_idx;
        let raw_widx = self.write_idx;
        if is_full(raw_ridx, raw_widx, self.bufflen) {
            return Err(());
        }
        let ghost before = self@;
        let widx = slot_of(raw_widx, self.bufflen);
        self.buffer.set(widx, p0);
        self.write_idx = advance_by(raw_widx, 1, self.bufflen);
        assert(self@ =~= before.push(p0));
        Ok(())
    }

    /// Removes and returns the oldest word, or `None` when the buffer is empty.
    pub fn pop(&mut self) -> (r: Option<u16>)
        requires
            old(self).wf(),
        ensures
            final(self).wf(),
            final(self).capacity() == old(self).capacity(),
            (final(self)@, r) == queue_pop(old(self)@),
    {
        let raw_ridx = self.read_idx;
        let raw_widx = self.write_idx;
        if is_empty(raw_ridx, raw_widx, self.bufflen) {
            return None;
        }
        let ghost before = self@;
        let ridx = slot_of(raw_ridx, self.bufflen);
        let v = self.buffer[ridx];
        self.read_idx = advance_by(raw_ridx, 1, self.bufflen);
        assert(self@ =~= before.drop_first());
        Some(v)
    }
    /// Copies the oldest words into the front of `outbuff`, as many as are
    /// stored and as fit, and consumes them. Returns how many were copied; the
    /// rest of `outbuff` is left as it was.
    pub fn read_bulk(&mut self, outbuff: &mut [u16]) -> (r: usize)
        requires
            old(self).wf(),
        ensures
            final(self).wf(),
            final(self).capacity() == old(self).capacity(),
            r == min(old(self)@.len() as int, old(outbuff)@.len() as int),
            final(outbuff)@.len() == old(outbuff)@.len(),
            final(outbuff)@.subrange(0, r as int) == old(self)@.subrange(0, r as int),
            final(outbuff)@.subrange(r as int, final(outbuff)@.len() as int) == old(
                outbuff,
            )@.subrange(r as int, old(outbuff)@.len() as int),
            final(self)@ == old(self)@.subrange(r as int, old(self)@.len() as int),
    {
        let raw_ridx = self.read_idx;
        let raw_widx = self.write_idx;
        if is_empty(raw_ridx, raw_widx, self.bufflen) {
            assert(outbuff@.subrange(0, outbuff@.len() as int) =~= outbuff@);
            assert(self@.subrange(0, 0) =~= outbuff@.subrange(0, 0));
            assert(self@ =~= self@.subrange(0, self@.len() as int));
            return 0;
        }
        let ghost before = self@;
        let stored = len(raw_ridx, raw_widx, self.bufflen);
        let to_read = if stored < outbuff.len() {
            stored
        } else {
            outbuff.len()
        };
        let mut pos = slot_of(raw_ridx, self.bufflen);
        let mut k: usize = 0;
        while k < to_read
            invariant
                self.wf(),
                before == self@,
                self.read_idx == raw_ridx,
                to_read <= before.len(),
                to_read <= outbuff@.len(),
                outbuff@.len() == old(outbuff)@.len(),
                0 <= k <= to_read,
                pos < self.bufflen,
                pos == slot(raw_ridx + k, self.bufflen as int),
                forall|j: int| 0 <= j < k ==> outbuff@[j] == before[j],
                forall|j: int| k <= j < outbuff@.len() ==> outbuff@[j] == old(outbuff)@[j],
            decreases to_read - k,
        {
            outbuff[k] = self.buffer[pos];
            pos = if pos + 1 == self.bufflen {
                0
            } else {
                pos + 1
            };
            k += 1;
        }
        self.read_idx = advance_by(raw_ridx, to_read, self.bufflen);
        assert(outbuff@.subrange(0, to_read as int) =~= before.subrange(0, to_read as int));
        assert(outbuff@.subrange(to_read as int, outbuff@.len() as int) =~= old(outbuff)@.subrange(
            to_read as int,
            old(outbuff)@.len() as int,
        ));
        assert(self@ =~= before.subrange(to_read as int, before.len() as int));
        to_read
    }

    /// Appends the words of `buff` in order until the buffer is full or `buff`
    /// is exhausted; words that were written stay written. Returns how many
    /// were written.
    pub fn write_bulk(&mut self, buff: &[u16]) -> (r: usize)
        requires
            old(self).wf(),
        ensures
            final(self).wf(),
            final(self).capacity() == old(self).capacity(),
            r == min(old(self).capacity() - old(self)@.len(), buff@.len() as int),
            final(self)@ == old(self)@ + buff@.subrange(0, r as int),
    {
        let mut retvl: usize = 0;
        let ghost start = self@;
        while retvl < buff.len()
            invariant
                self.wf(),
                self.capacity() == old(self).capacity(),
                start == old(self)@,
                retvl <= buff@.len(),
                self@ == start + buff@.subrange(0, retvl as int),
                self@.len() == start.len() + retvl,
            decreases buff@.len() - retvl,
        {
            let ghost prev = self@;
            if self.push(buff[retvl]).is_err() {
                return retvl;
            }
            assert(buff@.subrange(0, retvl + 1) =~= buff@.subrange(0, retvl as int).push(
                buff@[retvl as int],
            ));
            retvl += 1;
        }
        proof {
            self.lemma_len_bounded();
        }
        retvl
    }
}

} // verus!

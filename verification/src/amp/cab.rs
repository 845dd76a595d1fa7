use vstd::prelude::*;

verus! {

/// Position in the ring of the sample that is `age` samples old, when the
/// newest sample sits at `write_idx` in a ring of `len` slots.
pub open spec fn age_slot(write_idx: int, len: int, age: int) -> int {
    if age <= write_idx {
        write_idx - age
    } else {
        write_idx + len - age
    }
}

/// The history of a ring, newest first, shifted one step: the oldest entry
/// comes round to the front (it is the slot the next write reuses).
pub open spec fn rotate<T>(s: Seq<T>) -> Seq<T>
    recommends
        s.len() > 0,
{
    seq![s.last()] + s.drop_last()
}

/// The history after each sample of `later` has gone through one step of
/// the line: the head advances, then the sample is written under it.
pub open spec fn feed<T>(history: Seq<T>, later: Seq<T>) -> Seq<T>
    decreases later.len(),
{
    if later.len() == 0 {
        history
    } else {
        feed(rotate(history).update(0, later[0]), later.drop_first())
    }
}

proof fn lemma_feed_keeps<T>(history: Seq<T>, later: Seq<T>, age: int)
    requires
        0 <= age,
        age + later.len() < history.len(),
    ensures
        feed(history, later).len() == history.len(),
        feed(history, later)[age + later.len()] == history[age],
    decreases later.len(),
{
    if later.len() > 0 {
        let next = rotate(history).update(0, later[0]);
        assert(next[age + 1] == history[age]);
        lemma_feed_keeps(next, later.drop_first(), age + 1);
    }
}

/// Whatever the line holds, a sample written into it is read back unchanged
/// `later.len()` steps afterwards, whatever was written in between, as long
/// as that delay is shorter than the line.
pub proof fn lemma_delayed_read_returns_write<T>(history: Seq<T>, value: T, later: Seq<T>)
    requires
        later.len() < history.len(),
    ensures
        feed(history.update(0, value), later)[later.len() as int] == value,
{
    lemma_feed_keeps(history.update(0, value), later, 0);
}

/// A fixed-size circular delay line: the cabinet's inter-microphone phase
/// delay and its room-reflection buffer are both of this kind.
///
/// Its view is the stored history ordered by age: index 0 is the slot under
/// the write head, index `k` the sample written `k` steps before it.
pub struct DelayLine<T> {
    buffer: Vec<T>,
    write_idx: usize,
}

impl<T> DelayLine<T> {
    #[verifier::type_invariant]
    spec fn well_formed(self) -> bool {
        &&& self.buffer@.len() > 0
        &&& self.write_idx < self.buffer@.len()
    }
}

impl<T> View for DelayLine<T> {
    type V = Seq<T>;

    closed spec fn view(&self) -> Seq<T> {
        let n = self.buffer@.len() as int;
        Seq::new(n as nat, |k: int| self.buffer@[age_slot(self.write_idx as int, n, k)])
    }
}

impl<T: Copy> DelayLine<T> {
    /// A line of `len` slots, every one holding `value`.
    pub fn new(len: usize, value: T) -> (line: Self)
        requires
            len > 0,
        ensures
            line@ == Seq::new(len as nat, |k: int| value),
    {
        let mut buffer: Vec<T> = Vec::with_capacity(len);
        let mut i: usize = 0;
        while i < len
            invariant
                i <= len,
                buffer@ == Seq::new(i as nat, |k: int| value),
            decreases len - i,
        {
            buffer.push(value);
            i = i + 1;
        }
        let line = DelayLine { buffer, write_idx: 0 };
        assert(line@ =~= Seq::new(len as nat, |k: int| value));
        line
    }

    /// Number of slots.
    pub fn len(&self) -> (n: usize)
        ensures
            n == self@.len(),
            n > 0,
    {
        proof {
            use_type_invariant(self);
        }
        self.buffer.len()
    }

    /// Stores `value` in the slot under the write head (age 0).
    pub fn write(&mut self, value: T)
        ensures
            final(self)@ == old(self)@.update(0, value),
        no_unwind
    {
        proof {
            use_type_invariant(&*self);
        }
        let w = self.write_idx;
        self.buffer[w] = value;
        proof {
            let n = self.buffer@.len() as int;
            assert forall|k: int| 0 <= k < n implies age_slot(w as int, n, k) == w as int <==> k
                == 0 by {}
        }
        assert(self@ =~= old(self)@.update(0, value));
    }

    /// The sample `delay` steps older than the one under the write head; a
    /// delay of the full length comes round to the write head itself.
    pub fn tap(&self, delay: usize) -> (value: T)
        requires
            delay <= self@.len(),
        ensures
            delay < self@.len() ==> value == self@[delay as int],
            delay == self@.len() ==> value == self@[0],
    {
        proof {
            use_type_invariant(self);
        }
        let w = self.write_idx;
        let n = self.buffer.len();
        let idx = if delay <= w {
            w - delay
        } else {
            w + (n - delay)
        };
        self.buffer[idx]
    }

    /// Moves the write head one slot on, wrapping at the end of the buffer:
    /// every stored sample becomes one step older, and the oldest slot is
    /// the one the next write reuses.
    pub fn advance(&mut self)
        ensures
            final(self)@ == rotate(old(self)@),
    {
        proof {
            use_type_invariant(&*self);
        }
        let n = self.buffer.len();
        if self.write_idx + 1 == n {
            self.write_idx = 0;
        } else {
            self.write_idx = self.write_idx + 1;
        }
        assert(self@ =~= rotate(old(self)@));
    }

    /// Overwrites every slot with `value`; the write head stays where it is.
    pub fn fill(&mut self, value: T)
        ensures
            final(self)@ == Seq::new(old(self)@.len(), |k: int| value),
        no_unwind
    {
        proof {
            use_type_invariant(&*self);
        }
        let n = self.buffer.len();
        let mut i: usize = 0;
        while i < n
            invariant
                0 <= i <= n,
                n == self.buffer@.len(),
                n == old(self).buffer@.len(),
                self.write_idx == old(self).write_idx,
                self.write_idx < n,
                forall|j: int| 0 <= j < i ==> self.buffer@[j] == value,
            decreases n - i,
        {
            self.buffer[i] = value;
            i = i + 1;
        }
        assert(self@ =~= Seq::new(old(self)@.len(), |k: int| value));
    }
}

} // verus!

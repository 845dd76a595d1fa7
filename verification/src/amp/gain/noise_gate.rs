use vstd::prelude::*;

verus! {

/// One sample of the noise gate's hold logic, from the samples still to hold, the
/// detector's verdict for this sample and the hold length in samples, to
/// whether the noise gate aims to be open and the samples still to hold after it.
pub open spec fn hold_step(remaining: int, detected: bool, hold: int) -> (bool, int) {
    if detected {
        (true, hold)
    } else if remaining > 0 {
        (true, remaining - 1)
    } else {
        (false, remaining)
    }
}

/// Samples still to hold after the whole of `detections`.
pub open spec fn hold_after(remaining: int, detections: Seq<bool>, hold: int) -> int
    decreases detections.len(),
{
    if detections.len() == 0 {
        remaining
    } else {
        hold_step(
            hold_after(remaining, detections.drop_last(), hold),
            detections.last(),
            hold,
        ).1
    }
}

/// Whether the noise gate aims to be open at each sample of `detections`.
pub open spec fn hold_run(remaining: int, detections: Seq<bool>, hold: int) -> Seq<bool>
    decreases detections.len(),
{
    if detections.len() == 0 {
        Seq::empty()
    } else {
        hold_run(remaining, detections.drop_last(), hold).push(
            hold_step(
                hold_after(remaining, detections.drop_last(), hold),
                detections.last(),
                hold,
            ).0,
        )
    }
}

/// `len` samples in which the detector hears nothing.
pub open spec fn quiet(len: nat) -> Seq<bool> {
    Seq::new(len, |i: int| false)
}

/// The hold timer of the noise gate: after the detector last heard the
/// signal, the noise gate is kept open for a set number of samples before it may
/// start to close.
pub struct GateHold {
    remaining: i32,
}

impl View for GateHold {
    type V = int;

    closed spec fn view(&self) -> int {
        self.remaining as int
    }
}

impl GateHold {
    /// A timer with nothing left to hold.
    pub fn new() -> (h: Self)
        ensures
            h@ == 0,
    {
        GateHold { remaining: 0 }
    }

    /// Samples still to hold.
    pub fn remaining(&self) -> (r: i32)
        ensures
            r as int == self@,
    {
        self.remaining
    }

    /// Runs one sample through the timer; returns whether the noise gate aims to
    /// be open for it.
    pub fn step(&mut self, detected: bool, hold_samples: i32) -> (open: bool)
        ensures
            (open, final(self)@) == hold_step(old(self)@, detected, hold_samples as int),
    {
        if detected {
            self.remaining = hold_samples;
            true
        } else if self.remaining > 0 {
            self.remaining = self.remaining - 1;
            true
        } else {
            false
        }
    }

    /// Runs a block of detector verdicts through the timer, one flag per
    /// sample telling whether the noise gate aims to be open.
    pub fn open_flags(&mut self, detections: &[bool], hold_samples: i32) -> (flags: Vec<bool>)
        ensures
            flags@ == hold_run(old(self)@, detections@, hold_samples as int),
            final(self)@ == hold_after(old(self)@, detections@, hold_samples as int),
    {
        let mut flags: Vec<bool> = Vec::new();
        let n = detections.len();
        let mut i: usize = 0;
        while i < n
            invariant
                i <= n,
                n == detections@.len(),
                flags@ == hold_run(old(self)@, detections@.take(i as int), hold_samples as int),
                self@ == hold_after(old(self)@, detections@.take(i as int), hold_samples as int),
            decreases n - i,
        {
            proof {
                assert(detections@.take(i + 1).drop_last() =~= detections@.take(i as int));
            }
            let open = self.step(detections[i], hold_samples);
            flags.push(open);
            i = i + 1;
        }
        proof {
            assert(detections@.take(n as int) =~= detections@);
        }
        flags
    }
}

proof fn lemma_run_split(remaining: int, first: Seq<bool>, rest: Seq<bool>, hold: int)
    ensures
        hold_run(remaining, first + rest, hold) == hold_run(remaining, first, hold) + hold_run(
            hold_after(remaining, first, hold),
            rest,
            hold,
        ),
        hold_after(remaining, first + rest, hold) == hold_after(
            hold_after(remaining, first, hold),
            rest,
            hold,
        ),
    decreases rest.len(),
{
    if rest.len() == 0 {
        assert(first + rest =~= first);
        assert(hold_run(remaining, first, hold) + Seq::<bool>::empty() =~= hold_run(
            remaining,
            first,
            hold,
        ));
    } else {
        assert((first + rest).drop_last() =~= first + rest.drop_last());
        assert((first + rest).last() == rest.last());
        lemma_run_split(remaining, first, rest.drop_last(), hold);
        assert(hold_run(remaining, first + rest, hold) =~= hold_run(remaining, first, hold)
            + hold_run(hold_after(remaining, first, hold), rest, hold));
    }
}

proof fn lemma_quiet_run(remaining: int, len: nat, hold: int)
    ensures
        hold_run(remaining, quiet(len), hold).len() == len,
        forall|i: int|
            0 <= i < len ==> #[trigger] hold_run(remaining, quiet(len), hold)[i] == (i
                < remaining),
        hold_after(remaining, quiet(len), hold) == if remaining <= 0 {
            remaining
        } else if len <= remaining {
            remaining - len
        } else {
            0
        },
    decreases len,
{
    if len > 0 {
        let shorter = (len - 1) as nat;
        assert(quiet(len).drop_last() =~= quiet(shorter));
        lemma_quiet_run(remaining, shorter, hold);
    }
}

/// Once the detector stops hearing the signal, the noise gate stays open for
/// exactly the hold length (for a hold length of zero or more) and then
/// aims to close, whatever the timer held before.
pub proof fn lemma_hold_keeps_gate_open(remaining: int, hold: int, quiet_len: nat)
    requires
        hold >= 0,
    ensures
        ({
            let flags = hold_run(remaining, seq![true] + quiet(quiet_len), hold);
            &&& flags.len() == quiet_len + 1
            &&& forall|i: int| 0 <= i <= quiet_len ==> #[trigger] flags[i] == (i <= hold)
        }),
{
    let first = seq![true];
    lemma_run_split(remaining, first, quiet(quiet_len), hold);
    assert(first.drop_last() =~= Seq::<bool>::empty());
    assert(hold_run(remaining, first.drop_last(), hold) == Seq::<bool>::empty());
    assert(hold_after(remaining, first.drop_last(), hold) == remaining);
    assert(hold_run(remaining, first, hold) =~= seq![true]);
    assert(hold_after(remaining, first, hold) == hold);
    lemma_quiet_run(hold, quiet_len, hold);
    let flags = hold_run(remaining, first + quiet(quiet_len), hold);
    assert forall|i: int| 0 <= i <= quiet_len implies #[trigger] flags[i] == (i <= hold) by {
        if i > 0 {
            assert(flags[i] == hold_run(hold, quiet(quiet_len), hold)[i - 1]);
        }
    }
}

} // verus!

use vstd::prelude::*;

verus! {

/// Oversampling factor for the waveshaper stage.
#[derive(Debug, PartialEq, Eq, Clone, Copy, Structural)]
pub enum OsFactor {
    Off,
    X2,
    X4,
}

/// Taps per polyphase component of the 32-tap prototype lowpass.
pub const PHASE_LEN: usize = 16;

/// The effect of pushing `x` into a tap history: it becomes the newest tap
/// and the oldest tap falls off.
pub open spec fn shift_in<T>(taps: Seq<T>, x: T) -> Seq<T> {
    seq![x] + taps.take(taps.len() - 1)
}

/// Pushes the samples of `xs` one after another into a tap history.
pub open spec fn shift_in_all<T>(taps: Seq<T>, xs: Seq<T>) -> Seq<T>
    decreases xs.len(),
{
    if xs.len() == 0 {
        taps
    } else {
        shift_in_all(shift_in(taps, xs[0]), xs.drop_first())
    }
}

/// Input history of one polyphase FIR component: `PHASE_LEN` samples, the
/// newest at index 0. Fixed size, allocated once by `new`; `push` and `reset`
/// work in place, so the audio path never allocates.
pub struct History<T> {
    taps: Vec<T>,
}

impl<T: Copy> View for History<T> {
    type V = Seq<T>;

    open spec fn view(&self) -> Seq<T> {
        self.spec_taps()
    }
}

impl<T: Copy> History<T> {
    /// The stored samples, newest first.
    pub closed spec fn spec_taps(&self) -> Seq<T> {
        self.taps@
    }

    /// The history always holds exactly `PHASE_LEN` samples.
    pub closed spec fn wf(&self) -> bool {
        self.taps.len() == PHASE_LEN
    }

    fn filled(fill: T) -> (v: Vec<T>)
        ensures
            v@ == Seq::new(PHASE_LEN as nat, |i: int| fill),
    {
        let mut v: Vec<T> = Vec::new();
        let mut i: usize = 0;
        while i < PHASE_LEN
            invariant
                i <= PHASE_LEN,
                v@ == Seq::new(i as nat, |k: int| fill),
            decreases PHASE_LEN - i,
        {
            v.push(fill);
            i = i + 1;
        }
        v
    }

    /// A history whose every tap holds `fill` (silence, for audio).
    pub fn new(fill: T) -> (h: Self)
        ensures
            h.wf(),
            h@ == Seq::new(PHASE_LEN as nat, |i: int| fill),
    {
        History { taps: Self::filled(fill) }
    }

    /// Sets every tap to `fill`, in place, without allocating.
    pub fn reset(&mut self, fill: T)
        requires
            old(self).wf(),
        ensures
            final(self).wf(),
            final(self)@ == Seq::new(PHASE_LEN as nat, |i: int| fill),
    {
        let mut i: usize = 0;
        while i < PHASE_LEN
            invariant
                i <= PHASE_LEN,
                self.taps.len() == PHASE_LEN,
                forall|k: int| 0 <= k < i ==> #[trigger] self.taps@[k] == fill,
            decreases PHASE_LEN - i,
        {
            self.taps.set(i, fill);
            i = i + 1;
        }
        assert(self.taps@ =~= Seq::new(PHASE_LEN as nat, |i: int| fill));
    }

    /// Shifts every tap one place older and stores `x` as the newest.
    pub fn push(&mut self, x: T)
        requires
            old(self).wf(),
        ensures
            final(self).wf(),
            final(self)@ == shift_in(old(self)@, x),
            final(self)@.len() == PHASE_LEN,
            final(self)@[0] == x,
            forall|k: int| 1 <= k < PHASE_LEN ==> #[trigger] final(self)@[k] == old(self)@[k - 1],
    {
        let ghost old_taps = self.taps@;
        let mut k: usize = PHASE_LEN - 1;
        while k > 0
            invariant
                k < PHASE_LEN,
                self.taps.len() == PHASE_LEN,
                forall|j: int| 0 <= j <= k ==> #[trigger] self.taps@[j] == old_taps[j],
                forall|j: int| k < j < PHASE_LEN ==> #[trigger] self.taps@[j] == old_taps[j - 1],
            decreases k,
        {
            let prev = self.taps[k - 1];
            self.taps.set(k, prev);
            k = k - 1;
        }
        self.taps.set(0, x);
        assert(self.taps@ =~= shift_in(old_taps, x));
    }

    /// The tap `k` places behind the newest sample.
    pub fn get(&self, k: usize) -> (r: T)
        requires
            self.wf(),
            k < PHASE_LEN,
        ensures
            r == self@[k as int],
    {
        self.taps[k]
    }
}

/// After pushing `xs` into a history, tap `k` holds the sample pushed `k`
/// pushes before the last one, as long as that many samples were pushed;
/// the remaining taps hold the previous history, shifted along.
pub proof fn lemma_history_holds_recent<T>(taps: Seq<T>, xs: Seq<T>)
    requires
        taps.len() == PHASE_LEN,
    ensures
        shift_in_all(taps, xs) == (xs.reverse() + taps).take(PHASE_LEN as int),
        forall|k: int|
            0 <= k < PHASE_LEN && k < xs.len() ==> #[trigger] shift_in_all(taps, xs)[k] == xs[xs.len()
                - 1 - k],
{
    lemma_shift_in_all_stream(taps, xs);
    let r = shift_in_all(taps, xs);
    assert forall|k: int| 0 <= k < PHASE_LEN && k < xs.len() implies #[trigger] r[k] == xs[xs.len()
        - 1 - k] by {
        assert(r[k] == (xs.reverse() + taps)[k]);
    }
}

proof fn lemma_shift_in_all_stream<T>(taps: Seq<T>, xs: Seq<T>)
    requires
        taps.len() == PHASE_LEN,
    ensures
        shift_in_all(taps, xs) == (xs.reverse() + taps).take(PHASE_LEN as int),
    decreases xs.len(),
{
    if xs.len() == 0 {
        assert((xs.reverse() + taps).take(PHASE_LEN as int) =~= taps);
    } else {
        let next = shift_in(taps, xs[0]);
        let rest = xs.drop_first();
        lemma_shift_in_all_stream(next, rest);
        assert((rest.reverse() + next).take(PHASE_LEN as int) =~= (xs.reverse() + taps).take(
            PHASE_LEN as int,
        )) by {
            assert forall|k: int| 0 <= k < PHASE_LEN implies (rest.reverse() + next)[k] == (
            xs.reverse() + taps)[k] by {
                if k < rest.len() {
                    assert(rest.reverse()[k] == rest[rest.len() - 1 - k]);
                    assert(xs.reverse()[k] == xs[xs.len() - 1 - k]);
                } else if k == rest.len() {
                    assert(xs.reverse()[k] == xs[0]);
                } else {
                    assert(next[k - rest.len()] == taps[k - rest.len() - 1]);
                }
            }
        }
    }
}

} // verus!

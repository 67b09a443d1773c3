use vstd::prelude::*;

verus! {

/// Length of the limiter's lookahead window, in samples (~5.8 ms at 44.1 kHz).
pub const LOOKAHEAD: usize = 256;

/// One sample step of a delay line whose contents, oldest first, are `window`:
/// the oldest sample comes out and `x` joins at the young end.
pub open spec fn delay_step<T>(window: Seq<T>, x: T) -> (T, Seq<T>) {
    (window[0], window.drop_first().push(x))
}

/// Feeds the samples `xs` one by one through a delay line holding `window`;
/// returns the samples that came out and the final contents.
pub open spec fn delay_feed<T>(window: Seq<T>, xs: Seq<T>) -> (Seq<T>, Seq<T>)
    decreases xs.len(),
{
    if xs.len() == 0 {
        (Seq::empty(), window)
    } else {
        let (out, next) = delay_step(window, xs[0]);
        let (rest, last) = delay_feed(next, xs.drop_first());
        (seq![out] + rest, last)
    }
}

/// Fixed-length lookahead delay line of the brickwall limiter (a ring buffer
/// of `LOOKAHEAD` samples, allocated once by `new`; every other operation
/// works in place, so the audio path never allocates).
///
/// Its view is the window of the last `LOOKAHEAD` samples written, oldest first.
pub struct DelayLine<T: Copy> {
    buf: Vec<T>,
    write: usize,
}

impl<T: Copy> View for DelayLine<T> {
    type V = Seq<T>;

    open spec fn view(&self) -> Seq<T> {
        self.window()
    }
}

impl<T: Copy> DelayLine<T> {
    /// The stored samples, oldest first.
    pub closed spec fn window(&self) -> Seq<T> {
        self.buf@.subrange(self.write as int, LOOKAHEAD as int) + self.buf@.subrange(
            0,
            self.write as int,
        )
    }

    /// The ring buffer has its fixed length and the write position lies in it.
    pub closed spec fn wf(&self) -> bool {
        &&& self.buf.len() == LOOKAHEAD
        &&& self.write < LOOKAHEAD
    }

    fn filled(fill: T) -> (v: Vec<T>)
        ensures
            v@ == Seq::new(LOOKAHEAD as nat, |i: int| fill),
    {
        let mut v: Vec<T> = Vec::new();
        let mut i: usize = 0;
        while i < LOOKAHEAD
            invariant
                i <= LOOKAHEAD,
                v@ == Seq::new(i as nat, |k: int| fill),
            decreases LOOKAHEAD - i,
        {
            v.push(fill);
            i = i + 1;
        }
        v
    }

    /// A delay line whose whole window holds `fill` (silence, for audio).
    pub fn new(fill: T) -> (d: Self)
        ensures
            d.wf(),
            d@ == Seq::new(LOOKAHEAD as nat, |i: int| fill),
    {
        let d = DelayLine { buf: Self::filled(fill), write: 0 };
        assert(d.window() =~= Seq::new(LOOKAHEAD as nat, |i: int| fill));
        d
    }

    /// Clears the delay line in place, without allocating: every stored
    /// sample becomes `fill`.
    pub fn reset(&mut self, fill: T)
        requires
            old(self).wf(),
        ensures
            final(self).wf(),
            final(self)@ == Seq::new(LOOKAHEAD as nat, |i: int| fill),
    {
        let mut i: usize = 0;
        while i < LOOKAHEAD
            invariant
                i <= LOOKAHEAD,
                self.buf.len() == LOOKAHEAD,
                forall|k: int| 0 <= k < i ==> #[trigger] self.buf@[k] == fill,
            decreases LOOKAHEAD - i,
        {
            self.buf.set(i, fill);
            i = i + 1;
        }
        self.write = 0;
        assert(self.window() =~= Seq::new(LOOKAHEAD as nat, |i: int| fill));
    }

    /// Writes `x` and returns the sample written `LOOKAHEAD` calls earlier.
    pub fn process(&mut self, x: T) -> (out: T)
        requires
            old(self).wf(),
        ensures
            final(self).wf(),
            (out, final(self)@) == delay_step(old(self)@, x),
            final(self)@.len() == LOOKAHEAD,
            out == old(self)@[0],
            final(self)@[LOOKAHEAD - 1] == x,
            forall|k: int| 0 <= k < LOOKAHEAD - 1 ==> #[trigger] final(self)@[k] == old(self)@[k + 1],
    {
        let ghost w = self.window();
        let w_idx = self.write;
        let out = self.buf[w_idx];
        self.buf.set(w_idx, x);
        let next = if w_idx + 1 == LOOKAHEAD {
            0
        } else {
            w_idx + 1
        };
        proof {
            let b = self.buf@;
            let nw = b.subrange(next as int, LOOKAHEAD as int) + b.subrange(0, next as int);
            assert(w[0] == out);
            assert(nw =~= w.drop_first().push(x));
        }
        self.write = next;
        out
    }
}

/// The delay line returns every sample exactly `LOOKAHEAD` calls after it was
/// written: feeding `xs` into a line holding `window` yields the window
/// followed by the inputs, cut to the length of `xs`, and leaves the last
/// `LOOKAHEAD` samples of that stream inside.
pub proof fn lemma_delay_is_exact<T>(window: Seq<T>, xs: Seq<T>)
    requires
        window.len() == LOOKAHEAD,
    ensures
        delay_feed(window, xs).0 == (window + xs).take(xs.len() as int),
        delay_feed(window, xs).1 == (window + xs).skip(xs.len() as int),
        forall|k: int|
            LOOKAHEAD <= k < xs.len() ==> #[trigger] delay_feed(window, xs).0[k] == xs[k
                - LOOKAHEAD],
{
    lemma_delay_feed_stream(window, xs);
    let outs = delay_feed(window, xs).0;
    assert forall|k: int| LOOKAHEAD <= k < xs.len() implies #[trigger] outs[k] == xs[k
        - LOOKAHEAD] by {
        assert(outs[k] == (window + xs)[k]);
    }
}

proof fn lemma_delay_feed_stream<T>(window: Seq<T>, xs: Seq<T>)
    requires
        window.len() > 0,
    ensures
        delay_feed(window, xs).0 == (window + xs).take(xs.len() as int),
        delay_feed(window, xs).1 == (window + xs).skip(xs.len() as int),
    decreases xs.len(),
{
    if xs.len() == 0 {
        assert((window + xs).take(0) =~= Seq::<T>::empty());
        assert((window + xs).skip(0) =~= window);
    } else {
        let next = window.drop_first().push(xs[0]);
        let rest = xs.drop_first();
        lemma_delay_feed_stream(next, rest);
        assert(next + rest =~= (window + xs).drop_first());
        assert(seq![window[0]] + (next + rest).take(rest.len() as int) =~= (window + xs).take(
            xs.len() as int,
        ));
        assert((next + rest).skip(rest.len() as int) =~= (window + xs).skip(xs.len() as int));
    }
}

} // verus!

use vstd::prelude::*;

verus! {

/// Length of the declick fade before a retrigger, in samples
/// (~1.5 ms at 44.1 kHz: click-free, yet inaudible).
pub const DECLICK_LEN: u32 = 64;

/// Retrigger scheduling of a kick voice.
///
/// A trigger that arrives while the voice still sounds is not fired at once:
/// the output first fades out linearly over `DECLICK_LEN` samples, and the
/// trigger fires when the fade reaches zero. `V` is what the trigger carries
/// (the note velocity).
pub struct TriggerScheduler<V: Copy> {
    declick_counter: u32,
    pending: Option<V>,
}

/// The abstract state of a `TriggerScheduler`: samples left in the fade,
/// and the trigger waiting for its end.
pub struct SchedulerState<V> {
    pub declick_counter: nat,
    pub pending: Option<V>,
}

/// What one output sample of the scheduler yields: the fade gain as a
/// numerator over `DECLICK_LEN` (`None`: unity gain), and the trigger that
/// fires after this sample, if any.
pub struct TickOutput<V> {
    pub declick_gain: Option<u32>,
    pub fire: Option<V>,
}

/// The scheduler's invariant: the fade is never longer than `DECLICK_LEN`,
/// and a waiting trigger always has a fade running that will release it.
pub open spec fn scheduler_valid<V>(s: SchedulerState<V>) -> bool {
    &&& s.declick_counter <= DECLICK_LEN
    &&& s.pending is Some ==> s.declick_counter > 0
}

/// Scheduling a trigger: fired at once on a silent voice; otherwise it waits
/// (replacing any trigger already waiting) and a fade starts unless one runs.
pub open spec fn schedule_spec<V>(s: SchedulerState<V>, velocity: V, voice_active: bool) -> (
    SchedulerState<V>,
    Option<V>,
) {
    if voice_active {
        (
            SchedulerState {
                declick_counter: if s.declick_counter == 0 {
                    DECLICK_LEN as nat
                } else {
                    s.declick_counter
                },
                pending: Some(velocity),
            },
            None,
        )
    } else {
        (s, Some(velocity))
    }
}

/// One output sample: while a fade runs its gain is `counter / DECLICK_LEN`,
/// the counter goes down by one, and when it reaches zero the waiting trigger fires.
pub open spec fn tick_spec<V>(s: SchedulerState<V>) -> (SchedulerState<V>, TickOutput<V>) {
    if s.declick_counter > 0 {
        let c = (s.declick_counter - 1) as nat;
        (
            SchedulerState { declick_counter: c, pending: if c == 0 { None } else { s.pending } },
            TickOutput {
                declick_gain: Some(s.declick_counter as u32),
                fire: if c == 0 { s.pending } else { None },
            },
        )
    } else {
        (s, TickOutput { declick_gain: None, fire: None })
    }
}

/// Runs `n` output samples from state `s`: the final state and what each sample yielded.
pub open spec fn run_ticks<V>(s: SchedulerState<V>, n: nat) -> (SchedulerState<V>, Seq<TickOutput<V>>)
    decreases n,
{
    if n == 0 {
        (s, Seq::empty())
    } else {
        let (s1, o) = tick_spec(s);
        let (s2, rest) = run_ticks(s1, (n - 1) as nat);
        (s2, seq![o] + rest)
    }
}

impl<V: Copy> View for TriggerScheduler<V> {
    type V = SchedulerState<V>;

    open spec fn view(&self) -> SchedulerState<V> {
        self.spec_state()
    }
}

impl<V: Copy> TriggerScheduler<V> {
    pub closed spec fn spec_state(&self) -> SchedulerState<V> {
        SchedulerState { declick_counter: self.declick_counter as nat, pending: self.pending }
    }

    #[verifier::type_invariant]
    spec fn valid(self) -> bool {
        scheduler_valid(self.spec_state())
    }

    /// An idle scheduler: no fade, nothing waiting.
    pub fn new() -> (s: Self)
        ensures
            s@ == (SchedulerState::<V> { declick_counter: 0, pending: None }),
    {
        TriggerScheduler { declick_counter: 0, pending: None }
    }

    /// Cancels a running fade and drops any waiting trigger.
    pub fn reset(&mut self)
        ensures
            final(self)@ == (SchedulerState::<V> { declick_counter: 0, pending: None }),
    {
        proof {
            use_type_invariant(&*self);
        }
        self.pending = None;
        self.declick_counter = 0;
    }

    /// Whether a declick fade is running.
    pub fn is_fading(&self) -> (r: bool)
        ensures
            r == (self@.declick_counter > 0),
    {
        self.declick_counter > 0
    }

    /// Schedules a trigger with `velocity`. Returns the trigger when it must
    /// fire now (the voice is silent); otherwise the trigger waits for the
    /// declick fade and `None` is returned.
    pub fn schedule_trigger(&mut self, velocity: V, voice_active: bool) -> (fire_now: Option<V>)
        ensures
            (final(self)@, fire_now) == schedule_spec(old(self)@, velocity, voice_active),
            scheduler_valid(final(self)@),
            voice_active ==> {
                &&& fire_now is None
                &&& final(self)@.pending == Some(velocity)
                &&& final(self)@.declick_counter > 0
                &&& old(self)@.declick_counter > 0 ==> final(self)@.declick_counter == old(
                    self,
                )@.declick_counter
                &&& old(self)@.declick_counter == 0 ==> final(self)@.declick_counter
                    == DECLICK_LEN
            },
            !voice_active ==> fire_now == Some(velocity) && final(self)@ == old(self)@,
    {
        proof {
            use_type_invariant(&*self);
        }
        if voice_active {
            if self.declick_counter == 0 {
                self.declick_counter = DECLICK_LEN;
            }
            self.pending = Some(velocity);
            None
        } else {
            Some(velocity)
        }
    }

    /// Advances the scheduler by one output sample.
    pub fn tick(&mut self) -> (out: TickOutput<V>)
        ensures
            (final(self)@, out) == tick_spec(old(self)@),
            scheduler_valid(final(self)@),
            old(self)@.declick_counter > 0 ==> {
                &&& out.declick_gain == Some(old(self)@.declick_counter as u32)
                &&& final(self)@.declick_counter == old(self)@.declick_counter - 1
                &&& out.fire == if old(self)@.declick_counter == 1 {
                    old(self)@.pending
                } else {
                    None
                }
                &&& final(self)@.pending == if old(self)@.declick_counter == 1 {
                    None
                } else {
                    old(self)@.pending
                }
            },
            old(self)@.declick_counter == 0 ==> {
                &&& out.declick_gain is None
                &&& out.fire is None
                &&& final(self)@ == old(self)@
            },
    {
        proof {
            use_type_invariant(&*self);
        }
        if self.declick_counter > 0 {
            let gain = self.declick_counter;
            let fire = if gain == 1 {
                let p = self.pending;
                self.pending = None;
                p
            } else {
                None
            };
            self.declick_counter = gain - 1;
            TickOutput { declick_gain: Some(gain), fire }
        } else {
            TickOutput { declick_gain: None, fire: None }
        }
    }
}

/// A running fade of `c` samples yields the gains `c, c - 1, ..., 1` (over
/// `DECLICK_LEN`), fires the waiting trigger after exactly its last sample
/// (and at no other sample), and leaves the scheduler idle.
pub proof fn lemma_declick_fades_then_fires<V>(s: SchedulerState<V>)
    requires
        scheduler_valid(s),
    ensures
        ({
            let (fin, outs) = run_ticks(s, s.declick_counter);
            &&& outs.len() == s.declick_counter
            &&& fin == SchedulerState::<V> { declick_counter: 0, pending: None }
            &&& forall|i: int|
                0 <= i < s.declick_counter ==> (#[trigger] outs[i]).declick_gain == Some(
                    (s.declick_counter - i) as u32,
                )
            &&& forall|i: int|
                0 <= i < s.declick_counter ==> (#[trigger] outs[i]).fire == if i
                    == s.declick_counter - 1 {
                    s.pending
                } else {
                    None
                }
        }),
    decreases s.declick_counter,
{
    if s.declick_counter == 0 {
        assert(s.pending is None);
    } else {
        let (s1, o) = tick_spec(s);
        lemma_declick_fades_then_fires(s1);
        let (fin, rest) = run_ticks(s1, s1.declick_counter);
        let outs = seq![o] + rest;
        assert(run_ticks(s, s.declick_counter) == (fin, outs));
        assert forall|i: int| 0 < i < s.declick_counter implies #[trigger] outs[i] == rest[i - 1] by {}
    }
}

/// A trigger that arrives while the voice sounds and no fade runs fires
/// after exactly `DECLICK_LEN` output samples, carrying its own velocity.
pub proof fn lemma_retrigger_fires_after_declick<V>(velocity: V)
    ensures
        ({
            let idle = SchedulerState::<V> { declick_counter: 0, pending: None };
            let (s, now) = schedule_spec(idle, velocity, true);
            let (fin, outs) = run_ticks(s, DECLICK_LEN as nat);
            &&& now is None
            &&& outs[DECLICK_LEN - 1].fire == Some(velocity)
            &&& forall|i: int| 0 <= i < DECLICK_LEN - 1 ==> (#[trigger] outs[i]).fire is None
            &&& fin == idle
        }),
{
    let idle = SchedulerState::<V> { declick_counter: 0, pending: None };
    let (s, now) = schedule_spec(idle, velocity, true);
    lemma_declick_fades_then_fires(s);
}

/// A trigger on a silent voice fires at once with its velocity and leaves the
/// scheduler as it was.
pub proof fn lemma_trigger_on_silent_voice<V>(s: SchedulerState<V>, velocity: V)
    ensures
        schedule_spec(s, velocity, false).0 == s,
        schedule_spec(s, velocity, false).1 == Some(velocity),
{
}

/// A trigger on a sounding voice is never lost: it waits with its own
/// velocity, a fade runs (a running fade keeps its counter; otherwise a full
/// `DECLICK_LEN` fade starts), and after exactly the remaining fade samples
/// (the gains counting down to 1) the trigger fires with that velocity, once,
/// leaving the scheduler idle.
pub proof fn lemma_trigger_on_sounding_voice<V>(s: SchedulerState<V>, velocity: V)
    requires
        scheduler_valid(s),
    ensures
        ({
            let (s2, now) = schedule_spec(s, velocity, true);
            let c = s2.declick_counter;
            let (fin, outs) = run_ticks(s2, c);
            &&& now is None
            &&& s2.pending == Some(velocity)
            &&& scheduler_valid(s2)
            &&& s.declick_counter > 0 ==> c == s.declick_counter
            &&& s.declick_counter == 0 ==> c == DECLICK_LEN
            &&& c > 0
            &&& outs.len() == c
            &&& outs[c - 1].fire == Some(velocity)
            &&& forall|i: int| 0 <= i < c - 1 ==> (#[trigger] outs[i]).fire is None
            &&& forall|i: int|
                0 <= i < c ==> (#[trigger] outs[i]).declick_gain == Some((c - i) as u32)
            &&& fin == SchedulerState::<V> { declick_counter: 0, pending: None }
        }),
{
    let (s2, now) = schedule_spec(s, velocity, true);
    lemma_declick_fades_then_fires(s2);
}

/// Onset ramp of a kick: a linear fade-in over the first samples of a note,
/// against the click of an instant jump from silence to full gain.
pub struct OnsetRamp {
    pos: u32,
    total: u32,
}

/// The gain of the next sample as `pos / total`, or `None` (unity) once the
/// ramp is over.
pub open spec fn ramp_gain(pos: nat, total: nat) -> Option<(u32, u32)> {
    if pos < total {
        Some((pos as u32, total as u32))
    } else {
        None
    }
}

impl OnsetRamp {
    /// Samples of the ramp already played.
    pub closed spec fn spec_pos(&self) -> nat {
        self.pos as nat
    }

    /// Length of the ramp, in samples.
    pub closed spec fn spec_total(&self) -> nat {
        self.total as nat
    }

    /// A ramp that has finished: every sample plays at unity gain.
    pub fn new() -> (r: Self)
        ensures
            r.spec_pos() == 0,
            r.spec_total() == 0,
    {
        OnsetRamp { pos: 0, total: 0 }
    }

    /// Starts a new ramp over `total` samples.
    pub fn start(&mut self, total: u32)
        ensures
            final(self).spec_pos() == 0,
            final(self).spec_total() == total,
    {
        self.pos = 0;
        self.total = total;
    }

    /// Ends the ramp: unity gain from the next sample on.
    pub fn reset(&mut self)
        ensures
            final(self).spec_pos() == 0,
            final(self).spec_total() == 0,
    {
        self.pos = 0;
        self.total = 0;
    }

    /// The gain of the next sample: `Some((pos, total))` for `pos / total`
    /// while the ramp runs, then `None` for unity gain.
    pub fn next_gain(&mut self) -> (g: Option<(u32, u32)>)
        ensures
            g == ramp_gain(old(self).spec_pos(), old(self).spec_total()),
            old(self).spec_pos() < old(self).spec_total() ==> g == Some(
                (old(self).spec_pos() as u32, old(self).spec_total() as u32),
            ),
            old(self).spec_pos() >= old(self).spec_total() ==> g is None,
            final(self).spec_total() == old(self).spec_total(),
            final(self).spec_pos() == if old(self).spec_pos() < old(self).spec_total() {
                old(self).spec_pos() + 1
            } else {
                old(self).spec_pos()
            },
    {
        if self.pos < self.total {
            let g = (self.pos, self.total);
            self.pos = self.pos + 1;
            Some(g)
        } else {
            None
        }
    }
}

/// The gains of `n` samples of a ramp at `pos` of `total`.
pub open spec fn ramp_gains(pos: nat, total: nat, n: nat) -> Seq<Option<(u32, u32)>>
    decreases n,
{
    if n == 0 {
        Seq::empty()
    } else {
        seq![ramp_gain(pos, total)] + ramp_gains(
            if pos < total {
                pos + 1
            } else {
                pos
            },
            total,
            (n - 1) as nat,
        )
    }
}

/// A ramp started over `total` samples yields the gains `0/total, 1/total,
/// ..., (total-1)/total`, one per sample, and unity gain after them.
pub proof fn lemma_onset_ramp_is_linear(total: u32, n: nat)
    ensures
        forall|k: int|
            0 <= k < n ==> #[trigger] ramp_gains(0, total as nat, n)[k] == if k < total {
                Some((k as u32, total))
            } else {
                None::<(u32, u32)>
            },
        ramp_gains(0, total as nat, n).len() == n,
{
    lemma_ramp_gains_from(0, total as nat, n);
}

proof fn lemma_ramp_gains_from(pos: nat, total: nat, n: nat)
    requires
        pos <= total,
        total <= u32::MAX,
    ensures
        ramp_gains(pos, total, n).len() == n,
        forall|k: int|
            0 <= k < n ==> #[trigger] ramp_gains(pos, total, n)[k] == if pos + k < total {
                Some(((pos + k) as u32, total as u32))
            } else {
                None::<(u32, u32)>
            },
    decreases n,
{
    if n > 0 {
        let next = if pos < total {
            pos + 1
        } else {
            pos
        };
        lemma_ramp_gains_from(next, total, (n - 1) as nat);
        let rest = ramp_gains(next, total, (n - 1) as nat);
        assert forall|k: int| 0 <= k < n implies #[trigger] ramp_gains(pos, total, n)[k] == if pos
            + k < total {
            Some(((pos + k) as u32, total as u32))
        } else {
            None::<(u32, u32)>
        } by {
            if k > 0 {
                assert(ramp_gains(pos, total, n)[k] == rest[k - 1]);
            }
        }
    }
}

/// Edge detection on the host transport: the sequencer restarts on the block
/// where playback switches on.
pub struct PlayState {
    was_playing: bool,
}

impl PlayState {
    /// Whether playback was on in the previous block.
    pub closed spec fn spec_was_playing(&self) -> bool {
        self.was_playing
    }

    /// Playback off.
    pub fn new() -> (p: Self)
        ensures
            !p.spec_was_playing(),
    {
        PlayState { was_playing: false }
    }

    /// Records the playback state of a new block; returns whether playback
    /// has just been switched on (a rising edge).
    pub fn update(&mut self, playing: bool) -> (rising_edge: bool)
        ensures
            rising_edge == (playing && !old(self).spec_was_playing()),
            final(self).spec_was_playing() == playing,
    {
        let rising_edge = playing && !self.was_playing;
        self.was_playing = playing;
        rising_edge
    }
}

} // verus!

//! The button debouncer: a three-phase edge detector that reports one event
//! for each completed press-and-release cycle of a push-button.
//!
//! The button idles at `High` and reads `Low` while it is held down. The
//! debouncer first waits for the idle level, then for the press, then for the
//! release; on the sample that shows the release it reports the cycle and
//! starts over.

use crate::gpio_util::PinState;
use vstd::prelude::*;

verus! {

/// Pause between two reads of the button pin, in milliseconds.
pub const BUTTON_READ_PERIOD_MS: u64 = 10;

/// Pause of the button producer after it has reported a cycle, in
/// milliseconds.
pub const BUTTON_EVENT_PAUSE_MS: u64 = 50;

/// What the debouncer is waiting for.
#[derive(Debug, Clone, Copy, PartialEq, Eq, Structural)]
pub enum DebouncePhase {
    /// No idle level seen yet: waiting for `High`.
    AwaitingHigh,
    /// Idle level seen: waiting for the press, `Low`.
    Primed,
    /// Press seen: waiting for the release, `High`.
    Pressed,
}

/// Edge detector over the levels read from the button pin.
#[derive(Debug, Clone, Copy, PartialEq, Eq, Structural)]
pub struct ButtonDebouncer {
    pub phase: DebouncePhase,
}

impl ButtonDebouncer {
    /// The debouncer before its first sample.
    pub open spec fn fresh() -> ButtonDebouncer {
        ButtonDebouncer { phase: DebouncePhase::AwaitingHigh }
    }

    /// Whether `level` completes a press-and-release cycle in this state.
    pub open spec fn releases(self, level: PinState) -> bool {
        self.phase is Pressed && level is High
    }

    /// The debouncer after it has seen `level`.
    pub open spec fn after(self, level: PinState) -> ButtonDebouncer {
        match (self.phase, level) {
            (DebouncePhase::AwaitingHigh, PinState::High) => ButtonDebouncer {
                phase: DebouncePhase::Primed,
            },
            (DebouncePhase::Primed, PinState::Low) => ButtonDebouncer {
                phase: DebouncePhase::Pressed,
            },
            (DebouncePhase::Pressed, PinState::High) => ButtonDebouncer {
                phase: DebouncePhase::AwaitingHigh,
            },
            _ => self,
        }
    }

    /// The debouncer after it has seen all of `samples`, oldest first.
    pub open spec fn after_all(self, samples: Seq<PinState>) -> ButtonDebouncer
        decreases samples.len(),
    {
        if samples.len() == 0 {
            self
        } else {
            self.after_all(samples.drop_last()).after(samples.last())
        }
    }

    /// Whether sample `k` of `samples` completes a cycle, when the debouncer
    /// starts in this state and sees the samples in order.
    pub open spec fn releases_at(self, samples: Seq<PinState>, k: int) -> bool
        recommends
            0 <= k < samples.len(),
    {
        self.after_all(samples.take(k)).releases(samples[k])
    }

    /// A debouncer that has seen no sample yet.
    pub fn new() -> (debouncer: ButtonDebouncer)
        ensures
            debouncer == ButtonDebouncer::fresh(),
    {
        ButtonDebouncer { phase: DebouncePhase::AwaitingHigh }
    }

    /// Takes one sample of the button pin and says whether it completes a
    /// press-and-release cycle. After a completed cycle the debouncer is
    /// fresh again.
    pub fn step(&mut self, level: PinState) -> (released: bool)
        ensures
            released == old(self).releases(level),
            *final(self) == old(self).after(level),
            released ==> *final(self) == ButtonDebouncer::fresh(),
    {
        match (self.phase, level) {
            (DebouncePhase::AwaitingHigh, PinState::High) => {
                self.phase = DebouncePhase::Primed;
                false
            },
            (DebouncePhase::Primed, PinState::Low) => {
                self.phase = DebouncePhase::Pressed;
                false
            },
            (DebouncePhase::Pressed, PinState::High) => {
                self.phase = DebouncePhase::AwaitingHigh;
                true
            },
            _ => false,
        }
    }
}

/// Samples `i < j < k` read `High`, `Low`, `High`: the button was idle, was
/// held down, and is idle again at sample `k`.
pub open spec fn press_release_ends_at(samples: Seq<PinState>, k: int) -> bool {
    exists|i: int, j: int|
        #![trigger samples[i], samples[j]]
        0 <= i < j < k < samples.len() && samples[i] is High && samples[j] is Low
            && samples[k] is High
}

/// How far a phase is into the cycle.
spec fn progress(phase: DebouncePhase) -> int {
    match phase {
        DebouncePhase::AwaitingHigh => 0,
        DebouncePhase::Primed => 1,
        DebouncePhase::Pressed => 2,
    }
}

/// Some sample before `n` reads `High`.
spec fn idle_seen(samples: Seq<PinState>, n: int) -> bool {
    exists|i: int| 0 <= i < n && #[trigger] samples[i] is High
}

/// Some sample before `n` reads `Low` and has a `High` sample before it.
spec fn press_seen(samples: Seq<PinState>, n: int) -> bool {
    exists|i: int, j: int|
        #![trigger samples[i], samples[j]]
        0 <= i < j < n && samples[i] is High && samples[j] is Low
}

/// Feeding the first `n + 1` samples is feeding the first `n` and then
/// sample `n`.
proof fn lemma_after_all_next(start: ButtonDebouncer, samples: Seq<PinState>, n: int)
    requires
        0 <= n < samples.len(),
    ensures
        start.after_all(samples.take(n + 1)) == start.after_all(samples.take(n)).after(samples[n]),
{
    assert(samples.take(n + 1).drop_last() =~= samples.take(n));
}

/// What the phase of a debouncer that started fresh tells about the samples
/// it has seen.
proof fn lemma_phase_has_cause(samples: Seq<PinState>, n: int)
    requires
        0 <= n <= samples.len(),
    ensures
        ButtonDebouncer::fresh().after_all(samples.take(n)).phase is Primed ==> idle_seen(
            samples,
            n,
        ),
        ButtonDebouncer::fresh().after_all(samples.take(n)).phase is Pressed ==> press_seen(
            samples,
            n,
        ),
    decreases n,
{
    if n > 0 {
        lemma_phase_has_cause(samples, n - 1);
        lemma_after_all_next(ButtonDebouncer::fresh(), samples, n - 1);
        let before = ButtonDebouncer::fresh().after_all(samples.take(n - 1));
        let now = ButtonDebouncer::fresh().after_all(samples.take(n));
        if now.phase is Primed {
            if before.phase is Primed {
                let i = choose|i: int| 0 <= i < n - 1 && #[trigger] samples[i] is High;
                assert(samples[i] is High);
            } else {
                assert(samples[n - 1] is High);
            }
        }
        if now.phase is Pressed {
            if before.phase is Pressed {
                let (i, j) = choose|i: int, j: int|
                    #![trigger samples[i], samples[j]]
                    0 <= i < j < n - 1 && samples[i] is High && samples[j] is Low;
                assert(samples[i] is High && samples[j] is Low);
            } else {
                let i = choose|i: int| 0 <= i < n - 1 && #[trigger] samples[i] is High;
                assert(samples[i] is High && samples[n - 1] is Low);
            }
        }
    }
}

/// While no cycle completes, the debouncer never falls back to an earlier
/// phase.
proof fn lemma_progress_is_kept(samples: Seq<PinState>, a: int, b: int)
    requires
        0 <= a <= b <= samples.len(),
        forall|m: int| a <= m < b ==> !#[trigger] ButtonDebouncer::fresh().releases_at(samples, m),
    ensures
        progress(ButtonDebouncer::fresh().after_all(samples.take(a)).phase) <= progress(
            ButtonDebouncer::fresh().after_all(samples.take(b)).phase,
        ),
    decreases b - a,
{
    if a < b {
        lemma_progress_is_kept(samples, a, b - 1);
        lemma_after_all_next(ButtonDebouncer::fresh(), samples, b - 1);
        assert(!ButtonDebouncer::fresh().releases_at(samples, b - 1));
    }
}

/// No premature report: a debouncer that started fresh completes a cycle only
/// on a `High` sample that follows a `Low` sample that follows a `High`
/// sample.
pub proof fn lemma_release_follows_press(samples: Seq<PinState>, k: int)
    requires
        0 <= k < samples.len(),
        ButtonDebouncer::fresh().releases_at(samples, k),
    ensures
        press_release_ends_at(samples, k),
{
    lemma_phase_has_cause(samples, k);
    let (i, j) = choose|i: int, j: int|
        #![trigger samples[i], samples[j]]
        0 <= i < j < k && samples[i] is High && samples[j] is Low;
    assert(samples[i] is High && samples[j] is Low);
}

/// No missed cycle: once the samples read `High`, `Low`, `High` in this
/// order, a debouncer that started fresh has completed a cycle, at the last of
/// the three samples or before.
pub proof fn lemma_press_release_is_reported(samples: Seq<PinState>, k: int)
    requires
        press_release_ends_at(samples, k),
    ensures
        exists|m: int| 0 <= m <= k && #[trigger] ButtonDebouncer::fresh().releases_at(samples, m),
{
    let fresh = ButtonDebouncer::fresh();
    if forall|m: int| 0 <= m <= k ==> !#[trigger] fresh.releases_at(samples, m) {
        let (i, j) = choose|i: int, j: int|
            #![trigger samples[i], samples[j]]
            0 <= i < j < k < samples.len() && samples[i] is High && samples[j] is Low
                && samples[k] is High;
        assert(!fresh.releases_at(samples, i));
        lemma_after_all_next(fresh, samples, i);
        assert(progress(fresh.after_all(samples.take(i + 1)).phase) >= 1);
        lemma_progress_is_kept(samples, i + 1, j);
        lemma_after_all_next(fresh, samples, j);
        assert(fresh.after_all(samples.take(j + 1)).phase is Pressed);
        lemma_progress_is_kept(samples, j + 1, k);
        assert(fresh.releases_at(samples, k));
    }
}

/// A press that is held over any number of samples counts once: when the
/// samples read one `High`, then `Low` one or more times, then `High`, a
/// debouncer that started fresh completes a cycle on the last sample and on
/// no other.
pub proof fn lemma_sustained_press_is_one_cycle(samples: Seq<PinState>, k: int)
    requires
        samples.len() >= 3,
        samples[0] is High,
        samples[samples.len() - 1] is High,
        forall|i: int| 0 < i < samples.len() - 1 ==> #[trigger] samples[i] is Low,
        0 <= k < samples.len(),
    ensures
        ButtonDebouncer::fresh().releases_at(samples, k) <==> k == samples.len() - 1,
{
    let last = samples.len() - 1;
    if ButtonDebouncer::fresh().releases_at(samples, k) {
        lemma_release_follows_press(samples, k);
    }
    if k == last {
        assert(samples[0] is High && samples[1] is Low);
        assert(press_release_ends_at(samples, last));
        lemma_press_release_is_reported(samples, last);
        let m = choose|m: int|
            0 <= m <= last && #[trigger] ButtonDebouncer::fresh().releases_at(samples, m);
        lemma_release_follows_press(samples, m);
    }
}

/// Runs a fresh debouncer over recorded samples, oldest first, and returns
/// the index of the sample on which it reports the first completed cycle.
///
/// That is the first sample that reads `High` after an earlier `Low` after a
/// still earlier `High`; without such a sample there is no report.
pub fn first_release(samples: &[PinState]) -> (first: Option<usize>)
    ensures
        match first {
            Some(k) => {
                &&& k < samples@.len()
                &&& press_release_ends_at(samples@, k as int)
                &&& forall|m: int| 0 <= m < k ==> !press_release_ends_at(samples@, m)
            },
            None => forall|m: int| 0 <= m < samples@.len() ==> !press_release_ends_at(samples@, m),
        },
{
    let mut debouncer = ButtonDebouncer::new();
    let mut idx: usize = 0;
    while idx < samples.len()
        invariant
            idx <= samples@.len(),
            debouncer == ButtonDebouncer::fresh().after_all(samples@.take(idx as int)),
            forall|m: int|
                0 <= m < idx ==> !#[trigger] ButtonDebouncer::fresh().releases_at(samples@, m),
        decreases samples@.len() - idx,
    {
        let released = debouncer.step(samples[idx]);
        proof {
            lemma_after_all_next(ButtonDebouncer::fresh(), samples@, idx as int);
        }
        if released {
            proof {
                lemma_release_follows_press(samples@, idx as int);
                lemma_none_before_first_release(samples@, idx as int);
            }
            return Some(idx);
        }
        idx += 1;
    }
    proof {
        lemma_none_before_first_release(samples@, idx as int);
    }
    None
}

/// Before the first report of a debouncer that started fresh, the samples
/// never read `High`, `Low`, `High` in this order.
proof fn lemma_none_before_first_release(samples: Seq<PinState>, n: int)
    requires
        0 <= n <= samples.len(),
        forall|m: int| 0 <= m < n ==> !#[trigger] ButtonDebouncer::fresh().releases_at(samples, m),
    ensures
        forall|m: int| 0 <= m < n ==> !press_release_ends_at(samples, m),
{
    assert forall|m: int| 0 <= m < n implies !press_release_ends_at(samples, m) by {
        if press_release_ends_at(samples, m) {
            lemma_press_release_is_reported(samples, m);
        }
    }
}

} // verus!

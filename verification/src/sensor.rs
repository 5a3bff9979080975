//! The sensor poller: turns a stream of brightness samples into one
//! obstruction event per rising edge of its latch.

use vstd::prelude::*;

verus! {

/// A sample above this value means that the light path is interrupted.
pub const OBSTRUCTION_THRESHOLD: u8 = 20;

/// Only a sample below this value releases the latch again; a sample that
/// reads exactly this value keeps it as it is.
pub const CLEAR_LIMIT: u8 = 255;

/// Pause between two samples of the analog channel, in milliseconds.
pub const SENSOR_POLL_PERIOD_MS: u64 = 50;

/// Edge detector over the samples of the light sensor.
#[derive(Debug, Clone, Copy, PartialEq, Eq, Structural)]
pub struct SensorPoller {
    /// Set by the sample that raised the last event, cleared by the next
    /// sample below `CLEAR_LIMIT`.
    pub currently_blocked: bool,
}

impl SensorPoller {
    /// Whether `value` raises an obstruction event in this state.
    pub open spec fn emits(self, value: u8) -> bool {
        !self.currently_blocked && value > OBSTRUCTION_THRESHOLD
    }

    /// The poller after it has seen `value`.
    pub open spec fn after(self, value: u8) -> SensorPoller {
        if self.emits(value) {
            SensorPoller { currently_blocked: true }
        } else if value < CLEAR_LIMIT {
            SensorPoller { currently_blocked: false }
        } else {
            self
        }
    }

    /// The poller after it has seen all of `samples`, oldest first.
    pub open spec fn after_all(self, samples: Seq<u8>) -> SensorPoller
        decreases samples.len(),
    {
        if samples.len() == 0 {
            self
        } else {
            self.after_all(samples.drop_last()).after(samples.last())
        }
    }

    /// Whether sample `k` of `samples` raises an event, when the poller
    /// starts in this state and sees the samples in order.
    pub open spec fn emits_at(self, samples: Seq<u8>, k: int) -> bool
        recommends
            0 <= k < samples.len(),
    {
        self.after_all(samples.take(k)).emits(samples[k])
    }

    /// A poller whose latch is clear.
    pub fn new() -> (poller: SensorPoller)
        ensures
            !poller.currently_blocked,
    {
        SensorPoller { currently_blocked: false }
    }

    /// Takes one sample and says whether an obstruction event is due.
    ///
    /// An event is due exactly when the sample sets a latch that was clear.
    pub fn sample(&mut self, value: u8) -> (event: bool)
        ensures
            event == old(self).emits(value),
            *final(self) == old(self).after(value),
            event == (!old(self).currently_blocked && final(self).currently_blocked),
    {
        if !self.currently_blocked && value > OBSTRUCTION_THRESHOLD {
            self.currently_blocked = true;
            true
        } else {
            if value < CLEAR_LIMIT {
                self.currently_blocked = false;
            }
            false
        }
    }
}

/// The latch after a sample is set exactly when that sample raised an event
/// or read `CLEAR_LIMIT`.
pub proof fn lemma_latch_after_sample(poller: SensorPoller, value: u8)
    ensures
        poller.after(value).currently_blocked == (poller.emits(value) || value == CLEAR_LIMIT),
{
}

/// The first sample raises an event exactly when it is above the threshold
/// and the latch was clear. Every later sample raises one exactly when it is
/// above the threshold, the sample before it raised none and that sample did
/// not read `CLEAR_LIMIT`.
pub proof fn lemma_emission_rule(poller: SensorPoller, samples: Seq<u8>, k: int)
    requires
        0 <= k < samples.len(),
    ensures
        k == 0 ==> poller.emits_at(samples, k) == (!poller.currently_blocked && samples[k]
            > OBSTRUCTION_THRESHOLD),
        k > 0 ==> poller.emits_at(samples, k) == (samples[k] > OBSTRUCTION_THRESHOLD
            && !poller.emits_at(samples, k - 1) && samples[k - 1] != CLEAR_LIMIT),
{
    if k == 0 {
        assert(samples.take(0).len() == 0);
    } else {
        let before = samples.take(k);
        assert(before.drop_last() =~= samples.take(k - 1));
        assert(before.last() == samples[k - 1]);
        lemma_latch_after_sample(poller.after_all(samples.take(k - 1)), samples[k - 1]);
    }
}

/// No two samples in a row both raise an event.
pub proof fn lemma_no_event_right_after_event(poller: SensorPoller, samples: Seq<u8>, k: int)
    requires
        0 <= k,
        k + 1 < samples.len(),
    ensures
        !(poller.emits_at(samples, k) && poller.emits_at(samples, k + 1)),
{
    lemma_emission_rule(poller, samples, k + 1);
}

/// After an event the poller stays silent for as long as the samples read
/// `CLEAR_LIMIT`: only a lower sample re-arms it.
pub proof fn lemma_silent_while_latched(poller: SensorPoller, samples: Seq<u8>, k: int, m: int)
    requires
        0 <= k < m < samples.len(),
        poller.emits_at(samples, k),
        forall|i: int| k < i < m ==> samples[i] == CLEAR_LIMIT,
    ensures
        !poller.emits_at(samples, m),
{
    lemma_emission_rule(poller, samples, m);
}

} // verus!

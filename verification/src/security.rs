//! The security state machine and the dispatcher tick that drives it.
//!
//! One tick of the dispatcher polls the event queue once, without waiting,
//! and answers with the two pin writes that the tick performs:
//!
//! * a button event flips `armed` and drives laser and status indicator to
//!   the level that goes with the new value;
//! * an obstruction event drives the camera trigger `High` and the siren
//!   `Low`, whether the system is armed or not (the siren sounds at `Low`);
//! * an empty queue drives the camera trigger `Low` and the siren `High`.
//!
//! At most one event is taken per tick; what else is pending waits, in
//! order, for the ticks that follow.

use crate::events::{after_poll, next_event, EventQueue, SystemEventType};
use crate::gpio_util::PinState;
use vstd::prelude::*;

verus! {

/// Pause between two ticks of the dispatcher, in milliseconds.
pub const DISPATCH_PERIOD_MS: u64 = 100;

/// What the dispatcher last did to the two alarm outputs.
#[derive(Debug, Clone, Copy, PartialEq, Eq, Structural)]
pub enum AlarmOutputs {
    /// Not driven since startup: their levels are unknown.
    Undriven,
    /// Driven by an idle tick: camera trigger `Low`, siren `High`.
    Idle,
    /// Driven by an obstruction event: camera trigger `High`, siren `Low`.
    Active,
}

/// The state that the dispatcher owns. The levels of the four outputs are
/// derived from it.
#[derive(Debug, Clone, Copy, PartialEq, Eq, Structural)]
pub struct SecuritySystemState {
    /// Whether the system is armed. Laser and status indicator are `High`
    /// exactly while it is.
    pub armed: bool,
    /// What the last tick that drove the alarm outputs did to them.
    pub alarm: AlarmOutputs,
}

/// The two pin writes of one tick, in the order in which they are made.
#[derive(Debug, Clone, Copy, PartialEq, Eq, Structural)]
pub enum OutputCommand {
    /// Write the laser output, then the status indicator.
    Security { laser: PinState, indicator: PinState },
    /// Write the camera trigger, then the siren.
    Alarm { camera_trigger: PinState, siren: PinState },
}

/// The writes that bring laser and status indicator in line with `armed`.
pub open spec fn security_command(armed: bool) -> OutputCommand {
    OutputCommand::Security {
        laser: PinState::level_for(armed),
        indicator: PinState::level_for(armed),
    }
}

/// The writes that raise the alarm (`active`) or silence it.
pub open spec fn alarm_command(active: bool) -> OutputCommand {
    OutputCommand::Alarm {
        camera_trigger: PinState::level_for(active),
        siren: PinState::level_for(!active),
    }
}

/// The levels last written to the four outputs. An output that has not been
/// written since startup is `None`: the pin still has the level at which it
/// was found.
#[derive(Debug, Clone, Copy, PartialEq, Eq, Structural)]
pub struct OutputLevels {
    pub laser: Option<PinState>,
    pub indicator: Option<PinState>,
    pub camera_trigger: Option<PinState>,
    pub siren: Option<PinState>,
}

impl OutputLevels {
    /// No output written yet.
    pub open spec fn unwritten() -> OutputLevels {
        OutputLevels { laser: None, indicator: None, camera_trigger: None, siren: None }
    }

    /// The levels after the two writes of `command`.
    pub open spec fn written(self, command: OutputCommand) -> OutputLevels {
        match command {
            OutputCommand::Security { laser, indicator } => OutputLevels {
                laser: Some(laser),
                indicator: Some(indicator),
                camera_trigger: self.camera_trigger,
                siren: self.siren,
            },
            OutputCommand::Alarm { camera_trigger, siren } => OutputLevels {
                laser: self.laser,
                indicator: self.indicator,
                camera_trigger: Some(camera_trigger),
                siren: Some(siren),
            },
        }
    }

    /// Whether every output has the level that `state` gives for it.
    pub open spec fn in_step_with(self, state: SecuritySystemState) -> bool {
        &&& self.laser == Some(state.laser())
        &&& self.indicator == Some(state.indicator())
        &&& self.camera_trigger == state.camera_trigger()
        &&& self.siren == state.siren()
    }

    /// No output written yet.
    pub fn new() -> (levels: OutputLevels)
        ensures
            levels == OutputLevels::unwritten(),
    {
        OutputLevels { laser: None, indicator: None, camera_trigger: None, siren: None }
    }

    /// Records the two writes of `command`.
    pub fn write(&mut self, command: OutputCommand)
        ensures
            *final(self) == old(self).written(command),
    {
        match command {
            OutputCommand::Security { laser, indicator } => {
                self.laser = Some(laser);
                self.indicator = Some(indicator);
            },
            OutputCommand::Alarm { camera_trigger, siren } => {
                self.camera_trigger = Some(camera_trigger);
                self.siren = Some(siren);
            },
        }
    }
}

/// Turns the security system on if it was off and off if it was on: the
/// writes that drive laser and status indicator for the new setting.
pub fn toggle_security_system(already_enabled: bool) -> (command: OutputCommand)
    ensures
        command == security_command(!already_enabled),
{
    let level = PinState::from_bool(!already_enabled);
    OutputCommand::Security { laser: level, indicator: level }
}

impl SecuritySystemState {
    /// The state at startup: disarmed, alarm outputs not driven yet.
    pub open spec fn initial() -> SecuritySystemState {
        SecuritySystemState { armed: false, alarm: AlarmOutputs::Undriven }
    }

    /// The state after a tick that found `event` (`None`: the queue was
    /// empty).
    pub open spec fn after(self, event: Option<SystemEventType>) -> SecuritySystemState {
        match event {
            Some(SystemEventType::ButtonPressed) => SecuritySystemState {
                armed: !self.armed,
                alarm: self.alarm,
            },
            Some(SystemEventType::AlarmHappened) => SecuritySystemState {
                armed: self.armed,
                alarm: AlarmOutputs::Active,
            },
            None => SecuritySystemState { armed: self.armed, alarm: AlarmOutputs::Idle },
        }
    }

    /// The writes of a tick that found `event`.
    pub open spec fn command_for(self, event: Option<SystemEventType>) -> OutputCommand {
        match event {
            Some(SystemEventType::ButtonPressed) => security_command(!self.armed),
            Some(SystemEventType::AlarmHappened) => alarm_command(true),
            None => alarm_command(false),
        }
    }

    /// The state after one tick for each of `events`, oldest first.
    pub open spec fn after_events(self, events: Seq<SystemEventType>) -> SecuritySystemState
        decreases events.len(),
    {
        if events.len() == 0 {
            self
        } else {
            self.after_events(events.drop_last()).after(Some(events.last()))
        }
    }

    /// Level of the laser output.
    pub open spec fn spec_laser(&self) -> PinState {
        PinState::level_for(self.armed)
    }

    /// Level of the status indicator output.
    pub open spec fn spec_indicator(&self) -> PinState {
        PinState::level_for(self.armed)
    }

    /// Level of the camera trigger output, once it has been driven.
    pub open spec fn spec_camera_trigger(&self) -> Option<PinState> {
        match self.alarm {
            AlarmOutputs::Undriven => None,
            AlarmOutputs::Idle => Some(PinState::Low),
            AlarmOutputs::Active => Some(PinState::High),
        }
    }

    /// Level of the siren output, once it has been driven.
    pub open spec fn spec_siren(&self) -> Option<PinState> {
        match self.alarm {
            AlarmOutputs::Undriven => None,
            AlarmOutputs::Idle => Some(PinState::High),
            AlarmOutputs::Active => Some(PinState::Low),
        }
    }

    /// The state at startup. The program brings the outputs in line with it
    /// by performing `toggle_security_system(true)` before its first tick.
    pub fn new() -> (state: SecuritySystemState)
        ensures
            state == SecuritySystemState::initial(),
    {
        SecuritySystemState { armed: false, alarm: AlarmOutputs::Undriven }
    }

    /// Whether the system is armed.
    pub fn is_armed(&self) -> (armed: bool)
        ensures
            armed == self.armed,
    {
        self.armed
    }

    /// Whether the last tick that drove the alarm outputs raised the alarm.
    pub fn alarm_active(&self) -> (active: bool)
        ensures
            active == (self.alarm is Active),
    {
        match self.alarm {
            AlarmOutputs::Active => true,
            _ => false,
        }
    }

    /// Level of the laser output.
    #[verifier::when_used_as_spec(spec_laser)]
    pub fn laser(&self) -> (level: PinState)
        ensures
            level == self.spec_laser(),
    {
        PinState::from_bool(self.armed)
    }

    /// Level of the status indicator output.
    #[verifier::when_used_as_spec(spec_indicator)]
    pub fn indicator(&self) -> (level: PinState)
        ensures
            level == self.spec_indicator(),
    {
        PinState::from_bool(self.armed)
    }

    /// Level of the camera trigger output, `None` until a tick has driven it.
    #[verifier::when_used_as_spec(spec_camera_trigger)]
    pub fn camera_trigger(&self) -> (level: Option<PinState>)
        ensures
            level == self.spec_camera_trigger(),
    {
        match self.alarm {
            AlarmOutputs::Undriven => None,
            AlarmOutputs::Idle => Some(PinState::Low),
            AlarmOutputs::Active => Some(PinState::High),
        }
    }

    /// Level of the siren output, `None` until a tick has driven it.
    #[verifier::when_used_as_spec(spec_siren)]
    pub fn siren(&self) -> (level: Option<PinState>)
        ensures
            level == self.spec_siren(),
    {
        match self.alarm {
            AlarmOutputs::Undriven => None,
            AlarmOutputs::Idle => Some(PinState::High),
            AlarmOutputs::Active => Some(PinState::Low),
        }
    }

    /// Applies the transition for what one poll of the queue returned and
    /// answers with the writes to perform.
    pub fn dispatch(&mut self, event: Option<SystemEventType>) -> (command: OutputCommand)
        ensures
            *final(self) == old(self).after(event),
            command == old(self).command_for(event),
    {
        match event {
            Some(SystemEventType::ButtonPressed) => {
                let command = toggle_security_system(self.armed);
                self.armed = !self.armed;
                command
            },
            Some(SystemEventType::AlarmHappened) => {
                self.alarm = AlarmOutputs::Active;
                OutputCommand::Alarm { camera_trigger: PinState::High, siren: PinState::Low }
            },
            None => {
                self.alarm = AlarmOutputs::Idle;
                OutputCommand::Alarm { camera_trigger: PinState::Low, siren: PinState::High }
            },
        }
    }
}

/// One tick of the dispatcher: polls `queue` once without waiting, applies
/// the transition for what it found and answers with the writes to perform.
/// It takes the oldest pending event and leaves the others as they are.
pub fn dispatch_tick(
    queue: &mut EventQueue,
    state: &mut SecuritySystemState,
) -> (command: OutputCommand)
    ensures
        *final(state) == old(state).after(next_event(old(queue)@)),
        command == old(state).command_for(next_event(old(queue)@)),
        final(queue)@ == after_poll(old(queue)@),
{
    let event = queue.try_recv();
    state.dispatch(event)
}

/// State and pending events after `n` ticks during which nothing is sent.
pub open spec fn after_ticks(
    state: SecuritySystemState,
    pending: Seq<SystemEventType>,
    n: nat,
) -> (SecuritySystemState, Seq<SystemEventType>)
    decreases n,
{
    if n == 0 {
        (state, pending)
    } else {
        let before = after_ticks(state, pending, (n - 1) as nat);
        (before.0.after(next_event(before.1)), after_poll(before.1))
    }
}

/// The writes made at startup bring the outputs in step with the state at
/// startup, whatever levels laser and status indicator were found at.
pub proof fn lemma_startup_brings_outputs_in_step(found: OutputLevels)
    requires
        found.camera_trigger is None,
        found.siren is None,
    ensures
        found.written(security_command(false)).in_step_with(SecuritySystemState::initial()),
{
}

/// Outputs that are in step with the state stay in step over every tick,
/// when the writes of the tick are made.
pub proof fn lemma_tick_keeps_outputs_in_step(
    levels: OutputLevels,
    state: SecuritySystemState,
    event: Option<SystemEventType>,
)
    requires
        levels.in_step_with(state),
    ensures
        levels.written(state.command_for(event)).in_step_with(state.after(event)),
{
}

/// While the outputs are in step with the state, laser and status indicator
/// are `High` if the system is armed and `Low` if it is not.
pub proof fn lemma_armed_shows_on_laser_and_indicator(
    levels: OutputLevels,
    state: SecuritySystemState,
)
    requires
        levels.in_step_with(state),
    ensures
        state.armed ==> levels.laser == Some(PinState::High) && levels.indicator == Some(
            PinState::High,
        ),
        !state.armed ==> levels.laser == Some(PinState::Low) && levels.indicator == Some(
            PinState::Low,
        ),
{
}

/// A button event flips `armed`, drives laser and status indicator to the
/// level of the new value and leaves the alarm outputs alone.
pub proof fn lemma_button_event_toggles(levels: OutputLevels, state: SecuritySystemState)
    ensures
        state.after(Some(SystemEventType::ButtonPressed)).armed == !state.armed,
        state.after(Some(SystemEventType::ButtonPressed)).alarm == state.alarm,
        levels.written(state.command_for(Some(SystemEventType::ButtonPressed))) == (OutputLevels {
            laser: Some(PinState::level_for(!state.armed)),
            indicator: Some(PinState::level_for(!state.armed)),
            camera_trigger: levels.camera_trigger,
            siren: levels.siren,
        }),
{
}

/// Two button events in a row bring the system back to where it was: the same
/// `armed` and the same level on every output.
pub proof fn lemma_two_toggles_restore(levels: OutputLevels, state: SecuritySystemState)
    requires
        levels.in_step_with(state),
    ensures
        state.after(Some(SystemEventType::ButtonPressed)).after(
            Some(SystemEventType::ButtonPressed),
        ) == state,
        levels.written(state.command_for(Some(SystemEventType::ButtonPressed))).written(
            state.after(Some(SystemEventType::ButtonPressed)).command_for(
                Some(SystemEventType::ButtonPressed),
            ),
        ) == levels,
{
}

/// An obstruction event raises the alarm in every state, armed or not: it
/// writes camera trigger `High` and siren `Low`. It changes neither `armed`
/// nor the levels of laser and status indicator.
pub proof fn lemma_obstruction_raises_alarm(levels: OutputLevels, state: SecuritySystemState)
    ensures
        state.after(Some(SystemEventType::AlarmHappened)).armed == state.armed,
        levels.written(state.command_for(Some(SystemEventType::AlarmHappened))) == (OutputLevels {
            laser: levels.laser,
            indicator: levels.indicator,
            camera_trigger: Some(PinState::High),
            siren: Some(PinState::Low),
        }),
{
}

/// A tick that finds the queue empty writes camera trigger `Low` and siren
/// `High` in every state, whatever levels the two outputs had. It changes
/// neither `armed` nor the levels of laser and status indicator.
pub proof fn lemma_idle_tick_silences_alarm(levels: OutputLevels, state: SecuritySystemState)
    ensures
        state.after(None).armed == state.armed,
        levels.written(state.command_for(None)) == (OutputLevels {
            laser: levels.laser,
            indicator: levels.indicator,
            camera_trigger: Some(PinState::Low),
            siren: Some(PinState::High),
        }),
{
}

/// Events are handled in the order in which they were sent, one per tick,
/// none skipped and none merged: after `n` ticks the first `n` pending events
/// have been applied in order and the others still wait in order.
pub proof fn lemma_ticks_follow_send_order(
    state: SecuritySystemState,
    pending: Seq<SystemEventType>,
    n: nat,
)
    requires
        n <= pending.len(),
    ensures
        after_ticks(state, pending, n) == (
            state.after_events(pending.take(n as int)),
            pending.skip(n as int),
        ),
    decreases n,
{
    if n == 0 {
        assert(pending.take(0).len() == 0);
        assert(pending.skip(0) =~= pending);
    } else {
        let k = (n - 1) as nat;
        lemma_ticks_follow_send_order(state, pending, k);
        let rest = pending.skip(k as int);
        assert(next_event(rest) == Some(pending[k as int]));
        assert(after_poll(rest) =~= pending.skip(n as int));
        assert(pending.take(n as int).drop_last() =~= pending.take(k as int));
        assert(pending.take(n as int).last() == pending[k as int]);
    }
}

/// Once the queue has run empty, every further tick is an idle tick.
pub proof fn lemma_ticks_idle_when_drained(
    state: SecuritySystemState,
    pending: Seq<SystemEventType>,
    n: nat,
)
    requires
        n > pending.len(),
    ensures
        after_ticks(state, pending, n).0.alarm is Idle,
        after_ticks(state, pending, n).0.armed == state.after_events(pending).armed,
        after_ticks(state, pending, n).1.len() == 0,
    decreases n,
{
    let k = (n - 1) as nat;
    if k == pending.len() {
        lemma_ticks_follow_send_order(state, pending, k);
        assert(pending.take(k as int) =~= pending);
    } else {
        lemma_ticks_idle_when_drained(state, pending, k);
    }
}

} // verus!

//! The events that drive the security system, and the queue that hands them
//! from the producers to the dispatcher in the order in which they were sent.

use std::collections::VecDeque;
use vstd::prelude::*;

verus! {

/// What a producer can report to the dispatcher. Neither event carries data.
#[derive(Debug, Clone, Copy, PartialEq, Eq, Structural)]
pub enum SystemEventType {
    /// The button went through one full press-and-release cycle.
    ButtonPressed,
    /// The light path went from unobstructed to obstructed.
    AlarmHappened,
}

/// Unbounded first-in-first-out queue of events. Its view is the sequence of
/// pending events, oldest first.
#[derive(Debug)]
pub struct EventQueue {
    events: VecDeque<SystemEventType>,
}

impl View for EventQueue {
    type V = Seq<SystemEventType>;

    closed spec fn view(&self) -> Seq<SystemEventType> {
        self.events@
    }
}

/// The event that the next poll of a queue with these pending events hands
/// out: the oldest one, or none when nothing is pending.
pub open spec fn next_event(pending: Seq<SystemEventType>) -> Option<SystemEventType> {
    if pending.len() > 0 {
        Some(pending[0])
    } else {
        None
    }
}

/// What stays pending after one poll: all but the oldest event.
pub open spec fn after_poll(pending: Seq<SystemEventType>) -> Seq<SystemEventType> {
    if pending.len() > 0 {
        pending.drop_first()
    } else {
        pending
    }
}

impl EventQueue {
    /// A queue with nothing pending.
    pub fn new() -> (queue: EventQueue)
        ensures
            queue@ == Seq::<SystemEventType>::empty(),
    {
        EventQueue { events: VecDeque::new() }
    }

    /// Appends `event` behind everything that is pending. Never blocks and
    /// never drops an event.
    pub fn send(&mut self, event: SystemEventType)
        ensures
            final(self)@ == old(self)@.push(event),
    {
        self.events.push_back(event);
    }

    /// Takes the oldest pending event, if there is one, without waiting.
    pub fn try_recv(&mut self) -> (event: Option<SystemEventType>)
        ensures
            event == next_event(old(self)@),
            final(self)@ == after_poll(old(self)@),
    {
        self.events.pop_front()
    }

    /// Number of pending events.
    pub fn len(&self) -> (n: usize)
        ensures
            n == self@.len(),
    {
        self.events.len()
    }

    /// Whether nothing is pending.
    pub fn is_empty(&self) -> (empty: bool)
        ensures
            empty == (self@.len() == 0),
    {
        self.events.len() == 0
    }
}

} // verus!

use pi_control::events::{EventQueue, SystemEventType};

#[test]
fn new_queue_is_empty() {
    let mut queue = EventQueue::new();
    assert!(queue.is_empty());
    assert_eq!(queue.len(), 0);
    assert_eq!(queue.try_recv(), None);
    assert!(queue.is_empty());
}

#[test]
fn queue_hands_events_out_in_send_order() {
    let mut queue = EventQueue::new();
    queue.send(SystemEventType::ButtonPressed);
    queue.send(SystemEventType::AlarmHappened);
    queue.send(SystemEventType::AlarmHappened);
    queue.send(SystemEventType::ButtonPressed);
    assert_eq!(queue.len(), 4);
    assert!(!queue.is_empty());
    assert_eq!(queue.try_recv(), Some(SystemEventType::ButtonPressed));
    assert_eq!(queue.try_recv(), Some(SystemEventType::AlarmHappened));
    assert_eq!(queue.len(), 2);
    assert_eq!(queue.try_recv(), Some(SystemEventType::AlarmHappened));
    assert_eq!(queue.try_recv(), Some(SystemEventType::ButtonPressed));
    assert_eq!(queue.try_recv(), None);
}

#[test]
fn send_between_polls_goes_to_the_back() {
    let mut queue = EventQueue::new();
    queue.send(SystemEventType::AlarmHappened);
    queue.send(SystemEventType::ButtonPressed);
    assert_eq!(queue.try_recv(), Some(SystemEventType::AlarmHappened));
    queue.send(SystemEventType::AlarmHappened);
    assert_eq!(queue.try_recv(), Some(SystemEventType::ButtonPressed));
    assert_eq!(queue.try_recv(), Some(SystemEventType::AlarmHappened));
    assert_eq!(queue.try_recv(), None);
}

#[test]
fn queue_keeps_many_events() {
    let mut queue = EventQueue::new();
    let count: usize = 10_000;
    for index in 0..count {
        if index % 3 == 0 {
            queue.send(SystemEventType::ButtonPressed);
        } else {
            queue.send(SystemEventType::AlarmHappened);
        }
    }
    assert_eq!(queue.len(), count);
    for index in 0..count {
        let expected = if index % 3 == 0 {
            SystemEventType::ButtonPressed
        } else {
            SystemEventType::AlarmHappened
        };
        assert_eq!(queue.try_recv(), Some(expected));
    }
    assert!(queue.is_empty());
}

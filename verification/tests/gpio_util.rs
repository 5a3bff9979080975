use pi_control::gpio_util::PinState;

#[test]
fn level_from_bool() {
    assert_eq!(PinState::from_bool(true), PinState::High);
    assert_eq!(PinState::from_bool(false), PinState::Low);
}

#[test]
fn level_queries() {
    assert!(PinState::High.is_high());
    assert!(!PinState::High.is_low());
    assert!(PinState::Low.is_low());
    assert!(!PinState::Low.is_high());
}

#[test]
fn low_is_zero_and_high_is_one() {
    assert_eq!(PinState::Low as u8, 0);
    assert_eq!(PinState::High as u8, 1);
}

#[test]
fn pin_state_can_be_cloned_and_printed() {
    let level = PinState::High;
    let copy = level.clone();
    assert_eq!(copy, PinState::High);
    assert_eq!(format!("{:?}", PinState::Low), "Low");
    assert_eq!(format!("{:?}", copy), "High");
}

use pi_control::joystick::joystick_status;

#[test]
fn stick_at_rest_gives_no_text() {
    assert_eq!(joystick_status(128, 128, 128), "");
    assert_eq!(joystick_status(1, 254, 1), "");
}

#[test]
fn single_directions() {
    assert_eq!(joystick_status(0, 128, 128), "Left,");
    assert_eq!(joystick_status(255, 128, 128), "Right,");
    assert_eq!(joystick_status(128, 0, 128), "Up,");
    assert_eq!(joystick_status(128, 255, 128), "Down,");
    assert_eq!(joystick_status(128, 128, 0), "Button pressed");
}

#[test]
fn labels_come_in_the_order_horizontal_vertical_button() {
    assert_eq!(joystick_status(0, 0, 0), "Left,Up,Button pressed");
    assert_eq!(joystick_status(255, 255, 0), "Right,Down,Button pressed");
    assert_eq!(joystick_status(0, 255, 7), "Left,Down,");
    assert_eq!(joystick_status(255, 0, 255), "Right,Up,");
}

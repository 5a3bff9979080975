use pi_control::servo_motor_util::{
    gate_target, SG90ServoMotorInitPosition, SG90_MOTOR_FREQUENCY_HZ, SG90_MOTOR_PERIOD_US,
    SG90_MOTOR_SETTLE_MS,
};

fn duty_cycle(position: SG90ServoMotorInitPosition) -> f64 {
    position.pulse_width_us() as f64 / SG90_MOTOR_PERIOD_US as f64
}

#[test]
fn it_works() {
    assert_eq!(2 + 2, 4);
}

#[test]
fn pulse_widths_in_microseconds() {
    assert_eq!(SG90ServoMotorInitPosition::Init.pulse_width_us(), 1_500);
    assert_eq!(SG90ServoMotorInitPosition::Negative90Degree.pulse_width_us(), 2_400);
    assert_eq!(SG90ServoMotorInitPosition::Positive90Degree.pulse_width_us(), 500);
}

#[test]
fn period_and_frequency() {
    assert_eq!(SG90_MOTOR_PERIOD_US, 20_000);
    assert_eq!(SG90_MOTOR_FREQUENCY_HZ, 50);
    assert_eq!(SG90_MOTOR_PERIOD_US * SG90_MOTOR_FREQUENCY_HZ, 1_000_000);
    assert_eq!(SG90_MOTOR_SETTLE_MS, 250);
}

#[test]
fn duty_cycles_are_pulse_over_period_in_milliseconds() {
    assert_eq!(duty_cycle(SG90ServoMotorInitPosition::Init), 1.5 / 20f64);
    assert_eq!(duty_cycle(SG90ServoMotorInitPosition::Negative90Degree), 2.4 / 20f64);
    assert_eq!(duty_cycle(SG90ServoMotorInitPosition::Positive90Degree), 0.5 / 20f64);
}

#[test]
fn only_the_init_position_needs_no_move_after_start() {
    assert!(!SG90ServoMotorInitPosition::Init.needs_move_after_start());
    assert!(SG90ServoMotorInitPosition::Negative90Degree.needs_move_after_start());
    assert!(SG90ServoMotorInitPosition::Positive90Degree.needs_move_after_start());
}

#[test]
fn gate_opens_when_closed_and_closes_when_open() {
    assert_eq!(gate_target(false), SG90ServoMotorInitPosition::Positive90Degree);
    assert_eq!(gate_target(true), SG90ServoMotorInitPosition::Init);
}

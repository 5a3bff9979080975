//! Small helpers that are offered to a scripting host.

use vstd::prelude::*;
use vstd::string::*;

verus! {

/// A servo motor known by its name.
#[derive(Debug)]
pub struct SG90ServoMotor {
    motor_name: String,
}

impl SG90ServoMotor {
    /// The name of the motor.
    pub closed spec fn name(&self) -> Seq<char> {
        self.motor_name@
    }

    /// A motor with the name "SG90 Servo Motor".
    pub fn init_motor() -> (motor: SG90ServoMotor)
        ensures
            motor.name() == "SG90 Servo Motor"@,
    {
        SG90ServoMotor { motor_name: String::from_str("SG90 Servo Motor") }
    }

    /// A copy of the motor's name.
    pub fn get_motor_name(&self) -> (name: String)
        ensures
            name@ == self.name(),
    {
        self.motor_name.clone()
    }
}

/// Greets `name`: the text "Hello " followed by the name.
pub fn greet(name: &str) -> (greeting: String)
    ensures
        greeting@ == "Hello "@ + name@,
{
    let mut greeting = String::from_str("Hello ");
    greeting.append(name);
    greeting
}

} // verus!

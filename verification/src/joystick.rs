//! Reading of a two-axis joystick with a push-button, from the three bytes
//! that an analog-to-digital converter samples for it.

use vstd::prelude::*;
use vstd::string::*;

verus! {

/// What the horizontal axis reads: left at 0, right at 255.
pub open spec fn horizontal_label(x: u8) -> Seq<char> {
    if x == 0 {
        "Left,"@
    } else if x == 255 {
        "Right,"@
    } else {
        Seq::empty()
    }
}

/// What the vertical axis reads: up at 0, down at 255.
pub open spec fn vertical_label(y: u8) -> Seq<char> {
    if y == 0 {
        "Up,"@
    } else if y == 255 {
        "Down,"@
    } else {
        Seq::empty()
    }
}

/// What the switch reads: pressed at 0.
pub open spec fn button_label(z: u8) -> Seq<char> {
    if z == 0 {
        "Button pressed"@
    } else {
        Seq::empty()
    }
}

/// Describes the joystick position: the labels of the horizontal axis, the
/// vertical axis and the switch, in this order. The text is empty when the
/// stick is at rest and the switch is up.
pub fn joystick_status(x: u8, y: u8, z: u8) -> (status: String)
    ensures
        status@ == horizontal_label(x) + vertical_label(y) + button_label(z),
{
    let mut status = String::new();
    if x == 0 {
        status.append("Left,");
    } else if x == 255 {
        status.append("Right,");
    }
    if y == 0 {
        status.append("Up,");
    } else if y == 255 {
        status.append("Down,");
    }
    if z == 0 {
        status.append("Button pressed");
    }
    status
}

} // verus!

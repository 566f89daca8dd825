//! The fixed shape of the virtual wheel device: its name, its one absolute
//! axis, and the reserved button capability set. The operating-system
//! registration of the device is outside the library; it builds the device
//! from exactly these values.

use vstd::prelude::*;

use crate::steering::{WHEEL_MAX, WHEEL_MIN};

verus! {

/// Button code for the select button.
pub const BTN_SELECT: u16 = 314;

/// Button code for the start button.
pub const BTN_START: u16 = 315;

/// Button code for the left shoulder button.
pub const BTN_TL: u16 = 310;

/// Button code for the right shoulder button.
pub const BTN_TR: u16 = 311;

/// Button code for the left trigger-like button.
pub const BTN_TL2: u16 = 312;

/// Button code for the right trigger-like button.
pub const BTN_TR2: u16 = 313;

/// The descriptor of the wheel's single absolute axis.
#[derive(Clone, Copy, PartialEq, Eq, Structural, Debug)]
pub struct AbsAxisConfig {
    pub value: i32,
    pub min: i32,
    pub max: i32,
    pub fuzz: i32,
    pub flat: i32,
    pub resolution: i32,
}

/// The axis descriptor of the 900-degree wheel: centered at zero over the
/// wheel range, with no deadzone (fuzz and flat zero) and raw resolution.
pub fn wheel_axis_config() -> (c: AbsAxisConfig)
    ensures
        c == (AbsAxisConfig { value: 0, min: WHEEL_MIN, max: WHEEL_MAX, fuzz: 0, flat: 0, resolution: 0 }),
        c.min == -4500 && c.max == 4500,
{
    AbsAxisConfig { value: 0, min: WHEEL_MIN, max: WHEEL_MAX, fuzz: 0, flat: 0, resolution: 0 }
}

/// The name under which the virtual wheel registers.
pub fn wheel_name() -> (s: &'static str)
    ensures
        s@ == "mouse2joy"@,
{
    "mouse2joy"
}

/// The fixed button capability set the virtual wheel declares, reserved for
/// steering-wheel button emulation; no button state is ever emitted.
pub fn wheel_buttons() -> (v: Vec<u16>)
    ensures
        v@ == seq![BTN_SELECT, BTN_START, BTN_TL, BTN_TR, BTN_TL2, BTN_TR2],
{
    let mut v: Vec<u16> = Vec::new();
    v.push(BTN_SELECT);
    v.push(BTN_START);
    v.push(BTN_TL);
    v.push(BTN_TR);
    v.push(BTN_TL2);
    v.push(BTN_TR2);
    proof {
        assert(v@ =~= seq![BTN_SELECT, BTN_START, BTN_TL, BTN_TR, BTN_TL2, BTN_TR2]);
    }
    v
}

} // verus!

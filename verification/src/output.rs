use vstd::prelude::*;

verus! {

use crate::mode::Mode;

/// Largest commanded fan power: the controller chip takes a 6-bit PWM duty.
pub const FAN_POWER_MAX: u8 = 63;

/// A commanded fan power: an integer duty value bounded to 0..=63.
#[derive(Clone, Copy, PartialEq, Eq, Structural, Debug)]
pub struct FanPower {
    value: u8,
}

impl FanPower {
    /// The duty value held.
    pub closed spec fn spec_value(self) -> u8 {
        self.value
    }

    /// A fan power is well formed when its duty value is within 0..=63.
    pub open spec fn wf(self) -> bool {
        self.spec_value() <= FAN_POWER_MAX
    }

    /// Builds a fan power from a raw duty value. A value over 63 is a caller
    /// bug and is rejected outright, never clamped: clamping would hide it.
    pub fn new(value: u8) -> (r: Option<FanPower>)
        ensures
            r is Some <==> value <= FAN_POWER_MAX,
            r matches Some(p) ==> p.spec_value() == value,
    {
        if value <= FAN_POWER_MAX {
            Some(FanPower { value })
        } else {
            None
        }
    }

    /// The raw duty value, ready for the register write.
    pub fn get(self) -> (r: u8)
        ensures
            r == self.spec_value(),
    {
        self.value
    }
}

/// One pixel of the two-pixel status indicator.
#[derive(Clone, Copy, PartialEq, Eq, Structural, Debug)]
pub struct Rgb {
    pub red: u8,
    pub green: u8,
    pub blue: u8,
}

/// The fixed two-pixel frame written to the indicator each tick.
#[derive(Clone, Copy, PartialEq, Eq, Structural, Debug)]
pub struct IndicatorFrame {
    pub first: Rgb,
    pub second: Rgb,
}

impl View for IndicatorFrame {
    type V = Seq<Rgb>;

    open spec fn view(&self) -> Seq<Rgb> {
        seq![self.first, self.second]
    }
}

/// The duty each mode commands: Auto idles the fan, Manual drives it flat out.
pub open spec fn spec_fan_power_for(m: Mode) -> u8 {
    match m {
        Mode::Auto => 0,
        Mode::Manual => FAN_POWER_MAX,
    }
}

/// The indicator color each mode shows: deep red for Auto, deep blue for Manual.
pub open spec fn spec_color_for(m: Mode) -> Rgb {
    match m {
        Mode::Auto => Rgb { red: 128, green: 0, blue: 0 },
        Mode::Manual => Rgb { red: 0, green: 0, blue: 128 },
    }
}

/// The frame each mode shows: both pixels in the mode's color.
pub open spec fn spec_frame_for(m: Mode) -> Seq<Rgb> {
    seq![spec_color_for(m), spec_color_for(m)]
}

/// Derives the commanded fan power purely from the mode.
///
/// Total for both modes and always in range: the derivation never fails.
pub fn fan_power_for(m: Mode) -> (r: FanPower)
    ensures
        r.spec_value() == spec_fan_power_for(m),
        r.wf(),
{
    let value: u8 = match m {
        Mode::Auto => 0,
        Mode::Manual => FAN_POWER_MAX,
    };
    match FanPower::new(value) {
        Some(p) => p,
        None => vstd::pervasive::unreached(),
    }
}

/// Derives the indicator frame purely from the mode.
pub fn frame_for(m: Mode) -> (r: IndicatorFrame)
    ensures
        r@ == spec_frame_for(m),
{
    let color = match m {
        Mode::Auto => Rgb { red: 128, green: 0, blue: 0 },
        Mode::Manual => Rgb { red: 0, green: 0, blue: 128 },
    };
    let frame = IndicatorFrame { first: color, second: color };
    proof {
        assert(frame@ =~= spec_frame_for(m));
    }
    frame
}

/// For every mode both derivations are pure, deterministic and total: the
/// duty never leaves 0..=63 and the frame always holds exactly two pixels,
/// both in the mode's color.
pub proof fn lemma_outputs_total(m: Mode)
    ensures
        spec_fan_power_for(m) <= FAN_POWER_MAX,
        spec_frame_for(m).len() == 2,
        spec_frame_for(m)[0] == spec_color_for(m),
        spec_frame_for(m)[1] == spec_color_for(m),
{
}

} // verus!

//! What the manager holds of a device session, and what the transport reports.

use vstd::prelude::*;

verus! {

/// The readable state of an established device session.
///
/// `brightness` and `effect_speed` are on the device's scale of `0..=255`.
#[derive(Debug, PartialEq, Eq)]
pub struct DeviceSession {
    /// Current power state
    pub is_on: bool,
    /// Current RGB color (red, green, blue)
    pub rgb_color: (u8, u8, u8),
    /// Current brightness
    pub brightness: u8,
    /// Current effect mode if active
    pub effect: Option<u8>,
    /// Current effect speed if an effect is active
    pub effect_speed: Option<u8>,
    /// Current color temperature in Kelvin if using white mode
    pub color_temp_kelvin: Option<u32>,
    /// The device type name
    pub device_type_name: String,
}

/// A session in plain values.
pub struct SessionView {
    pub is_on: bool,
    pub rgb_color: (u8, u8, u8),
    pub brightness: u8,
    pub effect: Option<u8>,
    pub effect_speed: Option<u8>,
    pub color_temp_kelvin: Option<u32>,
    pub device_type_name: Seq<char>,
}

impl View for DeviceSession {
    type V = SessionView;

    open spec fn view(&self) -> SessionView {
        SessionView {
            is_on: self.is_on,
            rgb_color: self.rgb_color,
            brightness: self.brightness,
            effect: self.effect,
            effect_speed: self.effect_speed,
            color_temp_kelvin: self.color_temp_kelvin,
            device_type_name: self.device_type_name@,
        }
    }
}

impl Clone for DeviceSession {
    fn clone(&self) -> (copy: Self)
        ensures
            copy == *self,
    {
        DeviceSession {
            is_on: self.is_on,
            rgb_color: self.rgb_color,
            brightness: self.brightness,
            effect: self.effect,
            effect_speed: self.effect_speed,
            color_temp_kelvin: self.color_temp_kelvin,
            device_type_name: self.device_type_name.clone(),
        }
    }
}

/// What became of one piece of work that was left to the transport.
#[derive(Debug, PartialEq, Eq)]
pub enum Attempt<T> {
    /// The work was not tried.
    Skipped,
    /// The work was done and gave this.
    Done(T),
    /// The work was tried and failed.
    Failed,
}

/// No session could be established.
#[derive(Debug, Clone, Copy, PartialEq, Eq, Structural)]
pub struct ConnectionError;

/// The session that an attempt to connect gave, in plain values.
pub open spec fn connected_view(attempt: Attempt<DeviceSession>) -> Option<SessionView> {
    match attempt {
        Attempt::Done(session) => Some(session@),
        _ => None,
    }
}

/// What the transport reports after a change of color and brightness.
#[derive(Debug, PartialEq, Eq)]
pub struct ColorReport {
    /// Whether the color was sent and refused
    pub color_failed: bool,
    /// Whether the brightness was sent and refused
    pub brightness_failed: bool,
    /// The session as it reads after the attempts
    pub session: DeviceSession,
}

/// What the transport reports after a change of effect and effect speed.
#[derive(Debug, PartialEq, Eq)]
pub struct EffectReport {
    /// Whether the effect was sent and refused
    pub effect_failed: bool,
    /// Whether the effect speed was sent and refused
    pub speed_failed: bool,
    /// The session as it reads after the attempts
    pub session: DeviceSession,
}

/// The commands that a change of color and brightness needs.
#[derive(Debug, Clone, Copy, PartialEq, Eq)]
pub struct ColorChange {
    /// The color to set, all three channels, if any channel was given
    pub color: Option<(u8, u8, u8)>,
    /// The brightness to set, on the device's scale, if one was given
    pub brightness: Option<u8>,
}

/// The commands that a change of effect needs.
#[derive(Debug, Clone, Copy, PartialEq, Eq)]
pub struct EffectChange {
    /// The effect to set, if one was given
    pub effect: Option<u8>,
    /// The effect speed to set, on the device's scale, if one was given
    pub speed: Option<u8>,
}

} // verus!

//! The read-only form of the manager's state.

use vstd::prelude::*;
use vstd::std_specs::convert::{FromSpecImpl, TryFromSpecImpl};
use crate::audio_visualisation::monitor::MonitorConfig;
use crate::audio_visualisation::serializer::{shown_config, ReadOnlyAudioVisualization};
use crate::device::manager::{not_initialized, BleDeviceManager, ManagerView};
use crate::device::session::{DeviceSession, SessionView};
use crate::scale::to_human;

verus! {

#[derive(Debug, PartialEq, Eq)]
pub struct ReadOnlyBleLedDevice {
    /// Current power state
    pub is_on: bool,
    /// Current RGB color (red, green, blue)
    pub rgb_color: (u8, u8, u8),
    /// Current brightness
    pub brightness: u8,
    /// Current effect mode if active
    pub effect: Option<u8>,
    /// Current effect speed if an effect is active
    pub effect_speed: Option<u8>,
    /// Current color temperature in Kelvin if using white mode
    pub color_temp_kelvin: Option<u32>,
    /// The device type name
    pub device_type_name: String,
    /// If in use, the audio visualition setting
    pub audio_config: Option<ReadOnlyAudioVisualization>,
}

impl Clone for ReadOnlyBleLedDevice {
    fn clone(&self) -> (copy: Self)
        ensures
            copy == *self,
    {
        ReadOnlyBleLedDevice {
            is_on: self.is_on,
            rgb_color: self.rgb_color,
            brightness: self.brightness,
            effect: self.effect,
            effect_speed: self.effect_speed,
            color_temp_kelvin: self.color_temp_kelvin,
            device_type_name: self.device_type_name.clone(),
            audio_config: self.audio_config,
        }
    }
}

/// A read-only device in plain values.
pub struct ReadOnlyView {
    pub is_on: bool,
    pub rgb_color: (u8, u8, u8),
    pub brightness: u8,
    pub effect: Option<u8>,
    pub effect_speed: Option<u8>,
    pub color_temp_kelvin: Option<u32>,
    pub device_type_name: Seq<char>,
    pub audio_config: Option<ReadOnlyAudioVisualization>,
}

impl View for ReadOnlyBleLedDevice {
    type V = ReadOnlyView;

    open spec fn view(&self) -> ReadOnlyView {
        ReadOnlyView {
            is_on: self.is_on,
            rgb_color: self.rgb_color,
            brightness: self.brightness,
            effect: self.effect,
            effect_speed: self.effect_speed,
            color_temp_kelvin: self.color_temp_kelvin,
            device_type_name: self.device_type_name@,
            audio_config: self.audio_config,
        }
    }
}

/// The human value of an optional device value.
pub open spec fn shown_speed(speed: Option<u8>) -> Option<u8> {
    match speed {
        Some(native) => Some(to_human(native as int) as u8),
        None => None,
    }
}

/// The read-only form of a session alone: every field copied, brightness and
/// effect speed on the human scale, and no audio configuration.
pub open spec fn shown_session(session: SessionView) -> ReadOnlyView {
    ReadOnlyView {
        is_on: session.is_on,
        rgb_color: session.rgb_color,
        brightness: to_human(session.brightness as int) as u8,
        effect: session.effect,
        effect_speed: shown_speed(session.effect_speed),
        color_temp_kelvin: session.color_temp_kelvin,
        device_type_name: session.device_type_name,
        audio_config: None,
    }
}

/// The read-only form of an optional monitor.
pub open spec fn shown_monitor(monitor: Option<MonitorConfig>) -> Option<
    ReadOnlyAudioVisualization,
> {
    match monitor {
        Some(config) => Some(shown_config(config)),
        None => None,
    }
}

/// The read-only form of a manager: that of its session, with the attached
/// monitor's configuration beside it; nothing where no session is held.
pub open spec fn snapshot(manager: ManagerView) -> Option<ReadOnlyView> {
    match manager.device {
        Some(session) => Some(
            ReadOnlyView {
                audio_config: shown_monitor(manager.audio_monitor),
                ..shown_session(session)
            },
        ),
        None => None,
    }
}

/// The plain value of the answer to a query.
pub open spec fn answer_view(answer: Result<ReadOnlyBleLedDevice, String>) -> Result<
    ReadOnlyView,
    Seq<char>,
> {
    match answer {
        Ok(device) => Ok(device@),
        Err(text) => Err(text@),
    }
}

/// What a query answers: the snapshot, or that no session is held.
pub open spec fn snapshot_answer(manager: ManagerView) -> Result<ReadOnlyView, Seq<char>> {
    match snapshot(manager) {
        Some(device) => Ok(device),
        None => Err(not_initialized()),
    }
}

/// What a snapshot shows is on the human scale throughout, and it carries an
/// audio configuration exactly where a monitor is attached.
pub proof fn lemma_snapshot_is_on_the_human_scale(manager: ManagerView)
    requires
        manager.device is Some,
    ensures
        snapshot(manager) is Some,
        snapshot(manager)->0.brightness <= 100,
        snapshot(manager)->0.effect_speed matches Some(speed) ==> speed <= 100,
        snapshot(manager)->0.audio_config matches Some(config) ==> config.sensitivity <= 100,
        snapshot(manager)->0.audio_config is Some <==> manager.audio_monitor is Some,
{
}

impl<'a> From<&'a DeviceSession> for ReadOnlyBleLedDevice {
    fn from(value: &'a DeviceSession) -> (out: Self)
        ensures
            out@ == shown_session(value@),
    {
        Self {
            color_temp_kelvin: value.color_temp_kelvin,
            effect: value.effect,
            brightness: BleDeviceManager::to_0_100(value.brightness),
            effect_speed: match value.effect_speed {
                Some(speed) => Some(BleDeviceManager::to_0_100(speed)),
                None => None,
            },
            is_on: value.is_on,
            rgb_color: value.rgb_color,
            device_type_name: value.device_type_name.clone(),
            // If we only have the device, we cannot know the audio configuration
            audio_config: None,
        }
    }
}

impl<'a> FromSpecImpl<&'a DeviceSession> for ReadOnlyBleLedDevice {
    open spec fn obeys_from_spec() -> bool {
        true
    }

    open spec fn from_spec(value: &'a DeviceSession) -> Self {
        ReadOnlyBleLedDevice {
            is_on: value.is_on,
            rgb_color: value.rgb_color,
            brightness: to_human(value.brightness as int) as u8,
            effect: value.effect,
            effect_speed: shown_speed(value.effect_speed),
            color_temp_kelvin: value.color_temp_kelvin,
            device_type_name: value.device_type_name,
            audio_config: None,
        }
    }
}

impl<'a> TryFrom<&'a BleDeviceManager> for ReadOnlyBleLedDevice {
    type Error = String;

    fn try_from(value: &'a BleDeviceManager) -> (answer: Result<Self, Self::Error>)
        ensures
            answer_view(answer) == snapshot_answer(value@),
    {
        let Some(device) = &value.device else {
            return Err(String::from_str("Device not initialized."));
        };

        let mut readonly = ReadOnlyBleLedDevice::from(device);
        if let Some(monitor) = &value.audio_monitor {
            readonly.audio_config = Some(ReadOnlyAudioVisualization::from(monitor));
        }
        Ok(readonly)
    }
}

/// A failure is a text, known by its characters alone, so what `try_from`
/// answers is stated on `try_from` itself, over plain values.
impl<'a> TryFromSpecImpl<&'a BleDeviceManager> for ReadOnlyBleLedDevice {
    open spec fn obeys_try_from_spec() -> bool {
        false
    }

    open spec fn try_from_spec(value: &'a BleDeviceManager) -> Result<Self, Self::Error> {
        arbitrary()
    }
}

} // verus!

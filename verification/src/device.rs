//! The device side: the session record, the manager, the read-only form of
//! its state, and the answers to the commands that reach the manager.
//!
//! Each command is answered in two steps. The caller first asks the manager
//! which work the request needs, has the transport do it, and then hands what
//! came of it to the function of this module that bears the command's name.
//! That function settles the manager's state and gives the answer.

pub mod issues;
pub mod lifecycle;
pub mod manager;
pub mod serializer;
pub mod session;

use vstd::prelude::*;
use crate::audio_visualisation::monitor::{MonitorConfig, VisualizationMode};
use crate::audio_visualisation::serializer::{
    live_mode, shown_config, ReadOnlyAudioVisualization, ReadOnlyVisualizationMode,
};
use crate::device::manager::{
    after_audio, after_change, after_init, audio_outcome, change_effect_outcome,
    change_single_outcome, created_config, init_succeeds, no_session, result_view,
    BleDeviceManager, ManagerView,
};
use crate::device::serializer::{
    answer_view, snapshot, snapshot_answer, ReadOnlyBleLedDevice, ReadOnlyView,
};
use crate::device::session::{
    connected_view, Attempt, ColorReport, DeviceSession, EffectReport, SessionView,
};

verus! {

/// The power command that a toggle sends.
#[derive(Debug, Clone, Copy, PartialEq, Eq, Structural)]
pub enum PowerCommand {
    /// Turn the fixture on
    On,
    /// Turn the fixture off
    Off,
}

/// The text that says that no session could be established.
pub open spec fn init_failed() -> Seq<char> {
    "Initialization failed."@
}

/// The text that says that the power command was refused.
pub open spec fn power_failed() -> Seq<char> {
    "Failed to power on/off."@
}

/// The text that says that no monitor is attached and none could be made to
/// read the defaults from.
pub open spec fn no_default_monitor() -> Seq<char> {
    "Audio monitor not created and failed to use default."@
}

/// The answer to a command that has settled: the snapshot of the manager as
/// the command left it, or the command's own failure.
pub open spec fn settled_answer(outcome: Result<(), Seq<char>>, after: ManagerView) -> Result<
    ReadOnlyView,
    Seq<char>,
> {
    match outcome {
        Ok(()) => snapshot_answer(after),
        Err(text) => Err(text),
    }
}

/// The answer of `device_init`.
pub open spec fn init_answer(
    manager: ManagerView,
    force: bool,
    connected: Option<SessionView>,
) -> Result<ReadOnlyView, Seq<char>> {
    if init_succeeds(manager, force, connected) {
        snapshot_answer(after_init(manager, force, connected))
    } else {
        Err(init_failed())
    }
}

/// The manager after `device_toggle`: the session as the transport left it
/// where one was held and the command went through, the manager as it was
/// otherwise.
pub open spec fn after_toggle(manager: ManagerView, switched: Option<SessionView>) -> ManagerView {
    match switched {
        Some(session) => after_change(manager, session),
        None => manager,
    }
}

/// The answer of `device_toggle`.
pub open spec fn toggle_answer(manager: ManagerView, switched: Option<SessionView>) -> Result<
    ReadOnlyView,
    Seq<char>,
> {
    if manager.device is None {
        Err(no_session())
    } else if switched is None {
        Err(power_failed())
    } else {
        snapshot_answer(after_toggle(manager, switched))
    }
}

/// The mode that a request names, in the form that the monitor takes.
pub open spec fn requested_mode(mode: Option<ReadOnlyVisualizationMode>) -> Option<
    VisualizationMode,
> {
    match mode {
        Some(shown) => Some(live_mode(shown)),
        None => None,
    }
}

/// The answer of `device_use_audio`.
pub open spec fn use_audio_answer(
    manager: ManagerView,
    mode: Option<ReadOnlyVisualizationMode>,
    sensitivity: Option<u8>,
    created: Option<MonitorConfig>,
) -> Result<ReadOnlyView, Seq<char>> {
    match audio_outcome(manager, requested_mode(mode), sensitivity, created) {
        Ok(_) => snapshot_answer(after_audio(manager, requested_mode(mode), sensitivity, created)),
        Err(text) => Err(text),
    }
}

/// The answer of `device_default_audio_configuration`: the attached
/// monitor's configuration, else that of the monitor made for the purpose.
pub open spec fn default_audio_answer(
    manager: ManagerView,
    made: Option<MonitorConfig>,
) -> Result<ReadOnlyAudioVisualization, Seq<char>> {
    match manager.audio_monitor {
        Some(config) => Ok(shown_config(config)),
        None => match made {
            Some(config) => Ok(shown_config(config)),
            None => Err(no_default_monitor()),
        },
    }
}

/// The plain value of an optional read-only device.
pub open spec fn shown_view(device: Option<ReadOnlyBleLedDevice>) -> Option<ReadOnlyView> {
    match device {
        Some(shown) => Some(shown@),
        None => None,
    }
}

/// Answers an initialization: the snapshot of the session now held, or that
/// none could be established.
pub fn device_init(manager: &mut BleDeviceManager, force: bool, connection: Attempt<DeviceSession>)
    -> (answer: Result<ReadOnlyBleLedDevice, String>)
    ensures
        final(manager)@ == after_init(old(manager)@, force, connected_view(connection)),
        answer_view(answer) == init_answer(old(manager)@, force, connected_view(connection)),
        answer is Ok <==> init_succeeds(old(manager)@, force, connected_view(connection)),
        old(manager).wf() ==> final(manager).wf(),
{
    if manager.init(force, connection).is_err() {
        return Err(String::from_str("Initialization failed."));
    }
    manager.readonly()
}

/// Answers a query: the snapshot, or nothing where no session is held.
pub fn device_get(manager: &BleDeviceManager) -> (answer: Result<Option<ReadOnlyBleLedDevice>, ()>)
    ensures
        answer matches Ok(shown) && shown_view(shown) == snapshot(manager@),
{
    Ok(manager.readonly().ok())
}

/// The power command that a toggle needs, or that no session is held.
pub fn plan_device_toggle(manager: &BleDeviceManager, power: bool) -> (plan: Result<
    PowerCommand,
    String,
>)
    ensures
        result_view(plan) == match manager@.device {
            Some(_) => Ok(
                if power {
                    PowerCommand::On
                } else {
                    PowerCommand::Off
                },
            ),
            None => Err(no_session()),
        },
{
    if manager.device.is_none() {
        return Err(String::from_str("Device not initializied."));
    }
    Ok(
        if power {
            PowerCommand::On
        } else {
            PowerCommand::Off
        },
    )
}

/// Answers a toggle: the snapshot of the session as the power command left
/// it, or that the command was refused.
pub fn device_toggle(manager: &mut BleDeviceManager, switched: Attempt<DeviceSession>) -> (answer:
    Result<ReadOnlyBleLedDevice, String>)
    ensures
        final(manager)@ == after_toggle(old(manager)@, connected_view(switched)),
        answer_view(answer) == toggle_answer(old(manager)@, connected_view(switched)),
        old(manager).wf() ==> final(manager).wf(),
{
    if manager.device.is_none() {
        return Err(String::from_str("Device not initializied."));
    }
    match switched {
        Attempt::Done(session) => {
            manager.device = Some(session);
        },
        _ => {
            return Err(String::from_str("Failed to power on/off."));
        },
    }
    manager.readonly()
}

/// Answers a change of some of the four channels.
pub fn device_change_only(
    manager: &mut BleDeviceManager,
    r: Option<u8>,
    g: Option<u8>,
    b: Option<u8>,
    a: Option<u8>,
    report: ColorReport,
) -> (answer: Result<ReadOnlyBleLedDevice, String>)
    ensures
        final(manager)@ == after_change(old(manager)@, report.session@),
        answer_view(answer) == settled_answer(
            change_single_outcome(
                old(manager)@,
                r,
                g,
                b,
                a,
                report.color_failed,
                report.brightness_failed,
            ),
            after_change(old(manager)@, report.session@),
        ),
        old(manager).wf() ==> final(manager).wf(),
{
    match manager.change_single(r, g, b, a, report) {
        Ok(()) => manager.readonly(),
        Err(text) => Err(text),
    }
}

/// Answers a change of all four channels.
pub fn device_change_all(
    manager: &mut BleDeviceManager,
    r: u8,
    g: u8,
    b: u8,
    a: u8,
    report: ColorReport,
) -> (answer: Result<ReadOnlyBleLedDevice, String>)
    ensures
        final(manager)@ == after_change(old(manager)@, report.session@),
        answer_view(answer) == settled_answer(
            change_single_outcome(
                old(manager)@,
                Some(r),
                Some(g),
                Some(b),
                Some(a),
                report.color_failed,
                report.brightness_failed,
            ),
            after_change(old(manager)@, report.session@),
        ),
        old(manager).wf() ==> final(manager).wf(),
{
    match manager.change_rgba(r, g, b, a, report) {
        Ok(()) => manager.readonly(),
        Err(text) => Err(text),
    }
}

/// Answers a change of effect and effect speed.
pub fn device_set_effect(
    manager: &mut BleDeviceManager,
    effect: Option<u8>,
    speed: Option<u8>,
    report: EffectReport,
) -> (answer: Result<ReadOnlyBleLedDevice, String>)
    ensures
        final(manager)@ == after_change(old(manager)@, report.session@),
        answer_view(answer) == settled_answer(
            change_effect_outcome(
                old(manager)@,
                effect,
                speed,
                report.effect_failed,
                report.speed_failed,
            ),
            after_change(old(manager)@, report.session@),
        ),
        old(manager).wf() ==> final(manager).wf(),
{
    match manager.change_effect_settings(effect, speed, report) {
        Ok(()) => manager.readonly(),
        Err(text) => Err(text),
    }
}

/// Answers a change of the audio settings. The configuration to write to the
/// monitor is the one that the manager then holds.
pub fn device_use_audio(
    manager: &mut BleDeviceManager,
    mode: Option<ReadOnlyVisualizationMode>,
    sensitivity: Option<u8>,
    creation: Attempt<MonitorConfig>,
) -> (answer: Result<ReadOnlyBleLedDevice, String>)
    ensures
        final(manager)@ == after_audio(
            old(manager)@,
            requested_mode(mode),
            sensitivity,
            created_config(creation),
        ),
        answer_view(answer) == use_audio_answer(
            old(manager)@,
            mode,
            sensitivity,
            created_config(creation),
        ),
        old(manager).wf() ==> final(manager).wf(),
{
    let live = match mode {
        Some(shown) => Some(VisualizationMode::from(shown)),
        None => None,
    };
    match manager.change_audio_monitor_settings(live, sensitivity, creation) {
        Ok(_) => manager.readonly(),
        Err(text) => Err(text),
    }
}

/// Answers a query for the audio configuration: that of the attached
/// monitor, else that of the monitor that `made` brings.
pub fn device_default_audio_configuration(
    manager: &BleDeviceManager,
    made: Attempt<MonitorConfig>,
) -> (answer: Result<ReadOnlyAudioVisualization, String>)
    ensures
        result_view(answer) == default_audio_answer(manager@, created_config(made)),
{
    let conf = if let Some(c) = manager.audio_monitor {
        c
    } else {
        match made {
            Attempt::Done(c) => c,
            _ => {
                return Err(
                    String::from_str("Audio monitor not created and failed to use default."),
                );
            },
        }
    };
    Ok(ReadOnlyAudioVisualization::from(&conf))
}

} // verus!

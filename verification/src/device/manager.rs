//! The manager of the one device session and the one audio monitor.

use vstd::prelude::*;
use crate::audio_visualisation::monitor::{MonitorConfig, VisualizationMode};
use crate::device::issues::{
    lemma_verdict_of_two, outcome_view, slots_view, summarize, verdict_of_two,
};
use crate::device::serializer::{answer_view, snapshot_answer, ReadOnlyBleLedDevice};
use crate::device::session::{
    connected_view, Attempt, ColorChange, ColorReport, ConnectionError, DeviceSession,
    EffectChange, EffectReport, SessionView,
};
use crate::scale::{to_human, to_native};

verus! {

/// The one manager of the fixture: the session that is held, if any, and the
/// audio monitor that is attached, if any.
#[derive(Debug, PartialEq, Eq)]
pub struct BleDeviceManager {
    /// The session held; empty until `init` takes one up
    pub device: Option<DeviceSession>,
    /// The configuration of the attached audio monitor; empty until the audio
    /// settings are first changed, and again after monitoring is stopped
    pub audio_monitor: Option<MonitorConfig>,
}

/// A manager in plain values.
pub struct ManagerView {
    pub device: Option<SessionView>,
    pub audio_monitor: Option<MonitorConfig>,
}

impl View for BleDeviceManager {
    type V = ManagerView;

    open spec fn view(&self) -> ManagerView {
        ManagerView {
            device: match self.device {
                Some(session) => Some(session@),
                None => None,
            },
            audio_monitor: self.audio_monitor,
        }
    }
}

/// The text that says that no session is held.
pub open spec fn not_initialized() -> Seq<char> {
    "Device not initialized."@
}

/// The text with which a change of color, brightness or power says that no
/// session is held.
pub open spec fn no_session() -> Seq<char> {
    "Device not initializied."@
}

/// The issue that a refused color leaves.
pub open spec fn color_issue() -> Seq<char> {
    "Failed to change device's color"@
}

/// The issue that a refused brightness leaves.
pub open spec fn brightness_issue() -> Seq<char> {
    "Failed to change device's brighness"@
}

/// The issue that a refused effect leaves.
pub open spec fn effect_issue() -> Seq<char> {
    "Failed to modify device's effect"@
}

/// The issue that a refused effect speed leaves.
pub open spec fn speed_issue() -> Seq<char> {
    "Failed to modify device's effect speed"@
}

/// The text that says that no audio monitor could be made.
pub open spec fn monitor_failed() -> Seq<char> {
    "Failed to create an audio monitor..."@
}

/// A human value on the device's scale, as `from_0_100` gives it.
pub open spec fn native_of(human: u8) -> u8 {
    (to_native(human as int) % 256) as u8
}

/// An optional human value on the device's scale.
pub open spec fn native_of_given(human: Option<u8>) -> Option<u8> {
    match human {
        Some(value) => Some(native_of(value)),
        None => None,
    }
}

/// `text` where the attempt was made and failed, nothing otherwise.
pub open spec fn issue_if(failed: bool, text: Seq<char>) -> Option<Seq<char>> {
    if failed {
        Some(text)
    } else {
        None
    }
}

/// Whether `init` has to connect: no session is held yet, or the caller
/// forces a new one.
pub open spec fn init_connects(manager: ManagerView, force: bool) -> bool {
    manager.device is None || force
}

/// Whether `init` succeeds: nothing was to be done, or the connection came.
pub open spec fn init_succeeds(
    manager: ManagerView,
    force: bool,
    connected: Option<SessionView>,
) -> bool {
    !init_connects(manager, force) || connected is Some
}

/// The manager after `init`: the new session in place of the old one where
/// one was due and came, the manager as it was otherwise.
pub open spec fn after_init(
    manager: ManagerView,
    force: bool,
    connected: Option<SessionView>,
) -> ManagerView {
    if init_connects(manager, force) && connected is Some {
        ManagerView { device: connected, ..manager }
    } else {
        manager
    }
}

/// The commands for a change of color and brightness.
///
/// One color command where any channel is given, the channels that are not
/// given taken from the session; one brightness command, on the device's
/// scale, where a brightness is given.
pub open spec fn color_change(
    session: SessionView,
    r: Option<u8>,
    g: Option<u8>,
    b: Option<u8>,
    a: Option<u8>,
) -> ColorChange {
    ColorChange {
        color: if r is Some || g is Some || b is Some {
            Some(
                (
                    r.unwrap_or(session.rgb_color.0),
                    g.unwrap_or(session.rgb_color.1),
                    b.unwrap_or(session.rgb_color.2),
                ),
            )
        } else {
            None
        },
        brightness: native_of_given(a),
    }
}

/// The commands for a change of effect: the effect as given, the speed on the
/// device's scale.
pub open spec fn effect_change(effect: Option<u8>, speed: Option<u8>) -> EffectChange {
    EffectChange { effect, speed: native_of_given(speed) }
}

/// The outcome of a change of color and brightness: an attempt counts as
/// failed where its command was due and the transport refused it.
pub open spec fn color_verdict(
    change: ColorChange,
    color_failed: bool,
    brightness_failed: bool,
) -> Result<(), Seq<char>> {
    verdict_of_two(
        issue_if(change.color is Some && color_failed, color_issue()),
        issue_if(change.brightness is Some && brightness_failed, brightness_issue()),
    )
}

/// The outcome of a change of effect and effect speed.
pub open spec fn effect_verdict(
    change: EffectChange,
    effect_failed: bool,
    speed_failed: bool,
) -> Result<(), Seq<char>> {
    verdict_of_two(
        issue_if(change.effect is Some && effect_failed, effect_issue()),
        issue_if(change.speed is Some && speed_failed, speed_issue()),
    )
}

/// What `change_single` returns.
pub open spec fn change_single_outcome(
    manager: ManagerView,
    r: Option<u8>,
    g: Option<u8>,
    b: Option<u8>,
    a: Option<u8>,
    color_failed: bool,
    brightness_failed: bool,
) -> Result<(), Seq<char>> {
    match manager.device {
        Some(session) => color_verdict(
            color_change(session, r, g, b, a),
            color_failed,
            brightness_failed,
        ),
        None => Err(no_session()),
    }
}

/// What `change_effect_settings` returns.
pub open spec fn change_effect_outcome(
    manager: ManagerView,
    effect: Option<u8>,
    speed: Option<u8>,
    effect_failed: bool,
    speed_failed: bool,
) -> Result<(), Seq<char>> {
    match manager.device {
        Some(_) => effect_verdict(effect_change(effect, speed), effect_failed, speed_failed),
        None => Err(not_initialized()),
    }
}

/// The manager after a change on its session: the session as it was reported
/// in place of the one held; a manager without a session stays as it is.
pub open spec fn after_change(manager: ManagerView, reported: SessionView) -> ManagerView {
    match manager.device {
        Some(_) => ManagerView { device: Some(reported), ..manager },
        None => manager,
    }
}

/// The configuration that an attempt to make a monitor gave.
pub open spec fn created_config(creation: Attempt<MonitorConfig>) -> Option<MonitorConfig> {
    match creation {
        Attempt::Done(config) => Some(config),
        _ => None,
    }
}

/// The monitor that a change of audio settings works on: the one attached,
/// else the one just made.
pub open spec fn monitor_in_use(
    manager: ManagerView,
    created: Option<MonitorConfig>,
) -> Option<MonitorConfig> {
    match manager.audio_monitor {
        Some(config) => Some(config),
        None => created,
    }
}

/// A configuration with the given settings written over it: the mode as
/// given, the sensitivity on the device's scale, all else as it was.
pub open spec fn tuned(
    config: MonitorConfig,
    mode: Option<VisualizationMode>,
    sensitivity: Option<u8>,
) -> MonitorConfig {
    MonitorConfig {
        mode: match mode {
            Some(m) => m,
            None => config.mode,
        },
        sensitivity: match sensitivity {
            Some(s) => native_of(s),
            None => config.sensitivity,
        },
        ..config
    }
}

/// What `change_audio_monitor_settings` returns: the configuration to write
/// to the monitor, or why there is none.
pub open spec fn audio_outcome(
    manager: ManagerView,
    mode: Option<VisualizationMode>,
    sensitivity: Option<u8>,
    created: Option<MonitorConfig>,
) -> Result<MonitorConfig, Seq<char>> {
    if manager.device is None {
        Err(not_initialized())
    } else {
        match monitor_in_use(manager, created) {
            Some(config) => Ok(tuned(config, mode, sensitivity)),
            None => Err(monitor_failed()),
        }
    }
}

/// The manager after `change_audio_monitor_settings`: the tuned monitor
/// attached where the call succeeds, the manager as it was where it fails.
pub open spec fn after_audio(
    manager: ManagerView,
    mode: Option<VisualizationMode>,
    sensitivity: Option<u8>,
    created: Option<MonitorConfig>,
) -> ManagerView {
    match audio_outcome(manager, mode, sensitivity, created) {
        Ok(config) => ManagerView { audio_monitor: Some(config), ..manager },
        Err(_) => manager,
    }
}

/// The manager after `stop_audio_monitoring`: no monitor, the session as it
/// was.
pub open spec fn after_stop(manager: ManagerView) -> ManagerView {
    ManagerView { audio_monitor: None, ..manager }
}

/// The plain value of a result whose failure is a text.
pub open spec fn result_view<P>(plan: Result<P, String>) -> Result<P, Seq<char>> {
    match plan {
        Ok(value) => Ok(value),
        Err(text) => Err(text@),
    }
}

impl BleDeviceManager {
    /// Convert an u8 from [0-100] range to [0-255] range.
    ///
    /// Above 100 the product no longer fits and only its low eight bits are
    /// kept.
    pub fn from_0_100(num: u8) -> (native: u8)
        ensures
            native as int == to_native(num as int) % 256,
            num <= 100 ==> native as int == to_native(num as int),
    {
        let wide: u16 = (num as u16 * 255) / 100;
        assert((wide & 0xff) == wide % 256) by (bit_vector);
        (wide & 0xff) as u8
    }

    /// Convert an u8 from [0-255] range to [0-100] range
    pub fn to_0_100(num: u8) -> (human: u8)
        ensures
            human as int == to_human(num as int),
            human <= 100,
    {
        ((num as u16 * 100) / 255) as u8
    }

    /// A manager that holds neither a session nor a monitor.
    pub fn empty() -> (manager: Self)
        ensures
            manager.device is None,
            manager.audio_monitor is None,
            manager.wf(),
    {
        Self { device: None, audio_monitor: None }
    }

    /// A monitor is attached only while a session is held.
    pub open spec fn wf(&self) -> bool {
        self.audio_monitor is Some ==> self.device is Some
    }

    /// Whether `init` with this `force` has to connect.
    pub fn needs_connection(&self, force: bool) -> (due: bool)
        ensures
            due == init_connects(self@, force),
    {
        self.device.is_none() || force
    }

    /// Takes up the session that the transport established.
    ///
    /// Where no session is held, or `force` is set, a connection is due:
    /// `connection` says what became of it. A new session takes the place of
    /// the old one; a failure leaves the manager as it was.
    pub fn init(&mut self, force: bool, connection: Attempt<DeviceSession>) -> (res: Result<
        (),
        ConnectionError,
    >)
        ensures
            final(self)@ == after_init(old(self)@, force, connected_view(connection)),
            res is Ok <==> init_succeeds(old(self)@, force, connected_view(connection)),
            old(self).wf() ==> final(self).wf(),
    {
        if self.device.is_none() || force {
            match connection {
                Attempt::Done(session) => {
                    self.device = Some(session);
                },
                _ => {
                    return Err(ConnectionError);
                },
            }
        }
        Ok(())
    }

    /// The commands that `change_effect_settings` needs.
    pub fn plan_change_effect_settings(&self, effect: Option<u8>, speed: Option<u8>) -> (plan:
        Result<EffectChange, String>)
        ensures
            result_view(plan) == match self@.device {
                Some(_) => Ok(effect_change(effect, speed)),
                None => Err(not_initialized()),
            },
    {
        if self.device.is_none() {
            return Err(String::from_str("Device not initialized."));
        }
        Ok(
            EffectChange {
                effect,
                speed: match speed {
                    Some(s) => Some(Self::from_0_100(s)),
                    None => None,
                },
            },
        )
    }

    /// Settles a change of effect and effect speed.
    ///
    /// The two attempts stand for themselves: what one did takes nothing from
    /// the other. The session as reported is kept whatever failed, and the
    /// failures come back as one text.
    pub fn change_effect_settings(
        &mut self,
        effect: Option<u8>,
        speed: Option<u8>,
        report: EffectReport,
    ) -> (res: Result<(), String>)
        ensures
            final(self)@ == after_change(old(self)@, report.session@),
            outcome_view(res) == change_effect_outcome(
                old(self)@,
                effect,
                speed,
                report.effect_failed,
                report.speed_failed,
            ),
            old(self).wf() ==> final(self).wf(),
    {
        let plan = match self.plan_change_effect_settings(effect, speed) {
            Ok(plan) => plan,
            Err(text) => {
                return Err(text);
            },
        };

        let mut issues_stack: Vec<Option<String>> = Vec::new();
        if plan.effect.is_some() && report.effect_failed {
            issues_stack.push(Some(String::from_str("Failed to modify device's effect")));
        } else {
            issues_stack.push(None);
        }
        if plan.speed.is_some() && report.speed_failed {
            issues_stack.push(Some(String::from_str("Failed to modify device's effect speed")));
        } else {
            issues_stack.push(None);
        }
        self.device = Some(report.session);

        proof {
            reveal_strlit("Failed to modify device's effect");
            reveal_strlit("Failed to modify device's effect speed");
            let first = issue_if(plan.effect is Some && report.effect_failed, effect_issue());
            let second = issue_if(plan.speed is Some && report.speed_failed, speed_issue());
            assert(slots_view(issues_stack@) =~= seq![first, second]);
            lemma_verdict_of_two(first, second);
        }
        summarize(&issues_stack)
    }

    /// The commands that `change_single` needs.
    pub fn plan_change_single(
        &self,
        r: Option<u8>,
        g: Option<u8>,
        b: Option<u8>,
        a: Option<u8>,
    ) -> (plan: Result<ColorChange, String>)
        ensures
            result_view(plan) == match self@.device {
                Some(session) => Ok(color_change(session, r, g, b, a)),
                None => Err(no_session()),
            },
    {
        let device = match &self.device {
            Some(device) => device,
            None => {
                return Err(String::from_str("Device not initializied."));
            },
        };
        Ok(
            ColorChange {
                color: if r.is_some() || g.is_some() || b.is_some() {
                    Some(
                        (
                            r.unwrap_or(device.rgb_color.0),
                            g.unwrap_or(device.rgb_color.1),
                            b.unwrap_or(device.rgb_color.2),
                        ),
                    )
                } else {
                    None
                },
                brightness: match a {
                    Some(value) => Some(Self::from_0_100(value)),
                    None => None,
                },
            },
        )
    }

    /// Settles a change of color and brightness.
    ///
    /// The two attempts stand for themselves: what one did takes nothing from
    /// the other. The session as reported is kept whatever failed, and the
    /// failures come back as one text.
    pub fn change_single(
        &mut self,
        r: Option<u8>,
        g: Option<u8>,
        b: Option<u8>,
        a: Option<u8>,
        report: ColorReport,
    ) -> (res: Result<(), String>)
        ensures
            final(self)@ == after_change(old(self)@, report.session@),
            outcome_view(res) == change_single_outcome(
                old(self)@,
                r,
                g,
                b,
                a,
                report.color_failed,
                report.brightness_failed,
            ),
            old(self).wf() ==> final(self).wf(),
    {
        let plan = match self.plan_change_single(r, g, b, a) {
            Ok(plan) => plan,
            Err(text) => {
                return Err(text);
            },
        };

        let mut issues_stack: Vec<Option<String>> = Vec::new();
        if plan.color.is_some() && report.color_failed {
            issues_stack.push(Some(String::from_str("Failed to change device's color")));
        } else {
            issues_stack.push(None);
        }
        if plan.brightness.is_some() && report.brightness_failed {
            issues_stack.push(Some(String::from_str("Failed to change device's brighness")));
        } else {
            issues_stack.push(None);
        }
        self.device = Some(report.session);

        proof {
            reveal_strlit("Failed to change device's color");
            reveal_strlit("Failed to change device's brighness");
            let first = issue_if(plan.color is Some && report.color_failed, color_issue());
            let second = issue_if(
                plan.brightness is Some && report.brightness_failed,
                brightness_issue(),
            );
            assert(slots_view(issues_stack@) =~= seq![first, second]);
            lemma_verdict_of_two(first, second);
        }
        summarize(&issues_stack)
    }

    /// Settles a change of all four channels at once.
    pub fn change_rgba(&mut self, r: u8, g: u8, b: u8, a: u8, report: ColorReport) -> (res: Result<
        (),
        String,
    >)
        ensures
            final(self)@ == after_change(old(self)@, report.session@),
            outcome_view(res) == change_single_outcome(
                old(self)@,
                Some(r),
                Some(g),
                Some(b),
                Some(a),
                report.color_failed,
                report.brightness_failed,
            ),
            old(self).wf() ==> final(self).wf(),
    {
        self.change_single(Some(r), Some(g), Some(b), Some(a), report)
    }

    /// Whether `change_audio_monitor_settings` needs a new monitor made
    /// first, or that no session is held.
    pub fn needs_audio_monitor(&self) -> (plan: Result<bool, String>)
        ensures
            result_view(plan) == match self@.device {
                Some(_) => Ok(self@.audio_monitor is None),
                None => Err(not_initialized()),
            },
    {
        if self.device.is_none() {
            return Err(String::from_str("Device not initialized."));
        }
        Ok(self.audio_monitor.is_none())
    }

    /// Writes the given settings over the monitor's configuration and
    /// attaches the monitor.
    ///
    /// Works on the attached monitor, or, where none is attached, on the one
    /// that `creation` brings. Returns the configuration to write to the
    /// monitor before monitoring is started against the session.
    pub fn change_audio_monitor_settings(
        &mut self,
        mode: Option<VisualizationMode>,
        sensitivity: Option<u8>,
        creation: Attempt<MonitorConfig>,
    ) -> (res: Result<MonitorConfig, String>)
        ensures
            final(self)@ == after_audio(old(self)@, mode, sensitivity, created_config(creation)),
            result_view(res) == audio_outcome(
                old(self)@,
                mode,
                sensitivity,
                created_config(creation),
            ),
            old(self).wf() ==> final(self).wf(),
    {
        if self.device.is_none() {
            return Err(String::from_str("Device not initialized."));
        }
        if self.audio_monitor.is_none() {
            match creation {
                Attempt::Done(config) => {
                    self.audio_monitor = Some(config);
                },
                _ => {
                    return Err(String::from_str("Failed to create an audio monitor..."));
                },
            }
        }
        let mut config = match self.audio_monitor {
            Some(config) => config,
            None => {
                return Err(String::from_str("Failed to create an audio monitor..."));
            },
        };
        if let Some(m) = mode {
            config.mode = m;
        }
        if let Some(s) = sensitivity {
            config.sensitivity = Self::from_0_100(s);
        }
        self.audio_monitor = Some(config);
        Ok(config)
    }

    /// Detaches the monitor and hands back its configuration; the caller
    /// signals it to stop and discards it. Nothing happens where none is
    /// attached.
    pub fn stop_audio_monitoring(&mut self) -> (detached: Option<MonitorConfig>)
        ensures
            final(self)@ == after_stop(old(self)@),
            detached == old(self).audio_monitor,
            final(self).wf(),
    {
        let detached = self.audio_monitor;
        if detached.is_some() {
            self.audio_monitor = None
        }
        detached
    }

    /// The read-only form of the current state.
    pub fn readonly(&self) -> (answer: Result<ReadOnlyBleLedDevice, String>)
        ensures
            answer_view(answer) == snapshot_answer(self@),
    {
        ReadOnlyBleLedDevice::try_from(self)
    }
}

} // verus!

//! What holds of the manager over its whole life, whatever the transport
//! reports.

use vstd::prelude::*;
use crate::audio_visualisation::monitor::{MonitorConfig, VisualizationMode};
use crate::device::issues::{separator, terminator};
use crate::device::manager::{
    after_audio, after_change, after_init, after_stop, audio_outcome, brightness_issue,
    change_effect_outcome, change_single_outcome, color_change, color_issue, effect_issue,
    init_succeeds, no_session, not_initialized, speed_issue, tuned, ManagerView,
};
use crate::device::serializer::snapshot_answer;
use crate::device::session::SessionView;
use crate::device::{after_toggle, init_answer, init_failed, toggle_answer};

verus! {

/// Before a session is established, a change of color, brightness, effect or
/// effect speed is refused, and the manager stays as it is, its session slot
/// empty.
pub proof fn lemma_change_needs_session(
    manager: ManagerView,
    r: Option<u8>,
    g: Option<u8>,
    b: Option<u8>,
    a: Option<u8>,
    effect: Option<u8>,
    speed: Option<u8>,
    first_failed: bool,
    second_failed: bool,
    reported: SessionView,
)
    requires
        manager.device is None,
    ensures
        change_single_outcome(manager, r, g, b, a, first_failed, second_failed) == Err::<
            (),
            Seq<char>,
        >(no_session()),
        change_effect_outcome(manager, effect, speed, first_failed, second_failed) == Err::<
            (),
            Seq<char>,
        >(not_initialized()),
        after_change(manager, reported) == manager,
{
}

/// Before a session is established, a change of the audio settings is
/// refused whatever monitor is on offer, a toggle is refused, and a query has
/// nothing to show; the manager stays as it is.
pub proof fn lemma_audio_and_power_need_session(
    manager: ManagerView,
    mode: Option<VisualizationMode>,
    sensitivity: Option<u8>,
    created: Option<MonitorConfig>,
    switched: Option<SessionView>,
)
    requires
        manager.device is None,
    ensures
        audio_outcome(manager, mode, sensitivity, created) == Err::<MonitorConfig, Seq<char>>(
            not_initialized(),
        ),
        after_audio(manager, mode, sensitivity, created) == manager,
        toggle_answer(manager, switched) is Err,
        toggle_answer(manager, switched)->Err_0 == no_session(),
        after_toggle(manager, switched) == manager,
        after_stop(manager).device is None,
        snapshot_answer(manager) is Err,
{
}

/// An initialization that cannot connect fails and leaves the manager as it
/// was: without a session if it had none, with the old one otherwise.
pub proof fn lemma_failed_init_keeps_manager(manager: ManagerView, force: bool)
    ensures
        after_init(manager, force, None) == manager,
        manager.device is None || force ==> {
            &&& !init_succeeds(manager, force, None)
            &&& init_answer(manager, force, None) is Err
            &&& init_answer(manager, force, None)->Err_0 == init_failed()
        },
{
}

/// An initialization without force on a manager that holds a session
/// succeeds, changes nothing, and shows the session that was held, whatever
/// the transport offers.
pub proof fn lemma_init_without_force_is_idle(manager: ManagerView, connected: Option<SessionView>)
    requires
        manager.device is Some,
    ensures
        init_succeeds(manager, false, connected),
        after_init(manager, false, connected) == manager,
        init_answer(manager, false, connected) == snapshot_answer(manager),
        snapshot_answer(manager) is Ok,
{
}

/// A forced initialization that connects puts the new session in the place of
/// the old one and leaves the monitor attached.
pub proof fn lemma_forced_init_replaces_session(manager: ManagerView, session: SessionView)
    ensures
        after_init(manager, true, Some(session)).device == Some(session),
        after_init(manager, true, Some(session)).audio_monitor == manager.audio_monitor,
        init_succeeds(manager, true, Some(session)),
{
}

/// Where both the color and the brightness were due, the failure names the
/// attempts that failed and no other, and the session is kept as the
/// transport reported it, with what the other attempt did.
pub proof fn lemma_color_failures_are_told_apart(
    manager: ManagerView,
    r: Option<u8>,
    g: Option<u8>,
    b: Option<u8>,
    a: Option<u8>,
    reported: SessionView,
)
    requires
        manager.device is Some,
        r is Some || g is Some || b is Some,
        a is Some,
    ensures
        change_single_outcome(manager, r, g, b, a, false, false) == Ok::<(), Seq<char>>(()),
        change_single_outcome(manager, r, g, b, a, true, false) == Err::<(), Seq<char>>(
            color_issue() + terminator(),
        ),
        change_single_outcome(manager, r, g, b, a, false, true) == Err::<(), Seq<char>>(
            brightness_issue() + terminator(),
        ),
        change_single_outcome(manager, r, g, b, a, true, true) == Err::<(), Seq<char>>(
            color_issue() + separator() + brightness_issue() + terminator(),
        ),
        after_change(manager, reported).device == Some(reported),
        after_change(manager, reported).audio_monitor == manager.audio_monitor,
{
}

/// Where both the effect and its speed were due, the failure names the
/// attempts that failed and no other, and the session is kept as the
/// transport reported it.
pub proof fn lemma_effect_failures_are_told_apart(
    manager: ManagerView,
    effect: u8,
    speed: u8,
    reported: SessionView,
)
    requires
        manager.device is Some,
    ensures
        change_effect_outcome(manager, Some(effect), Some(speed), false, false) == Ok::<
            (),
            Seq<char>,
        >(()),
        change_effect_outcome(manager, Some(effect), Some(speed), true, false) == Err::<
            (),
            Seq<char>,
        >(effect_issue() + terminator()),
        change_effect_outcome(manager, Some(effect), Some(speed), false, true) == Err::<
            (),
            Seq<char>,
        >(speed_issue() + terminator()),
        change_effect_outcome(manager, Some(effect), Some(speed), true, true) == Err::<
            (),
            Seq<char>,
        >(effect_issue() + separator() + speed_issue() + terminator()),
        after_change(manager, reported).device == Some(reported),
{
}

/// An attempt that was not due cannot fail the change: what the transport
/// says of it is not heard.
pub proof fn lemma_undue_attempts_do_not_count(
    manager: ManagerView,
    first_failed: bool,
    second_failed: bool,
)
    requires
        manager.device is Some,
    ensures
        change_single_outcome(manager, None, None, None, None, first_failed, second_failed)
            == Ok::<(), Seq<char>>(()),
        change_effect_outcome(manager, None, None, first_failed, second_failed) == Ok::<
            (),
            Seq<char>,
        >(()),
{
}

/// A channel that is not given keeps the value that the session holds.
pub proof fn lemma_unset_channels_keep_their_value(session: SessionView, r: u8)
    ensures
        color_change(session, Some(r), None, None, None).color == Some(
            (r, session.rgb_color.1, session.rgb_color.2),
        ),
        color_change(session, None, None, None, None).color is None,
        color_change(session, None, None, None, None).brightness is None,
{
}

/// After the monitor was stopped the audio slot is empty, and the next change
/// of the audio settings builds on the monitor that is then made, not on the
/// one that was attached before: with no settings given it attaches the new
/// monitor's configuration as it came.
pub proof fn lemma_stop_then_enable_starts_afresh(
    manager: ManagerView,
    mode: Option<VisualizationMode>,
    sensitivity: Option<u8>,
    first: Option<MonitorConfig>,
    next_mode: Option<VisualizationMode>,
    next_sensitivity: Option<u8>,
    fresh: MonitorConfig,
)
    requires
        manager.device is Some,
    ensures
        ({
            let enabled = after_audio(manager, mode, sensitivity, first);
            let stopped = after_stop(enabled);
            &&& stopped.audio_monitor is None
            &&& stopped.device == manager.device
            &&& after_audio(stopped, next_mode, next_sensitivity, Some(fresh)).audio_monitor
                == Some(tuned(fresh, next_mode, next_sensitivity))
            &&& after_audio(stopped, None, None, Some(fresh)).audio_monitor == Some(fresh)
            &&& after_audio(stopped, next_mode, next_sensitivity, None) == stopped
        }),
{
}

/// Stopping twice is stopping once.
pub proof fn lemma_stop_is_idempotent(manager: ManagerView)
    ensures
        after_stop(after_stop(manager)) == after_stop(manager),
        manager.audio_monitor is None ==> after_stop(manager) == manager,
{
}

/// No operation empties the session slot once it is filled.
pub proof fn lemma_session_is_never_dropped(
    manager: ManagerView,
    force: bool,
    connected: Option<SessionView>,
    reported: SessionView,
    switched: Option<SessionView>,
    mode: Option<VisualizationMode>,
    sensitivity: Option<u8>,
    created: Option<MonitorConfig>,
)
    requires
        manager.device is Some,
    ensures
        after_init(manager, force, connected).device is Some,
        after_change(manager, reported).device is Some,
        after_toggle(manager, switched).device is Some,
        after_audio(manager, mode, sensitivity, created).device is Some,
        after_stop(manager).device is Some,
{
}

} // verus!

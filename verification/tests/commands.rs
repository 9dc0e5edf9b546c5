use tled::audio_visualisation::monitor::{FrequencyRange, MonitorConfig, VisualizationMode};
use tled::audio_visualisation::serializer::{ReadOnlyAudioVisualization, ReadOnlyVisualizationMode};
use tled::device::manager::BleDeviceManager;
use tled::device::serializer::ReadOnlyBleLedDevice;
use tled::device::session::{Attempt, ColorReport, DeviceSession, EffectReport};
use tled::device::{
    device_change_all, device_change_only, device_default_audio_configuration, device_get,
    device_init, device_set_effect, device_toggle, device_use_audio, plan_device_toggle,
    PowerCommand,
};

fn session() -> DeviceSession {
    DeviceSession {
        is_on: true,
        rgb_color: (255, 255, 255),
        brightness: 255,
        effect: None,
        effect_speed: None,
        color_temp_kelvin: Some(5000),
        device_type_name: String::from("LEDBLE"),
    }
}

fn monitor() -> MonitorConfig {
    MonitorConfig {
        range: FrequencyRange::Full,
        mode: VisualizationMode::FrequencyColor,
        sensitivity: 178,
        bass_color_trigger: true,
        mid_brightness_trigger: true,
        high_effect_trigger: true,
        update_interval_ms: 50,
        active: false,
    }
}

fn ready() -> BleDeviceManager {
    BleDeviceManager { device: Some(session()), audio_monitor: None }
}

#[test]
fn device_init_shows_the_new_session() {
    let mut manager = BleDeviceManager::empty();
    assert_eq!(
        device_init(&mut manager, false, Attempt::Done(session())),
        Ok(ReadOnlyBleLedDevice::from(&session()))
    );
    assert_eq!(manager.device, Some(session()));
}

#[test]
fn device_init_reports_a_failed_connection() {
    let mut manager = BleDeviceManager::empty();
    assert_eq!(
        device_init(&mut manager, false, Attempt::Failed),
        Err(String::from("Initialization failed."))
    );
    assert!(manager.device.is_none());
    let mut held = ready();
    assert_eq!(
        device_init(&mut held, true, Attempt::Failed),
        Err(String::from("Initialization failed."))
    );
    assert_eq!(held.device, Some(session()));
}

#[test]
fn device_init_without_force_shows_the_session_held() {
    let mut manager = ready();
    let before = manager.readonly();
    let other = DeviceSession { is_on: false, ..session() };
    assert_eq!(device_init(&mut manager, false, Attempt::Done(other)), before);
    assert_eq!(device_init(&mut manager, false, Attempt::Skipped), before);
    assert_eq!(manager.readonly(), before);
}

#[test]
fn device_get_shows_nothing_before_init() {
    assert_eq!(device_get(&BleDeviceManager::empty()), Ok(None));
}

#[test]
fn device_get_shows_the_snapshot() {
    let manager = BleDeviceManager { device: Some(session()), audio_monitor: Some(monitor()) };
    assert_eq!(device_get(&manager), Ok(manager.readonly().ok()));
    assert!(device_get(&manager).unwrap().unwrap().audio_config.is_some());
}

#[test]
fn plan_device_toggle_picks_the_command() {
    assert_eq!(plan_device_toggle(&ready(), true), Ok(PowerCommand::On));
    assert_eq!(plan_device_toggle(&ready(), false), Ok(PowerCommand::Off));
    assert_eq!(
        plan_device_toggle(&BleDeviceManager::empty(), true),
        Err(String::from("Device not initializied."))
    );
}

#[test]
fn device_toggle_shows_the_switched_session() {
    let mut manager = ready();
    let off = DeviceSession { is_on: false, ..session() };
    assert_eq!(
        device_toggle(&mut manager, Attempt::Done(off.clone())),
        Ok(ReadOnlyBleLedDevice::from(&off))
    );
    assert_eq!(manager.device, Some(off));
}

#[test]
fn device_toggle_reports_a_refused_command() {
    let mut manager = ready();
    assert_eq!(
        device_toggle(&mut manager, Attempt::Failed),
        Err(String::from("Failed to power on/off."))
    );
    assert_eq!(manager.device, Some(session()));
    assert_eq!(
        device_toggle(&mut manager, Attempt::Skipped),
        Err(String::from("Failed to power on/off."))
    );
    assert_eq!(manager.device, Some(session()));
}

#[test]
fn device_toggle_needs_a_session() {
    let mut manager = BleDeviceManager::empty();
    assert_eq!(
        device_toggle(&mut manager, Attempt::Done(session())),
        Err(String::from("Device not initializied."))
    );
    assert!(manager.device.is_none());
}

#[test]
fn device_change_only_shows_the_changed_session() {
    let mut manager = ready();
    let after = DeviceSession { rgb_color: (1, 255, 255), brightness: 25, ..session() };
    let report = ColorReport { color_failed: false, brightness_failed: false, session: after.clone() };
    assert_eq!(
        device_change_only(&mut manager, Some(1), None, None, Some(10), report),
        Ok(ReadOnlyBleLedDevice {
            rgb_color: (1, 255, 255),
            brightness: 9,
            ..ReadOnlyBleLedDevice::from(&session())
        })
    );
    assert_eq!(manager.device, Some(after));
}

#[test]
fn device_change_only_reports_the_failed_group_and_keeps_the_other() {
    let mut manager = ready();
    let after = DeviceSession { brightness: 25, ..session() };
    let report = ColorReport { color_failed: true, brightness_failed: false, session: after.clone() };
    assert_eq!(
        device_change_only(&mut manager, Some(1), None, None, Some(10), report),
        Err(String::from("Failed to change device's color."))
    );
    assert_eq!(manager.readonly().map(|shown| shown.brightness), Ok(9));
    assert_eq!(manager.readonly().map(|shown| shown.rgb_color), Ok((255, 255, 255)));
}

#[test]
fn device_change_only_needs_a_session() {
    let mut manager = BleDeviceManager::empty();
    let report = ColorReport { color_failed: false, brightness_failed: false, session: session() };
    assert_eq!(
        device_change_only(&mut manager, None, None, None, None, report),
        Err(String::from("Device not initializied."))
    );
    assert!(manager.device.is_none());
}

#[test]
fn device_change_all_shows_the_changed_session() {
    let mut manager = ready();
    let after = DeviceSession { rgb_color: (1, 2, 3), brightness: 0, ..session() };
    let report = ColorReport { color_failed: false, brightness_failed: false, session: after.clone() };
    assert_eq!(
        device_change_all(&mut manager, 1, 2, 3, 0, report),
        Ok(ReadOnlyBleLedDevice::from(&after))
    );
}

#[test]
fn device_change_all_reports_both_failures() {
    let mut manager = ready();
    let report = ColorReport { color_failed: true, brightness_failed: true, session: session() };
    assert_eq!(
        device_change_all(&mut manager, 1, 2, 3, 4, report),
        Err(String::from("Failed to change device's color and Failed to change device's brighness."))
    );
}

#[test]
fn device_set_effect_shows_the_changed_session() {
    let mut manager = ready();
    let after = DeviceSession { effect: Some(0x8a), effect_speed: Some(255), ..session() };
    let report = EffectReport { effect_failed: false, speed_failed: false, session: after.clone() };
    assert_eq!(
        device_set_effect(&mut manager, Some(0x8a), Some(100), report),
        Ok(ReadOnlyBleLedDevice {
            effect: Some(0x8a),
            effect_speed: Some(100),
            ..ReadOnlyBleLedDevice::from(&session())
        })
    );
}

#[test]
fn device_set_effect_reports_the_failed_group() {
    let mut manager = ready();
    let after = DeviceSession { effect: Some(0x8a), ..session() };
    let report = EffectReport { effect_failed: false, speed_failed: true, session: after.clone() };
    assert_eq!(
        device_set_effect(&mut manager, Some(0x8a), Some(100), report),
        Err(String::from("Failed to modify device's effect speed."))
    );
    assert_eq!(manager.device, Some(after));
}

#[test]
fn device_set_effect_needs_a_session() {
    let mut manager = BleDeviceManager::empty();
    let report = EffectReport { effect_failed: false, speed_failed: false, session: session() };
    assert_eq!(
        device_set_effect(&mut manager, Some(1), None, report),
        Err(String::from("Device not initialized."))
    );
    assert!(manager.device.is_none());
}

#[test]
fn device_use_audio_embeds_the_tuned_monitor() {
    let mut manager = ready();
    let shown = device_use_audio(
        &mut manager,
        Some(ReadOnlyVisualizationMode::BeatEffects),
        Some(50),
        Attempt::Done(monitor()),
    );
    let tuned = MonitorConfig { mode: VisualizationMode::BeatEffects, sensitivity: 127, ..monitor() };
    assert_eq!(manager.audio_monitor, Some(tuned));
    assert_eq!(
        shown,
        Ok(ReadOnlyBleLedDevice {
            audio_config: Some(ReadOnlyAudioVisualization::from(&tuned)),
            ..ReadOnlyBleLedDevice::from(&session())
        })
    );
    assert_eq!(shown.unwrap().audio_config.unwrap().sensitivity, 49);
}

#[test]
fn device_use_audio_reports_a_missing_monitor() {
    let mut manager = ready();
    assert_eq!(
        device_use_audio(&mut manager, None, None, Attempt::Failed),
        Err(String::from("Failed to create an audio monitor..."))
    );
    assert!(manager.audio_monitor.is_none());
}

#[test]
fn device_use_audio_needs_a_session() {
    let mut manager = BleDeviceManager::empty();
    assert_eq!(
        device_use_audio(&mut manager, None, Some(1), Attempt::Done(monitor())),
        Err(String::from("Device not initialized."))
    );
    assert!(manager.audio_monitor.is_none());
    assert!(manager.device.is_none());
}

#[test]
fn default_audio_configuration_prefers_the_attached_monitor() {
    let attached = MonitorConfig { sensitivity: 255, active: true, ..monitor() };
    let manager = BleDeviceManager { device: Some(session()), audio_monitor: Some(attached) };
    assert_eq!(
        device_default_audio_configuration(&manager, Attempt::Done(monitor())),
        Ok(ReadOnlyAudioVisualization::from(&attached))
    );
    assert_eq!(
        device_default_audio_configuration(&manager, Attempt::Failed),
        Ok(ReadOnlyAudioVisualization::from(&attached))
    );
}

#[test]
fn default_audio_configuration_reads_a_monitor_made_for_it() {
    let manager = BleDeviceManager::empty();
    assert_eq!(
        device_default_audio_configuration(&manager, Attempt::Done(monitor())),
        Ok(ReadOnlyAudioVisualization::from(&monitor()))
    );
    assert!(manager.audio_monitor.is_none());
}

#[test]
fn default_audio_configuration_fails_without_any_monitor() {
    let manager = ready();
    assert_eq!(
        device_default_audio_configuration(&manager, Attempt::Failed),
        Err(String::from("Audio monitor not created and failed to use default."))
    );
    assert_eq!(
        device_default_audio_configuration(&manager, Attempt::Skipped),
        Err(String::from("Audio monitor not created and failed to use default."))
    );
}

use tled::audio_visualisation::monitor::{FrequencyRange, MonitorConfig, VisualizationMode};
use tled::audio_visualisation::serializer::{
    ReadOnlyAudioVisualization, ReadOnlyFrequencyRange, ReadOnlyVisualizationMode,
};
use tled::device::manager::BleDeviceManager;
use tled::device::serializer::ReadOnlyBleLedDevice;
use tled::device::session::DeviceSession;

fn session() -> DeviceSession {
    DeviceSession {
        is_on: true,
        rgb_color: (10, 20, 30),
        brightness: 128,
        effect: Some(0x87),
        effect_speed: Some(255),
        color_temp_kelvin: Some(5000),
        device_type_name: String::from("ELK-BLE"),
    }
}

fn monitor() -> MonitorConfig {
    MonitorConfig {
        range: FrequencyRange::Bass,
        mode: VisualizationMode::BpmSync,
        sensitivity: 178,
        bass_color_trigger: true,
        mid_brightness_trigger: false,
        high_effect_trigger: true,
        update_interval_ms: 50,
        active: true,
    }
}

#[test]
fn frequency_ranges_keep_their_names() {
    assert_eq!(ReadOnlyFrequencyRange::from(FrequencyRange::Bass), ReadOnlyFrequencyRange::Bass);
    assert_eq!(ReadOnlyFrequencyRange::from(FrequencyRange::Mid), ReadOnlyFrequencyRange::Mid);
    assert_eq!(ReadOnlyFrequencyRange::from(FrequencyRange::High), ReadOnlyFrequencyRange::High);
    assert_eq!(ReadOnlyFrequencyRange::from(FrequencyRange::Full), ReadOnlyFrequencyRange::Full);
}

#[test]
fn visualization_modes_keep_their_names() {
    let pairs = [
        (VisualizationMode::FrequencyColor, ReadOnlyVisualizationMode::FrequencyColor),
        (VisualizationMode::EnergyBrightness, ReadOnlyVisualizationMode::EnergyBrightness),
        (VisualizationMode::BeatEffects, ReadOnlyVisualizationMode::BeatEffects),
        (VisualizationMode::SpectralFlow, ReadOnlyVisualizationMode::SpectralFlow),
        (VisualizationMode::EnhancedFrequencyColor, ReadOnlyVisualizationMode::EnhancedFrequencyColor),
        (VisualizationMode::BpmSync, ReadOnlyVisualizationMode::BpmSync),
    ];
    for (live, shown) in pairs {
        assert_eq!(ReadOnlyVisualizationMode::from(live), shown);
        assert_eq!(VisualizationMode::from(shown), live);
    }
}

#[test]
fn audio_projection_copies_and_scales() {
    assert_eq!(
        ReadOnlyAudioVisualization::from(&monitor()),
        ReadOnlyAudioVisualization {
            range: ReadOnlyFrequencyRange::Bass,
            mode: ReadOnlyVisualizationMode::BpmSync,
            sensitivity: 69,
            bass_color_trigger: true,
            mid_brightness_trigger: false,
            high_effect_trigger: true,
            update_interval_ms: 50,
            active: true,
        }
    );
}

#[test]
fn audio_projection_scales_the_edges() {
    let low = ReadOnlyAudioVisualization::from(&MonitorConfig { sensitivity: 0, ..monitor() });
    assert_eq!(low.sensitivity, 0);
    let high = ReadOnlyAudioVisualization::from(&MonitorConfig { sensitivity: 255, ..monitor() });
    assert_eq!(high.sensitivity, 100);
}

#[test]
fn device_projection_copies_and_scales() {
    assert_eq!(
        ReadOnlyBleLedDevice::from(&session()),
        ReadOnlyBleLedDevice {
            is_on: true,
            rgb_color: (10, 20, 30),
            brightness: 50,
            effect: Some(0x87),
            effect_speed: Some(100),
            color_temp_kelvin: Some(5000),
            device_type_name: String::from("ELK-BLE"),
            audio_config: None,
        }
    );
}

#[test]
fn device_projection_keeps_absent_fields_absent() {
    let bare = DeviceSession {
        is_on: false,
        effect: None,
        effect_speed: None,
        color_temp_kelvin: None,
        ..session()
    };
    let shown = ReadOnlyBleLedDevice::from(&bare);
    assert!(!shown.is_on);
    assert_eq!(shown.effect, None);
    assert_eq!(shown.effect_speed, None);
    assert_eq!(shown.color_temp_kelvin, None);
    assert_eq!(shown.audio_config, None);
}

#[test]
fn manager_projection_needs_a_session() {
    let manager = BleDeviceManager::empty();
    assert_eq!(
        ReadOnlyBleLedDevice::try_from(&manager),
        Err(String::from("Device not initialized."))
    );
    let orphan = BleDeviceManager { device: None, audio_monitor: Some(monitor()) };
    assert_eq!(orphan.readonly(), Err(String::from("Device not initialized.")));
}

#[test]
fn manager_projection_without_monitor_has_no_audio() {
    let manager = BleDeviceManager { device: Some(session()), audio_monitor: None };
    assert_eq!(manager.readonly(), Ok(ReadOnlyBleLedDevice::from(&session())));
}

#[test]
fn manager_projection_embeds_the_monitor() {
    let manager = BleDeviceManager { device: Some(session()), audio_monitor: Some(monitor()) };
    let shown = ReadOnlyBleLedDevice::try_from(&manager);
    assert_eq!(
        shown,
        Ok(ReadOnlyBleLedDevice {
            audio_config: Some(ReadOnlyAudioVisualization::from(&monitor())),
            ..ReadOnlyBleLedDevice::from(&session())
        })
    );
    assert_eq!(manager.readonly(), shown);
}

#[test]
fn readonly_clone_is_equal() {
    let shown = ReadOnlyBleLedDevice::from(&session());
    assert_eq!(shown.clone(), shown);
}

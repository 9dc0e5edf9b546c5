use tled::device::manager::BleDeviceManager;
use tled::scale::{HUMAN_MAX, NATIVE_MAX};

#[test]
fn from_0_100_maps_the_edges() {
    assert_eq!(BleDeviceManager::from_0_100(0), 0);
    assert_eq!(BleDeviceManager::from_0_100(HUMAN_MAX), NATIVE_MAX);
}

#[test]
fn from_0_100_rounds_down() {
    assert_eq!(BleDeviceManager::from_0_100(1), 2);
    assert_eq!(BleDeviceManager::from_0_100(20), 51);
    assert_eq!(BleDeviceManager::from_0_100(50), 127);
    assert_eq!(BleDeviceManager::from_0_100(99), 252);
}

#[test]
fn from_0_100_stays_in_range_and_never_falls() {
    let mut last = 0u8;
    for human in 0..=100u8 {
        let native = BleDeviceManager::from_0_100(human);
        assert_eq!(native as u32, human as u32 * 255 / 100);
        assert!(native >= last);
        last = native;
    }
    assert_eq!(last, 255);
}

#[test]
fn from_0_100_keeps_the_low_byte_above_the_scale() {
    assert_eq!(BleDeviceManager::from_0_100(101), 1);
    assert_eq!(BleDeviceManager::from_0_100(200), 254);
    assert_eq!(BleDeviceManager::from_0_100(255), 138);
}

#[test]
fn to_0_100_maps_the_edges() {
    assert_eq!(BleDeviceManager::to_0_100(0), 0);
    assert_eq!(BleDeviceManager::to_0_100(NATIVE_MAX), HUMAN_MAX);
}

#[test]
fn to_0_100_rounds_down() {
    assert_eq!(BleDeviceManager::to_0_100(1), 0);
    assert_eq!(BleDeviceManager::to_0_100(2), 0);
    assert_eq!(BleDeviceManager::to_0_100(3), 1);
    assert_eq!(BleDeviceManager::to_0_100(127), 49);
    assert_eq!(BleDeviceManager::to_0_100(128), 50);
    assert_eq!(BleDeviceManager::to_0_100(254), 99);
}

#[test]
fn to_0_100_stays_in_range_and_never_falls() {
    let mut last = 0u8;
    for native in 0..=255u8 {
        let human = BleDeviceManager::to_0_100(native);
        assert!(human <= 100);
        assert!(human >= last);
        last = human;
    }
}

#[test]
fn round_trip_is_exact_at_the_edges() {
    assert_eq!(BleDeviceManager::to_0_100(BleDeviceManager::from_0_100(100)), 100);
    assert_eq!(BleDeviceManager::to_0_100(BleDeviceManager::from_0_100(0)), 0);
}

#[test]
fn round_trip_loses_at_most_one_step() {
    assert_eq!(BleDeviceManager::to_0_100(BleDeviceManager::from_0_100(50)), 49);
    assert_eq!(BleDeviceManager::to_0_100(BleDeviceManager::from_0_100(20)), 20);
    for human in 0..=100u8 {
        let back = BleDeviceManager::to_0_100(BleDeviceManager::from_0_100(human));
        assert!(back <= human);
        assert!(human - back <= 1);
    }
}

//! The configuration record of an audio monitor, in plain values.

use vstd::prelude::*;

verus! {

/// The band of the spectrum that a monitor listens to.
#[derive(Debug, Clone, Copy, PartialEq, Eq, Structural)]
pub enum FrequencyRange {
    /// Bass frequencies (20-250 Hz)
    Bass,
    /// Mid-range frequencies (250-2000 Hz)
    Mid,
    /// High frequencies (2000-20000 Hz)
    High,
    /// Full spectrum
    Full,
}

/// How a monitor turns sound into light.
#[derive(Debug, Clone, Copy, PartialEq, Eq, Structural)]
pub enum VisualizationMode {
    /// Frequencies map to colors (bass=red, mid=green, high=blue)
    FrequencyColor,
    /// Sound energy controls brightness
    EnergyBrightness,
    /// Beat detection triggers effects
    BeatEffects,
    /// Spectral flow pattern
    SpectralFlow,
    /// Enhanced frequency color mapping (warm for bass, cool for highs)
    EnhancedFrequencyColor,
    /// BPM synchronized effects
    BpmSync,
}

/// The configuration of an attached audio monitor.
///
/// `sensitivity` is kept on the device's scale of `0..=255`; whoever talks to
/// the monitor turns it into the monitor's own unit.
#[derive(Debug, Clone, Copy, PartialEq, Eq, Structural)]
pub struct MonitorConfig {
    /// Which frequency range to monitor
    pub range: FrequencyRange,
    /// How to visualize audio
    pub mode: VisualizationMode,
    /// Audio volume sensitivity (0-255)
    pub sensitivity: u8,
    /// Whether bass should trigger color changes
    pub bass_color_trigger: bool,
    /// Whether mids should trigger brightness changes
    pub mid_brightness_trigger: bool,
    /// Whether highs should trigger effect changes
    pub high_effect_trigger: bool,
    /// Minimum time between visualization updates (ms)
    pub update_interval_ms: u32,
    /// Whether to sync state from audio directly to LED
    pub active: bool,
}

} // verus!

//! The read-only form of a monitor's configuration.

use vstd::prelude::*;
use vstd::std_specs::convert::FromSpecImpl;
use crate::audio_visualisation::monitor::{FrequencyRange, MonitorConfig, VisualizationMode};
use crate::device::manager::BleDeviceManager;
use crate::scale::to_human;

verus! {

#[derive(Debug, Clone, Copy, PartialEq, Eq, Structural)]
pub enum ReadOnlyFrequencyRange {
    /// Bass frequencies (20-250 Hz)
    Bass,
    /// Mid-range frequencies (250-2000 Hz)
    Mid,
    /// High frequencies (2000-20000 Hz)
    High,
    /// Full spectrum
    Full,
}

/// The read-only form of a frequency range: the variant of the same name.
pub open spec fn shown_range(range: FrequencyRange) -> ReadOnlyFrequencyRange {
    match range {
        FrequencyRange::Bass => ReadOnlyFrequencyRange::Bass,
        FrequencyRange::Mid => ReadOnlyFrequencyRange::Mid,
        FrequencyRange::High => ReadOnlyFrequencyRange::High,
        FrequencyRange::Full => ReadOnlyFrequencyRange::Full,
    }
}

impl From<FrequencyRange> for ReadOnlyFrequencyRange {
    fn from(value: FrequencyRange) -> (out: Self) {
        match value {
            FrequencyRange::Bass => Self::Bass,
            FrequencyRange::Mid => Self::Mid,
            FrequencyRange::High => Self::High,
            FrequencyRange::Full => Self::Full,
        }
    }
}

impl FromSpecImpl<FrequencyRange> for ReadOnlyFrequencyRange {
    open spec fn obeys_from_spec() -> bool {
        true
    }

    open spec fn from_spec(value: FrequencyRange) -> Self {
        shown_range(value)
    }
}

#[derive(Debug, Clone, Copy, PartialEq, Eq, Structural)]
pub enum ReadOnlyVisualizationMode {
    /// Frequencies map to colors (bass=red, mid=green, high=blue)
    FrequencyColor,
    /// Sound energy controls brightness
    EnergyBrightness,
    /// Beat detection triggers effects
    BeatEffects,
    /// Spectral flow pattern
    SpectralFlow,
    /// Enhanced frequency color mapping (warm for bass, cool for highs)
    EnhancedFrequencyColor,
    /// BPM synchronized effects
    BpmSync,
}

/// The read-only form of a visualization mode: the variant of the same name.
pub open spec fn shown_mode(mode: VisualizationMode) -> ReadOnlyVisualizationMode {
    match mode {
        VisualizationMode::FrequencyColor => ReadOnlyVisualizationMode::FrequencyColor,
        VisualizationMode::EnergyBrightness => ReadOnlyVisualizationMode::EnergyBrightness,
        VisualizationMode::BeatEffects => ReadOnlyVisualizationMode::BeatEffects,
        VisualizationMode::SpectralFlow => ReadOnlyVisualizationMode::SpectralFlow,
        VisualizationMode::EnhancedFrequencyColor => ReadOnlyVisualizationMode::EnhancedFrequencyColor,
        VisualizationMode::BpmSync => ReadOnlyVisualizationMode::BpmSync,
    }
}

/// The mode that a read-only form stands for: the variant of the same name.
pub open spec fn live_mode(shown: ReadOnlyVisualizationMode) -> VisualizationMode {
    match shown {
        ReadOnlyVisualizationMode::FrequencyColor => VisualizationMode::FrequencyColor,
        ReadOnlyVisualizationMode::EnergyBrightness => VisualizationMode::EnergyBrightness,
        ReadOnlyVisualizationMode::BeatEffects => VisualizationMode::BeatEffects,
        ReadOnlyVisualizationMode::SpectralFlow => VisualizationMode::SpectralFlow,
        ReadOnlyVisualizationMode::EnhancedFrequencyColor => VisualizationMode::EnhancedFrequencyColor,
        ReadOnlyVisualizationMode::BpmSync => VisualizationMode::BpmSync,
    }
}

impl From<VisualizationMode> for ReadOnlyVisualizationMode {
    fn from(value: VisualizationMode) -> (out: Self) {
        match value {
            VisualizationMode::FrequencyColor => Self::FrequencyColor,
            VisualizationMode::EnergyBrightness => Self::EnergyBrightness,
            VisualizationMode::BeatEffects => Self::BeatEffects,
            VisualizationMode::SpectralFlow => Self::SpectralFlow,
            VisualizationMode::EnhancedFrequencyColor => Self::EnhancedFrequencyColor,
            VisualizationMode::BpmSync => Self::BpmSync,
        }
    }
}

impl FromSpecImpl<VisualizationMode> for ReadOnlyVisualizationMode {
    open spec fn obeys_from_spec() -> bool {
        true
    }

    open spec fn from_spec(value: VisualizationMode) -> Self {
        shown_mode(value)
    }
}

impl From<ReadOnlyVisualizationMode> for VisualizationMode {
    fn from(val: ReadOnlyVisualizationMode) -> (out: Self) {
        match val {
            ReadOnlyVisualizationMode::FrequencyColor => VisualizationMode::FrequencyColor,
            ReadOnlyVisualizationMode::EnergyBrightness => VisualizationMode::EnergyBrightness,
            ReadOnlyVisualizationMode::BeatEffects => VisualizationMode::BeatEffects,
            ReadOnlyVisualizationMode::SpectralFlow => VisualizationMode::SpectralFlow,
            ReadOnlyVisualizationMode::EnhancedFrequencyColor => {
                VisualizationMode::EnhancedFrequencyColor
            },
            ReadOnlyVisualizationMode::BpmSync => VisualizationMode::BpmSync,
        }
    }
}

impl FromSpecImpl<ReadOnlyVisualizationMode> for VisualizationMode {
    open spec fn obeys_from_spec() -> bool {
        true
    }

    open spec fn from_spec(val: ReadOnlyVisualizationMode) -> Self {
        live_mode(val)
    }
}

/// A mode survives the trip into its read-only form and back, and the other
/// way round.
pub proof fn lemma_mode_round_trip(live: VisualizationMode, shown: ReadOnlyVisualizationMode)
    ensures
        live_mode(shown_mode(live)) == live,
        shown_mode(live_mode(shown)) == shown,
{
}

#[derive(Debug, Clone, Copy, PartialEq, Eq, Structural)]
pub struct ReadOnlyAudioVisualization {
    /// Which frequency range to monitor
    pub range: ReadOnlyFrequencyRange,
    /// How to visualize audio
    pub mode: ReadOnlyVisualizationMode,
    /// Audio volume sensitivity (0-100)
    pub sensitivity: u8,
    /// Whether bass should trigger color changes
    pub bass_color_trigger: bool,
    /// Whether mids should trigger brightness changes
    pub mid_brightness_trigger: bool,
    /// Whether highs should trigger effect changes
    pub high_effect_trigger: bool,
    /// Minimum time between visualization updates (ms)
    pub update_interval_ms: u32,
    /// Whether to sync state from audio directly to LED
    pub active: bool,
}

/// The read-only form of a configuration: every field copied, the two enums
/// in their read-only form, the sensitivity on the human scale.
pub open spec fn shown_config(config: MonitorConfig) -> ReadOnlyAudioVisualization {
    ReadOnlyAudioVisualization {
        range: shown_range(config.range),
        mode: shown_mode(config.mode),
        sensitivity: to_human(config.sensitivity as int) as u8,
        bass_color_trigger: config.bass_color_trigger,
        mid_brightness_trigger: config.mid_brightness_trigger,
        high_effect_trigger: config.high_effect_trigger,
        update_interval_ms: config.update_interval_ms,
        active: config.active,
    }
}

impl<'a> From<&'a MonitorConfig> for ReadOnlyAudioVisualization {
    fn from(value: &'a MonitorConfig) -> (out: Self) {
        Self {
            range: ReadOnlyFrequencyRange::from(value.range),
            mode: ReadOnlyVisualizationMode::from(value.mode),
            sensitivity: BleDeviceManager::to_0_100(value.sensitivity),
            bass_color_trigger: value.bass_color_trigger,
            mid_brightness_trigger: value.mid_brightness_trigger,
            high_effect_trigger: value.high_effect_trigger,
            update_interval_ms: value.update_interval_ms,
            active: value.active,
        }
    }
}

impl<'a> FromSpecImpl<&'a MonitorConfig> for ReadOnlyAudioVisualization {
    open spec fn obeys_from_spec() -> bool {
        true
    }

    open spec fn from_spec(value: &'a MonitorConfig) -> Self {
        shown_config(*value)
    }
}

} // verus!

//! Platform-agnostic descriptions of output devices and stream formats.

use vstd::prelude::*;

verus! {

/// The eight standard audiophile sample rates, ascending.
pub const STANDARD_RATES: [u32; 8] = [44100, 48000, 88200, 96000, 176400, 192000, 352800, 384000];

pub open spec fn standard_rates_seq() -> Seq<u32> {
    seq![44100u32, 48000u32, 88200u32, 96000u32, 176400u32, 192000u32, 352800u32, 384000u32]
}

/// A standard audiophile sample rate, in Hz.
#[derive(Debug, Clone, Copy, PartialEq, Eq, Structural)]
pub struct SampleRate(pub u32);

impl SampleRate {
    /// Whether `rate` is one of the standard audiophile rates.
    pub fn is_standard(rate: u32) -> (r: bool)
        ensures
            r == standard_rates_seq().contains(rate),
    {
        let rates = STANDARD_RATES;
        let mut i: usize = 0;
        while i < 8
            invariant
                0 <= i <= 8,
                rates@ == standard_rates_seq(),
                forall|j: int| 0 <= j < i ==> rates@[j] != rate,
            decreases 8 - i,
        {
            if rates[i] == rate {
                return true;
            }
            i = i + 1;
        }
        proof {
            assert(!standard_rates_seq().contains(rate)) by {
                if standard_rates_seq().contains(rate) {
                    let k = choose|k: int| 0 <= k < 8 && standard_rates_seq()[k] == rate;
                    assert(rates@[k] == rate);
                }
            }
        }
        false
    }
}

/// Information about an audio output device.
#[derive(Debug, Clone)]
pub struct DeviceInfo {
    /// Platform device identifier, in decimal.
    pub id: String,
    pub name: String,
    pub manufacturer: Option<String>,
    pub is_default: bool,
    /// Standard rates that the device accepts, ascending.
    pub supported_sample_rates: Vec<u32>,
    pub current_sample_rate: u32,
    pub max_channels: u16,
    pub supports_exclusive: bool,
}

impl DeviceInfo {
    /// Whether `rate` is among the device's supported rates.
    pub fn supports_sample_rate(&self, rate: u32) -> (r: bool)
        ensures
            r == self.supported_sample_rates@.contains(rate),
    {
        let mut i: usize = 0;
        while i < self.supported_sample_rates.len()
            invariant
                0 <= i <= self.supported_sample_rates@.len(),
                forall|j: int| 0 <= j < i ==> self.supported_sample_rates@[j] != rate,
            decreases self.supported_sample_rates@.len() - i,
        {
            if self.supported_sample_rates[i] == rate {
                return true;
            }
            i = i + 1;
        }
        false
    }
}

/// Whether playback owns the device exclusively (hog mode) or shares it.
#[derive(Debug, Clone, Copy, PartialEq, Eq, Structural)]
pub enum ExclusiveMode {
    Shared,
    Exclusive,
}

impl Default for ExclusiveMode {
    fn default() -> (r: Self)
        ensures
            r == ExclusiveMode::Shared,
    {
        ExclusiveMode::Shared
    }
}

/// A change in the set or state of output devices.
#[derive(Debug, Clone)]
pub enum DeviceEvent {
    DeviceAdded(DeviceInfo),
    DeviceRemoved(String),
    DefaultDeviceChanged(DeviceInfo),
    SampleRateChanged { device_id: String, new_rate: u32 },
}

/// The format a device is asked to stream in.
#[derive(Debug, Clone)]
pub struct StreamConfig {
    pub sample_rate: u32,
    pub channels: u16,
    /// Buffer size hint; `None` lets the backend decide.
    pub buffer_size: Option<u32>,
}

impl StreamConfig {
    /// A two-channel configuration at `sample_rate`.
    pub fn stereo(sample_rate: u32) -> (r: Self)
        ensures
            r.sample_rate == sample_rate,
            r.channels == 2,
            r.buffer_size is None,
    {
        StreamConfig { sample_rate, channels: 2, buffer_size: None }
    }
}

/// The output configuration shown to the user.
#[derive(Debug, Clone)]
pub struct AudioOutputConfig {
    pub device: DeviceInfo,
    pub sample_rate: u32,
    pub exclusive_mode: ExclusiveMode,
    pub bit_perfect_capable: bool,
}

} // verus!

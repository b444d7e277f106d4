//! What an output device can do, and the output format chosen for a track:
//! bit-perfect at the source rate when the device takes it, else the
//! device's rate with resampling.

use vstd::prelude::*;
use crate::rates::{in_some_range, rate_in_ranges, standard_rates_in_ranges, max_range_rate, ascending, FALLBACK_RATE, is_best_rate};
use crate::session::AudioInfo;
use crate::types::standard_rates_seq;

verus! {

/// One output configuration a device offers: a rate range and a channel count.
#[derive(Debug, Clone, Copy, PartialEq, Eq, Structural)]
pub struct ConfigRange {
    pub min_rate: u32,
    pub max_rate: u32,
    pub channels: u16,
}

/// What an output device can do.
#[derive(Debug, Clone)]
pub struct DeviceCapabilities {
    pub device_name: String,
    /// Rate ranges `(min, max)` of its configurations.
    pub sample_rate_ranges: Vec<(u32, u32)>,
    /// Standard rates within those ranges, ascending.
    pub standard_rates: Vec<u32>,
    pub max_sample_rate: u32,
    pub max_channels: u16,
    pub current_sample_rate: u32,
}

/// The output format chosen for a track.
#[derive(Debug, Clone, Copy, PartialEq, Eq, Structural)]
pub struct SelectedConfig {
    pub sample_rate: u32,
    pub channels: u16,
    pub needs_resampling: bool,
    pub source_rate: u32,
}

/// Source and output format of a session, as announced to the listener.
#[derive(Debug, Clone, Copy, PartialEq, Eq, Structural)]
pub struct AudioSpecs {
    pub source_sample_rate: u32,
    pub source_bit_depth: u8,
    pub source_channels: u16,
    pub output_sample_rate: u32,
    pub output_channels: u16,
    /// Whether output and source rates differ (not bit-perfect).
    pub is_mismatch: bool,
}

/// Capabilities built from a device's configurations: their ranges, the
/// standard rates within them, the highest rate (the fallback rate when
/// there is none) and the most channels (zero when there is none).
pub fn capabilities_from_configs(device_name: String, current_sample_rate: u32, configs: &Vec<ConfigRange>) -> (r: DeviceCapabilities)
    ensures
        r.device_name == device_name,
        r.current_sample_rate == current_sample_rate,
        r.sample_rate_ranges@.len() == configs@.len(),
        forall|i: int| 0 <= i < configs@.len() ==> #[trigger] r.sample_rate_ranges@[i] == (configs@[i].min_rate, configs@[i].max_rate),
        ascending(r.standard_rates@),
        forall|x: u32| r.standard_rates@.contains(x) <==> (standard_rates_seq().contains(x) && in_some_range(x, r.sample_rate_ranges@)),
        configs@.len() == 0 ==> r.max_sample_rate == FALLBACK_RATE,
        configs@.len() > 0 ==> exists|i: int| 0 <= i < configs@.len() && configs@[i].max_rate == r.max_sample_rate,
        forall|i: int| 0 <= i < configs@.len() ==> configs@[i].max_rate <= r.max_sample_rate,
        forall|i: int| 0 <= i < configs@.len() ==> configs@[i].channels <= r.max_channels,
        r.max_channels == 0 || exists|i: int| 0 <= i < configs@.len() && configs@[i].channels == r.max_channels,
{
    let mut ranges: Vec<(u32, u32)> = Vec::new();
    let mut max_channels: u16 = 0;
    let mut i: usize = 0;
    while i < configs.len()
        invariant
            0 <= i <= configs@.len(),
            ranges@.len() == i,
            forall|k: int| 0 <= k < i ==> #[trigger] ranges@[k] == (configs@[k].min_rate, configs@[k].max_rate),
            forall|k: int| 0 <= k < i ==> configs@[k].channels <= max_channels,
            max_channels == 0 || exists|k: int| 0 <= k < i && configs@[k].channels == max_channels,
        decreases configs@.len() - i,
    {
        let c = configs[i];
        ranges.push((c.min_rate, c.max_rate));
        if c.channels > max_channels {
            max_channels = c.channels;
        }
        i = i + 1;
    }
    let standard_rates = standard_rates_in_ranges(&ranges);
    let max_sample_rate = max_range_rate(&ranges);
    proof {
        if configs@.len() > 0 {
            let k = choose|k: int| 0 <= k < ranges@.len() && ranges@[k].1 == max_sample_rate;
            assert(configs@[k].max_rate == max_sample_rate);
        }
        assert forall|k: int| 0 <= k < configs@.len() implies configs@[k].max_rate <= max_sample_rate by {
            assert(ranges@[k].1 <= max_sample_rate);
        }
    }
    DeviceCapabilities {
        device_name,
        sample_rate_ranges: ranges,
        standard_rates,
        max_sample_rate,
        max_channels,
        current_sample_rate,
    }
}

/// Capabilities assumed when a device cannot be audited: 44.1 to 48 kHz,
/// stereo, currently at 44.1 kHz.
pub fn fallback_capabilities(device_name: String) -> (r: DeviceCapabilities)
    ensures
        r.device_name == device_name,
        r.sample_rate_ranges@ == seq![(44100u32, 48000u32)],
        r.standard_rates@ == seq![44100u32, 48000u32],
        r.max_sample_rate == 48000,
        r.max_channels == 2,
        r.current_sample_rate == 44100,
{
    DeviceCapabilities {
        device_name,
        sample_rate_ranges: vec![(44100, 48000)],
        standard_rates: vec![44100, 48000],
        max_sample_rate: 48000,
        max_channels: 2,
        current_sample_rate: 44100,
    }
}

/// Whether one of the device's ranges holds `rate`.
pub fn is_rate_supported(rate: u32, capabilities: &DeviceCapabilities) -> (r: bool)
    ensures
        r == in_some_range(rate, capabilities.sample_rate_ranges@),
{
    rate_in_ranges(rate, &capabilities.sample_rate_ranges)
}

/// Whether a configuration of at least two channels holds `rate`.
pub open spec fn stereo_config_holds(rate: u32, configs: Seq<ConfigRange>) -> bool {
    exists|i: int| 0 <= i < configs.len() && configs[i].channels >= 2 && configs[i].min_rate <= rate && rate <= configs[i].max_rate
}

/// Whether the hardware can run at `source_rate`: a range of the audit holds
/// it and so does a stereo configuration of a fresh query (`None` when the
/// query failed). Gives the rate to use and whether it is bit-perfect; on
/// failure, the device's current rate.
pub fn try_hardware_switch(source_rate: u32, capabilities: &DeviceCapabilities, configs: Option<&Vec<ConfigRange>>) -> (r: (u32, bool))
    ensures
        r == (if in_some_range(source_rate, capabilities.sample_rate_ranges@) && (match configs {
            Some(c) => stereo_config_holds(source_rate, c@),
            None => false,
        }) {
            (source_rate, true)
        } else {
            (capabilities.current_sample_rate, false)
        }),
{
    if !rate_in_ranges(source_rate, &capabilities.sample_rate_ranges) {
        return (capabilities.current_sample_rate, false);
    }
    match configs {
        Some(list) => {
            let mut i: usize = 0;
            while i < list.len()
                invariant
                    0 <= i <= list@.len(),
                    in_some_range(source_rate, capabilities.sample_rate_ranges@),
                    configs == Some(list),
                    forall|k: int| 0 <= k < i ==> !(list@[k].channels >= 2 && list@[k].min_rate <= source_rate && source_rate <= list@[k].max_rate),
                decreases list@.len() - i,
            {
                let c = list[i];
                if c.channels >= 2 && c.min_rate <= source_rate && source_rate <= c.max_rate {
                    proof {
                        assert(list@[i as int].channels >= 2 && list@[i as int].min_rate <= source_rate
                            && source_rate <= list@[i as int].max_rate);
                        assert(stereo_config_holds(source_rate, list@));
                    }
                    return (source_rate, true);
                }
                i = i + 1;
            }
            (capabilities.current_sample_rate, false)
        },
        None => (capabilities.current_sample_rate, false),
    }
}

/// The output rate when the backend could not prepare the device: the
/// source rate if the hardware takes it (bit-perfect), else the device's
/// current rate.
pub fn find_best_output_rate(source_rate: u32, capabilities: &DeviceCapabilities, configs: Option<&Vec<ConfigRange>>) -> (r: (u32, bool))
    ensures
        r == (if in_some_range(source_rate, capabilities.sample_rate_ranges@) && (match configs {
            Some(c) => stereo_config_holds(source_rate, c@),
            None => false,
        }) {
            (source_rate, true)
        } else {
            (capabilities.current_sample_rate, false)
        }),
{
    let (rate, ok) = try_hardware_switch(source_rate, capabilities, configs);
    if ok {
        return (rate, true);
    }
    (capabilities.current_sample_rate, false)
}

/// The output format for a stereo track of `source_rate` Hz. `prepared` is
/// the rate the backend put the device at, if it could: output is
/// bit-perfect exactly when that rate is the source rate. Otherwise the
/// hardware-switch fallback decides.
pub fn select_output_config(
    source_rate: u32,
    prepared: Option<u32>,
    capabilities: &DeviceCapabilities,
    configs: Option<&Vec<ConfigRange>>,
) -> (r: SelectedConfig)
    ensures
        r.source_rate == source_rate,
        r.channels == 2,
        match prepared {
            Some(actual) => r.sample_rate == actual && r.needs_resampling == (actual != source_rate),
            None => (r.sample_rate, !r.needs_resampling) == (if in_some_range(source_rate, capabilities.sample_rate_ranges@) && (match configs {
                Some(c) => stereo_config_holds(source_rate, c@),
                None => false,
            }) {
                (source_rate, true)
            } else {
                (capabilities.current_sample_rate, false)
            }),
        },
        !r.needs_resampling ==> r.sample_rate == source_rate,
{
    let (rate, bit_perfect) = match prepared {
        Some(actual) => (actual, actual == source_rate),
        None => find_best_output_rate(source_rate, capabilities, configs),
    };
    SelectedConfig { sample_rate: rate, channels: 2, needs_resampling: !bit_perfect, source_rate }
}

/// The target rate handed to a decoder session: none when bit-perfect.
pub fn session_target_rate(config: &SelectedConfig) -> (r: Option<u32>)
    ensures
        r == (if config.needs_resampling { Some(config.sample_rate) } else { None }),
{
    if config.needs_resampling {
        Some(config.sample_rate)
    } else {
        None
    }
}

/// What the listener is told of a session.
pub open spec fn specs_of(info: AudioInfo) -> AudioSpecs {
    AudioSpecs {
        source_sample_rate: info.sample_rate,
        source_bit_depth: info.bit_depth,
        source_channels: info.channels as u16,
        output_sample_rate: info.output_sample_rate,
        output_channels: info.channels as u16,
        is_mismatch: info.sample_rate != info.output_sample_rate,
    }
}

impl AudioSpecs {
    /// The announcement of a session that plays `info`.
    pub fn for_session(info: &AudioInfo) -> (r: AudioSpecs)
        ensures
            r == specs_of(*info),
    {
        AudioSpecs {
            source_sample_rate: info.sample_rate,
            source_bit_depth: info.bit_depth,
            source_channels: info.channels as u16,
            output_sample_rate: info.output_sample_rate,
            output_channels: info.channels as u16,
            is_mismatch: info.sample_rate != info.output_sample_rate,
        }
    }
}

/// The source rate announced for a session is the rate the probe found,
/// whatever output rate is chosen; the mismatch flag is set exactly when
/// the session resamples.
pub proof fn lemma_specs_report_probed_rate(
    probed_rate: u32,
    target_rate: Option<u32>,
    info: AudioInfo,
)
    requires
        info.sample_rate == probed_rate,
        info.output_sample_rate == (match target_rate { Some(t) => t, None => probed_rate }),
        info.is_resampled == (info.output_sample_rate != probed_rate),
    ensures
        specs_of(info).source_sample_rate == probed_rate,
        specs_of(info).is_mismatch == info.is_resampled,
{
}

/// A device that does not list the requested rate, but lists some rate, is
/// given another rate: the announcement then reports a mismatch.
pub proof fn lemma_unsupported_rate_is_mismatch(requested: u32, supported: Seq<u32>, chosen: u32, info: AudioInfo)
    requires
        supported.len() > 0,
        !supported.contains(requested),
        is_best_rate(requested, supported, chosen),
        info.sample_rate == requested,
        info.output_sample_rate == chosen,
    ensures
        chosen != requested,
        specs_of(info).is_mismatch,
{
}

/// Channels over all output streams of a device.
pub open spec fn channel_sum(counts: Seq<u32>) -> nat
    decreases counts.len(),
{
    if counts.len() == 0 {
        0
    } else {
        channel_sum(counts.drop_last()) + counts.last() as nat
    }
}

/// Channel count of a device from the channels of each of its output
/// streams (`None` when they could not be read, which counts as stereo).
/// A total beyond what a `u16` holds saturates at `u16::MAX`.
pub fn channels_from_streams(counts: Option<&Vec<u32>>) -> (r: u16)
    ensures
        match counts {
            Some(c) => r as nat == (if channel_sum(c@) <= 0xffff { channel_sum(c@) } else { 0xffff }),
            None => r == 2,
        },
{
    let list = match counts {
        Some(c) => c,
        None => {
            return 2;
        },
    };
    let mut total: u16 = 0;
    let mut i: usize = 0;
    while i < list.len()
        invariant
            0 <= i <= list@.len(),
            total as nat == (if channel_sum(list@.subrange(0, i as int)) <= 0xffff {
                channel_sum(list@.subrange(0, i as int))
            } else {
                0xffff
            }),
        decreases list@.len() - i,
    {
        let c = list[i];
        proof {
            let prefix = list@.subrange(0, i as int + 1);
            assert(prefix.drop_last() == list@.subrange(0, i as int));
            assert(prefix.last() == c);
        }
        let add: u16 = if c > 0xffff { 0xffff } else { c as u16 };
        total = total.saturating_add(add);
        i = i + 1;
    }
    proof {
        assert(list@.subrange(0, list@.len() as int) == list@);
    }
    total
}

} // verus!

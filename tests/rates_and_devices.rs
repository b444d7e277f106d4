use noir_audio::backend::create_backend;
use noir_audio::capabilities::{
    capabilities_from_configs, channels_from_streams, fallback_capabilities, find_best_output_rate, is_rate_supported,
    select_output_config, session_target_rate, try_hardware_switch, AudioSpecs, ConfigRange,
};
use noir_audio::device::{confirm_rate, CachedDevice, DeviceManager, HogChange};
use noir_audio::error::AudioBackendError;
use noir_audio::rates::{find_best_supported_rate, max_range_rate, standard_rates_in_ranges};
use noir_audio::session::AudioInfo;
use noir_audio::stream::AudioStreamConfig;
use noir_audio::types::{DeviceInfo, ExclusiveMode, SampleRate, StreamConfig};

#[test]
fn standard_rates_are_recognised() {
    assert!(SampleRate::is_standard(44100));
    assert!(SampleRate::is_standard(384000));
    assert!(!SampleRate::is_standard(22050));
    assert!(!SampleRate::is_standard(0));
}

#[test]
fn device_info_supports_listed_rates_only() {
    let d = DeviceInfo {
        id: "7".to_string(),
        name: "DAC".to_string(),
        manufacturer: None,
        is_default: true,
        supported_sample_rates: vec![44100, 96000],
        current_sample_rate: 44100,
        max_channels: 2,
        supports_exclusive: true,
    };
    assert!(d.supports_sample_rate(96000));
    assert!(!d.supports_sample_rate(48000));
}

#[test]
fn best_rate_exact_match() {
    assert_eq!(find_best_supported_rate(44100, &[44100, 48000, 96000]), 44100);
}

#[test]
fn best_rate_smallest_at_or_above() {
    assert_eq!(find_best_supported_rate(88200, &[192000, 44100, 96000, 48000]), 96000);
}

#[test]
fn best_rate_largest_when_all_below() {
    // A 192 kHz file on a DAC that stops at 96 kHz.
    assert_eq!(find_best_supported_rate(192000, &[44100, 48000, 88200, 96000]), 96000);
}

#[test]
fn best_rate_fallback_when_empty() {
    assert_eq!(find_best_supported_rate(96000, &[]), 44100);
}

#[test]
fn standard_rates_within_ranges_are_sorted() {
    let r = standard_rates_in_ranges(&vec![(88200, 100000), (44100, 48000)]);
    assert_eq!(r, vec![44100, 48000, 88200, 96000]);
    assert_eq!(standard_rates_in_ranges(&vec![]), Vec::<u32>::new());
}

#[test]
fn max_range_rate_and_fallback() {
    assert_eq!(max_range_rate(&vec![(44100, 48000), (8000, 192000)]), 192000);
    assert_eq!(max_range_rate(&vec![]), 44100);
}

#[test]
fn stream_configs() {
    let s = StreamConfig::stereo(96000);
    assert_eq!(s.sample_rate, 96000);
    assert_eq!(s.channels, 2);
    assert!(s.buffer_size.is_none());
    let a = AudioStreamConfig::stereo(48000);
    assert_eq!(a, AudioStreamConfig::new(48000, 2));
    assert_eq!(ExclusiveMode::default(), ExclusiveMode::Shared);
}

#[test]
fn error_messages() {
    assert_eq!(AudioBackendError::DeviceNotFound("12".to_string()).message(), "Device not found: 12");
    assert_eq!(AudioBackendError::UnsupportedSampleRate(22050).message(), "Unsupported sample rate: 22050 Hz");
    assert_eq!(
        AudioBackendError::SampleRateChangeFailed { requested: 96000, reason: "busy".to_string() }.message(),
        "Failed to set sample rate to 96000 Hz: busy"
    );
    assert_eq!(
        AudioBackendError::SystemError { code: -50, message: "bad".to_string() }.message(),
        "System error -50: bad"
    );
    assert_eq!(AudioBackendError::Other("x".to_string()).message(), "x");
}

#[test]
fn no_backend_on_this_platform() {
    match create_backend() {
        Err(AudioBackendError::NotSupported(m)) => assert_eq!(m, "No native audio backend for this platform"),
        _ => panic!("expected NotSupported"),
    }
}

fn probed(id: u32, rates: Vec<u32>, default: Option<u32>) -> CachedDevice {
    CachedDevice::from_probe(id, Some(format!("Device {}", id)), Some(44100), Some(rates), 2, default)
}

#[test]
fn cached_device_defaults() {
    let d = CachedDevice::from_probe(41, None, None, None, 6, Some(41));
    assert_eq!(d.info.id, "41");
    assert_eq!(d.info.name, "Unknown");
    assert_eq!(d.info.current_sample_rate, 44100);
    assert!(d.info.supported_sample_rates.is_empty());
    assert!(d.info.is_default);
    assert!(d.info.supports_exclusive);
    assert_eq!(d.info.max_channels, 6);
}

#[test]
fn manager_follows_default_until_manual_choice() {
    let mut m = DeviceManager::new(10);
    m.replace_devices(vec![probed(10, vec![44100], Some(10)), probed(20, vec![96000], Some(10))]);
    assert_eq!(m.active_device(Some(10)).unwrap(), 10);
    assert_eq!(m.check_device_change(Some(20)), Some(20));
    assert_eq!(m.check_device_change(Some(20)), None);
    assert_eq!(m.select_output_device("10").unwrap(), None);
    assert_eq!(m.active_device(Some(20)).unwrap(), 10);
    match m.select_output_device("99") {
        Err(AudioBackendError::DeviceNotFound(id)) => assert_eq!(id, "99"),
        _ => panic!("expected DeviceNotFound"),
    }
    match DeviceManager::new(1).active_device(None) {
        Err(AudioBackendError::DeviceNotFound(m)) => assert_eq!(m, "No default output device"),
        _ => panic!("expected DeviceNotFound"),
    }
}

#[test]
fn switching_device_in_exclusive_mode_releases_old_hog() {
    let mut m = DeviceManager::new(10);
    m.replace_devices(vec![probed(10, vec![44100], Some(10)), probed(20, vec![96000], Some(10))]);
    assert_eq!(m.exclusive_change(ExclusiveMode::Exclusive), Some(HogChange::Engage));
    m.commit_exclusive_mode(ExclusiveMode::Exclusive);
    assert_eq!(m.exclusive_change(ExclusiveMode::Exclusive), None);
    assert_eq!(m.select_output_device("20").unwrap(), Some(10));
    assert_eq!(m.manual_device_id, Some(20));
    assert_eq!(m.exclusive_change(ExclusiveMode::Shared), Some(HogChange::Release));
}

#[test]
fn duplicate_probe_entries_keep_the_last() {
    let mut m = DeviceManager::new(10);
    m.replace_devices(vec![probed(10, vec![44100], None), probed(10, vec![48000], None)]);
    let list = m.list_devices();
    assert_eq!(list.len(), 1);
    assert_eq!(list[0].supported_sample_rates, vec![48000]);
}

#[test]
fn device_lookup_by_text_and_handle() {
    let mut m = DeviceManager::new(10);
    m.replace_devices(vec![probed(10, vec![44100, 96000], Some(10))]);
    assert_eq!(m.get_device_info("10").unwrap().name, "Device 10");
    assert!(m.get_device_info("010").is_err());
    assert_eq!(m.device_info(10).unwrap().id, "10");
    match m.supported_sample_rates(11) {
        Err(AudioBackendError::DeviceNotFound(id)) => assert_eq!(id, "11"),
        _ => panic!("expected DeviceNotFound"),
    }
    assert_eq!(m.supported_sample_rates(10).unwrap(), vec![44100, 96000]);
    assert!(m.is_sample_rate_supported(Some(10), 96000));
    assert!(!m.is_sample_rate_supported(Some(10), 48000));
    assert!(!m.is_sample_rate_supported(None, 96000));
}

#[test]
fn streaming_plan_picks_supported_rate() {
    let mut m = DeviceManager::new(10);
    m.replace_devices(vec![probed(10, vec![44100, 48000, 88200, 96000], Some(10))]);
    let p = m.plan_streaming(10, 44100, 192000);
    assert_eq!(p.target_rate, 96000);
    assert!(p.change_rate);
    assert!(!p.engage_hog);
    let q = m.plan_streaming(10, 48000, 48000);
    assert_eq!(q.target_rate, 48000);
    assert!(!q.change_rate);
    // A device missing from the cache gets the fallback rate.
    assert_eq!(m.plan_streaming(77, 44100, 96000).target_rate, 44100);
}

#[test]
fn release_restores_rates_and_is_idempotent() {
    let mut m = DeviceManager::new(10);
    m.replace_devices(vec![probed(10, vec![44100, 96000], Some(10))]);
    m.record_original_rate(10, Some(44100));
    m.record_original_rate(10, Some(96000));
    m.record_original_rate(20, None);
    m.note_rate_applied(10, 96000);
    assert_eq!(m.device_info(10).unwrap().current_sample_rate, 96000);
    m.commit_exclusive_mode(ExclusiveMode::Exclusive);
    let plan = m.release(Some(10));
    assert_eq!(plan.release_hog_on, Some(10));
    assert_eq!(plan.restore, vec![(10, 44100)]);
    assert_eq!(m.exclusive_mode, ExclusiveMode::Shared);
    let again = m.release(Some(10));
    assert_eq!(again.release_hog_on, None);
    assert!(again.restore.is_empty());
}

fn configs() -> Vec<ConfigRange> {
    vec![
        ConfigRange { min_rate: 44100, max_rate: 96000, channels: 2 },
        ConfigRange { min_rate: 8000, max_rate: 48000, channels: 1 },
    ]
}

#[test]
fn capabilities_audit() {
    let caps = capabilities_from_configs("DAC".to_string(), 48000, &configs());
    assert_eq!(caps.sample_rate_ranges, vec![(44100, 96000), (8000, 48000)]);
    assert_eq!(caps.standard_rates, vec![44100, 48000, 88200, 96000]);
    assert_eq!(caps.max_sample_rate, 96000);
    assert_eq!(caps.max_channels, 2);
    assert!(is_rate_supported(8000, &caps));
    assert!(!is_rate_supported(192000, &caps));
    let fb = fallback_capabilities("x".to_string());
    assert_eq!(fb.standard_rates, vec![44100, 48000]);
    assert_eq!(fb.current_sample_rate, 44100);
}

#[test]
fn hardware_switch_needs_a_stereo_configuration() {
    let caps = capabilities_from_configs("DAC".to_string(), 48000, &configs());
    assert_eq!(try_hardware_switch(88200, &caps, Some(&configs())), (88200, true));
    // 8 kHz is only offered in mono.
    assert_eq!(try_hardware_switch(8000, &caps, Some(&configs())), (48000, false));
    assert_eq!(try_hardware_switch(88200, &caps, None), (48000, false));
    assert_eq!(find_best_output_rate(192000, &caps, Some(&configs())), (48000, false));
}

#[test]
fn output_config_and_specs() {
    let caps = fallback_capabilities("x".to_string());
    let bit_perfect = select_output_config(44100, Some(44100), &caps, None);
    assert!(!bit_perfect.needs_resampling);
    assert_eq!(session_target_rate(&bit_perfect), None);
    let resampled = select_output_config(192000, Some(96000), &caps, None);
    assert!(resampled.needs_resampling);
    assert_eq!(session_target_rate(&resampled), Some(96000));
    let info = AudioInfo::for_session(192000, Some(96000), Some(2), Some(192000 * 60), Some(24));
    let specs = AudioSpecs::for_session(&info);
    assert_eq!(specs.source_sample_rate, 192000);
    assert_eq!(specs.output_sample_rate, 96000);
    assert_eq!(specs.source_bit_depth, 24);
    assert!(specs.is_mismatch);
    assert!(info.is_resampled);
    let plain = AudioInfo::for_session(44100, None, None, None, Some(16));
    let s = AudioSpecs::for_session(&plain);
    assert!(!s.is_mismatch);
    assert_eq!(s.source_sample_rate, 44100);
    assert_eq!(s.source_channels, 2);
}

#[test]
fn channel_count_from_streams() {
    assert_eq!(channels_from_streams(None), 2);
    assert_eq!(channels_from_streams(Some(&vec![])), 0);
    assert_eq!(channels_from_streams(Some(&vec![2, 6])), 8);
    assert_eq!(channels_from_streams(Some(&vec![65535, 3])), 65535);
    assert_eq!(channels_from_streams(Some(&vec![u32::MAX])), 65535);
}

#[test]
fn rate_change_is_confirmed() {
    assert!(confirm_rate(96000, 96000).is_ok());
    match confirm_rate(96000, 48000) {
        Err(AudioBackendError::SampleRateChangeFailed { requested, reason }) => {
            assert_eq!(requested, 96000);
            assert_eq!(reason, "Device set to 48000 Hz instead of 96000 Hz");
        }
        _ => panic!("expected SampleRateChangeFailed"),
    }
}

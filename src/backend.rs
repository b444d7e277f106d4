//! The device backend of a platform: enumeration, nominal-rate control and
//! exclusive mode.

use vstd::prelude::*;
use vstd::string::StringExecFns;
use crate::error::AudioBackendError;
use crate::types::{DeviceInfo, ExclusiveMode, StreamConfig};

verus! {

/// Device control of one platform.
pub trait AudioBackend: Send + Sync {
    /// Devices from the cache (possibly stale).
    fn list_devices(&self) -> Result<Vec<DeviceInfo>, AudioBackendError>;

    /// Devices queried again from the system.
    fn refresh_devices(&mut self) -> Result<Vec<DeviceInfo>, AudioBackendError>;

    fn current_device(&self) -> Result<DeviceInfo, AudioBackendError>;

    /// Uses the device `device_id` from now on instead of the system default.
    fn set_output_device(&mut self, device_id: &str) -> Result<(), AudioBackendError>;

    fn get_device_info(&self, device_id: &str) -> Result<DeviceInfo, AudioBackendError>;

    fn current_sample_rate(&self) -> Result<u32, AudioBackendError>;

    /// Changes the nominal rate of the device in use.
    fn set_sample_rate(&mut self, rate: u32) -> Result<(), AudioBackendError>;

    fn is_sample_rate_supported(&self, rate: u32) -> bool;

    fn supported_sample_rates(&self) -> Result<Vec<u32>, AudioBackendError>;

    fn exclusive_mode(&self) -> ExclusiveMode;

    fn set_exclusive_mode(&mut self, mode: ExclusiveMode) -> Result<(), AudioBackendError>;

    /// Platform handle of the device to stream to; `None` for the system default.
    fn get_device_id(&self) -> Option<u32>;

    /// Readies the device for a stream and returns the rate it runs at.
    fn prepare_for_streaming(&mut self, config: &StreamConfig) -> Result<u32, AudioBackendError>;

    /// Gives up exclusive mode and restores original rates.
    fn release(&mut self) -> Result<(), AudioBackendError>;

    fn name(&self) -> &'static str;
}

/// The backend of this platform. None is built into this library, so the
/// result is `NotSupported`.
pub fn create_backend() -> (r: Result<Box<dyn AudioBackend>, AudioBackendError>)
    ensures
        r matches Err(AudioBackendError::NotSupported(m)) && m@ == "No native audio backend for this platform"@,
{
    Err(AudioBackendError::NotSupported(String::from_str("No native audio backend for this platform")))
}

} // verus!

//! Output streams: the format they are opened with, and what the
//! coordinator asks of them.

use vstd::prelude::*;

verus! {

/// Rate and channel count an output stream is opened with.
#[derive(Debug, Clone, Copy, PartialEq, Eq, Structural)]
pub struct AudioStreamConfig {
    pub sample_rate: u32,
    pub channels: u16,
}

impl AudioStreamConfig {
    pub fn new(sample_rate: u32, channels: u16) -> (r: Self)
        ensures
            r.sample_rate == sample_rate,
            r.channels == channels,
    {
        AudioStreamConfig { sample_rate, channels }
    }

    pub fn stereo(sample_rate: u32) -> (r: Self)
        ensures
            r.sample_rate == sample_rate,
            r.channels == 2,
    {
        AudioStreamConfig::new(sample_rate, 2)
    }
}

/// A platform output stream that pulls samples from the ring buffer.
pub trait AudioOutputStream: Send {
    /// Starts pulling samples.
    fn start(&mut self) -> Result<(), String>;

    /// Outputs silence, keeping the stream open.
    fn pause(&mut self) -> Result<(), String>;

    fn resume(&mut self) -> Result<(), String>;

    fn stop(&mut self) -> Result<(), String>;

    /// Flushes the platform's internal buffers, so that a seek is heard at once.
    fn reset(&mut self) -> Result<(), String>;

    fn is_playing(&self) -> bool;

    fn sample_rate(&self) -> u32;

    fn channels(&self) -> u16;
}

} // verus!

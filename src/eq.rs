//! Settings of the eight-band equalizer that cross from the user to the
//! render callback: an enabled flag and one gain per band.

use vstd::prelude::*;

verus! {

pub const EQ_BAND_COUNT: usize = 8;

/// Center frequencies of the bands, in Hz.
pub const EQ_FREQUENCIES_HZ: [u32; 8] = [32, 64, 250, 1000, 2000, 4000, 8000, 16000];

/// Equalizer settings. Gains are in dB, held as the bits of an `f32`
/// (all-zero bits are 0 dB).
#[derive(Debug, Clone, Copy)]
pub struct EqSharedState {
    pub enabled: bool,
    pub gains: [u32; 8],
}

impl EqSharedState {
    /// Disabled, every band flat.
    pub fn new() -> (r: Self)
        ensures
            !r.enabled,
            forall|i: int| 0 <= i < 8 ==> r.gains@[i] == 0,
    {
        EqSharedState { enabled: false, gains: [0u32; 8] }
    }

    pub fn set_enabled(&mut self, enabled: bool)
        ensures
            *final(self) == (EqSharedState { enabled, ..*old(self) }),
    {
        self.enabled = enabled;
    }

    pub fn is_enabled(&self) -> (r: bool)
        ensures
            r == self.enabled,
    {
        self.enabled
    }

    /// Stores the gain bits of `band`; a band past the last is ignored.
    pub fn set_gain_bits(&mut self, band: usize, bits: u32)
        ensures
            final(self).enabled == old(self).enabled,
            band < EQ_BAND_COUNT ==> final(self).gains@ == old(self).gains@.update(band as int, bits),
            band >= EQ_BAND_COUNT ==> final(self).gains@ == old(self).gains@,
    {
        if band < EQ_BAND_COUNT {
            self.gains[band] = bits;
        }
    }

    /// The gain bits of `band`; zero (0 dB) for a band past the last.
    pub fn gain_bits(&self, band: usize) -> (r: u32)
        ensures
            r == (if band < EQ_BAND_COUNT { self.gains@[band as int] } else { 0 }),
    {
        if band < EQ_BAND_COUNT {
            self.gains[band]
        } else {
            0
        }
    }
}

} // verus!

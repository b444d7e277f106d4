//! Playback core of a bit-perfect music player: sample-rate policy, device
//! bookkeeping, the decoder and render-callback state machines, and the
//! seek/gapless coordination between them.

pub mod types;
pub mod rates;
pub mod error;
pub mod session;
pub mod decoder;
pub mod callback;
pub mod layout;
pub mod chunk;
pub mod device;
pub mod capabilities;
pub mod engine;
pub mod eq;
pub mod stream;
pub mod backend;

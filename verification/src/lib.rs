//! Verified core of a real-time biosignal decoding engine.

pub mod brain_utils;
pub mod drivers;
pub mod engine;
pub mod fifo;
pub mod i18n;
pub mod openbci;
pub mod types;
pub mod units;
pub mod vjoy;
pub mod waveform;

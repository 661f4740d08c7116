//! The engine's decisions: decoding, calibration and the state that commands
//! act on.

pub mod calibration;
pub mod decoder;
pub mod machine;
pub mod mapping;
pub mod simulation;

pub use decoder::{process_neural_intent, Control};

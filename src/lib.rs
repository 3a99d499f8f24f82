// A register of two-level units with bit-flip, controlled-flip and
// caller-supplied single-unit gates, index-validated and measured through
// caller-supplied sampling functions.
pub mod emulator;
pub mod gates;
pub mod qubit;

pub use emulator::{EmulatorError, QuantumEmulator};
pub use qubit::Qubit;

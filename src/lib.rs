//! Sound-board model for a 6800-family arcade sound card: an address-decoded
//! bus over RAM, ROM and a peripheral interface adapter, plus the sample
//! capture driver that turns CPU steps into an 8-bit PCM stream.
pub mod board;
pub mod capture;
pub mod pia;
pub mod runner;
pub mod trace;

pub use board::{BoardError, BoardView, WmsBoard};
pub use capture::{
    append_samples, Action, CaptureConfig, Driver, DriverError, DriverView, Event, Phase,
    StepOutcome,
};
pub use pia::Pia;
pub use runner::Command;
pub use trace::{Registers, Trace, WmsState};

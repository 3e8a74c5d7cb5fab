//! Driver logic for the SSD1677 e-paper display controller.
//!
//! The crate turns "show these pixels" requests into the exact sequence of
//! register writes, RAM addressing windows and refresh triggers that the
//! controller expects. Every function carries a contract that is checked by
//! Verus; the contracts of the update engine are stated over the sequence of
//! transfers that the transport has accepted.

mod channel;
pub mod color;
pub mod command;
pub mod config;
pub mod display;
pub mod error;
pub mod graphics;
pub mod interface;
pub mod lut;
pub mod refresh;
pub mod rotation;
pub mod sequence;
pub mod window;

pub use color::Color;
pub use config::{
    Builder, Config, Dimensions, RamXAddressing, Rotation, MAX_GATE_OUTPUTS, MAX_SOURCE_OUTPUTS,
};
pub use display::{DeepSleepMode, Display, RefreshMode, Region, UpdateRegion};
pub use error::{BuilderError, Error};
pub use graphics::GraphicDisplay;
pub use interface::{DisplayInterface, Interface, InterfaceError, DEFAULT_BUSY_TIMEOUT_MS};

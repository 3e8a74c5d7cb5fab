//! Command opcodes of the SSD1677 and the fixed data bytes that go with them.
//!
//! A command byte is sent with the data/command line low; the bytes that
//! follow it are sent with the line high.

use vstd::prelude::*;

verus! {

/// Soft reset; the controller is busy until it has returned to its defaults.
pub const SOFT_RESET: u8 = 0x12;

/// Booster soft-start control, followed by 5 bytes.
pub const BOOSTER_SOFT_START: u8 = 0x0C;

/// Driver output control, followed by the last gate line (low byte, high
/// byte) and the scanning mode.
pub const DRIVER_OUTPUT_CONTROL: u8 = 0x01;

/// Border waveform control, followed by 1 byte.
pub const BORDER_WAVEFORM: u8 = 0x3C;

/// Temperature sensor selection, followed by 1 byte.
pub const TEMP_SENSOR_CONTROL: u8 = 0x18;

/// Data entry mode, followed by 1 byte: bit 0 is the X direction and bit 1
/// the Y direction of the address counter (set means incrementing).
pub const DATA_ENTRY_MODE: u8 = 0x11;

/// RAM X address window, followed by start and end, each low byte first.
pub const SET_RAM_X_RANGE: u8 = 0x44;

/// RAM Y address window, followed by start and end, each low byte first.
pub const SET_RAM_Y_RANGE: u8 = 0x45;

/// RAM X address counter, followed by the address, low byte first.
pub const SET_RAM_X_COUNTER: u8 = 0x4E;

/// RAM Y address counter, followed by the address, low byte first.
pub const SET_RAM_Y_COUNTER: u8 = 0x4F;

/// Write the black/white plane; the pixel bytes follow.
pub const WRITE_RAM_BW: u8 = 0x24;

/// Write the red plane; the pixel bytes follow.
pub const WRITE_RAM_RED: u8 = 0x26;

/// Fill the whole black/white plane with the byte that follows.
pub const AUTO_WRITE_BW_RAM: u8 = 0x46;

/// Fill the whole red plane with the byte that follows.
pub const AUTO_WRITE_RED_RAM: u8 = 0x47;

/// Display update control 1, followed by the plane selection byte.
pub const DISPLAY_UPDATE_CTRL1: u8 = 0x21;

/// Display update control 2, followed by the update sequence byte.
pub const DISPLAY_UPDATE_CTRL2: u8 = 0x22;

/// Master activation: starts the update sequence.
pub const MASTER_ACTIVATION: u8 = 0x20;

/// Plane selection: both planes take part in the refresh.
pub const CTRL1_NORMAL: u8 = 0x00;

/// Plane selection: the red plane is read as all zero.
pub const CTRL1_BYPASS_RED: u8 = 0x40;

/// Update sequence byte that powers the panel down.
pub const CTRL2_POWER_DOWN: u8 = 0x03;

/// Write the waveform table; the table bytes follow.
pub const WRITE_LUT: u8 = 0x32;

/// Gate driving voltage, followed by 1 byte.
pub const GATE_VOLTAGE: u8 = 0x03;

/// Source driving voltages, followed by 3 bytes.
pub const SOURCE_VOLTAGE: u8 = 0x04;

/// VCOM register, followed by 1 byte.
pub const WRITE_VCOM: u8 = 0x2C;

/// Temperature register, followed by 2 bytes.
pub const WRITE_TEMP: u8 = 0x1A;

/// Deep sleep, followed by the mode byte.
pub const DEEP_SLEEP: u8 = 0x10;

} // verus!

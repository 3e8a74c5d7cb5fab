//! Waveform tables.
//!
//! A waveform table tells the controller which voltages to drive, and for
//! how long, to move a pixel from one colour to another. A full refresh
//! runs on the waveform that the controller holds itself. A partial and a
//! fast refresh run on a table that the driver loads first: by default
//! [`LUT_PARTIAL`] and [`LUT_FAST`].
//!
//! The two tables here are blank: every byte is zero. Waveforms belong to a
//! panel and are handed out by its maker. Where a panel's tables are at
//! hand, the updates of [`Display`](crate::display::Display) that end in
//! `_with_custom_lut` take one along, and `load_lut` loads one ahead of the
//! updates that end in `_no_lut`.

use vstd::prelude::*;

use crate::refresh::RefreshMode;

verus! {

/// Length in bytes of a full waveform table.
pub const LUT_SIZE: usize = 112;

/// Length in bytes of a short waveform table, whose voltage settings are
/// written to their own registers.
pub const LUT_SHORT_SIZE: usize = 105;

/// The byte that a blank table is made of.
pub const BLANK: u8 = 0x00;

/// The table that updates load for a partial refresh: blank.
pub const LUT_PARTIAL: [u8; LUT_SIZE] = [
    BLANK, BLANK, BLANK, BLANK, BLANK, BLANK, BLANK, BLANK,
    BLANK, BLANK, BLANK, BLANK, BLANK, BLANK, BLANK, BLANK,
    BLANK, BLANK, BLANK, BLANK, BLANK, BLANK, BLANK, BLANK,
    BLANK, BLANK, BLANK, BLANK, BLANK, BLANK, BLANK, BLANK,
    BLANK, BLANK, BLANK, BLANK, BLANK, BLANK, BLANK, BLANK,
    BLANK, BLANK, BLANK, BLANK, BLANK, BLANK, BLANK, BLANK,
    BLANK, BLANK, BLANK, BLANK, BLANK, BLANK, BLANK, BLANK,
    BLANK, BLANK, BLANK, BLANK, BLANK, BLANK, BLANK, BLANK,
    BLANK, BLANK, BLANK, BLANK, BLANK, BLANK, BLANK, BLANK,
    BLANK, BLANK, BLANK, BLANK, BLANK, BLANK, BLANK, BLANK,
    BLANK, BLANK, BLANK, BLANK, BLANK, BLANK, BLANK, BLANK,
    BLANK, BLANK, BLANK, BLANK, BLANK, BLANK, BLANK, BLANK,
    BLANK, BLANK, BLANK, BLANK, BLANK, BLANK, BLANK, BLANK,
    BLANK, BLANK, BLANK, BLANK, BLANK, BLANK, BLANK, BLANK,
];

/// The table that updates load for a fast refresh: blank.
pub const LUT_FAST: [u8; LUT_SIZE] = [
    BLANK, BLANK, BLANK, BLANK, BLANK, BLANK, BLANK, BLANK,
    BLANK, BLANK, BLANK, BLANK, BLANK, BLANK, BLANK, BLANK,
    BLANK, BLANK, BLANK, BLANK, BLANK, BLANK, BLANK, BLANK,
    BLANK, BLANK, BLANK, BLANK, BLANK, BLANK, BLANK, BLANK,
    BLANK, BLANK, BLANK, BLANK, BLANK, BLANK, BLANK, BLANK,
    BLANK, BLANK, BLANK, BLANK, BLANK, BLANK, BLANK, BLANK,
    BLANK, BLANK, BLANK, BLANK, BLANK, BLANK, BLANK, BLANK,
    BLANK, BLANK, BLANK, BLANK, BLANK, BLANK, BLANK, BLANK,
    BLANK, BLANK, BLANK, BLANK, BLANK, BLANK, BLANK, BLANK,
    BLANK, BLANK, BLANK, BLANK, BLANK, BLANK, BLANK, BLANK,
    BLANK, BLANK, BLANK, BLANK, BLANK, BLANK, BLANK, BLANK,
    BLANK, BLANK, BLANK, BLANK, BLANK, BLANK, BLANK, BLANK,
    BLANK, BLANK, BLANK, BLANK, BLANK, BLANK, BLANK, BLANK,
    BLANK, BLANK, BLANK, BLANK, BLANK, BLANK, BLANK, BLANK,
];

/// The table that an update in `mode` loads when it loads a built-in one:
/// none for a full refresh, which runs on the controller's own waveform.
pub open spec fn builtin_table(mode: RefreshMode) -> Option<Seq<u8>> {
    match mode {
        RefreshMode::Full => None,
        RefreshMode::Partial => Some(LUT_PARTIAL@),
        RefreshMode::Fast => Some(LUT_FAST@),
    }
}

} // verus!

//! The RAM addressing window of a rectangular area.
//!
//! Pixel bytes stream into the controller's RAM through an address counter
//! that walks a programmed window. The counter may run up or down along
//! each axis, the X address may count pixels or bytes, and the rows may be
//! wired bottom-up. The window registers want the address the counter
//! starts at and the address it ends at, in that order: for a counter that
//! runs down, the start is the larger address.

use vstd::prelude::*;

use crate::config::{Config, Dimensions, RamXAddressing};

verus! {

/// A rectangular area of the panel, in pixels.
#[derive(Clone, Copy, Debug, PartialEq, Eq, Structural)]
pub struct Region {
    /// Left edge; a multiple of 8 in an area that can be written.
    pub x: u16,
    /// Top edge.
    pub y: u16,
    /// Width; a multiple of 8 in an area that can be written.
    pub w: u16,
    /// Height.
    pub h: u16,
}

impl Region {
    /// Bytes in one bit-packed plane of this area.
    pub open spec fn spec_buffer_size(&self) -> nat {
        (self.w as nat / 8) * (self.h as nat)
    }

    /// Whether the area can be written on a panel of size `dimensions`: it
    /// is not empty, lies within the panel, and starts and ends on a byte
    /// boundary.
    pub open spec fn fits(&self, dimensions: Dimensions) -> bool {
        &&& self.w > 0
        &&& self.h > 0
        &&& self.x + self.w <= dimensions.cols
        &&& self.y + self.h <= dimensions.rows
        &&& self.x % 8 == 0
        &&& self.w % 8 == 0
    }

    /// The whole panel of size `dimensions`.
    pub open spec fn whole(dimensions: Dimensions) -> Region {
        Region { x: 0, y: 0, w: dimensions.cols, h: dimensions.rows }
    }

    /// The area with left edge `x`, top edge `y`, width `w` and height `h`.
    pub fn new(x: u16, y: u16, w: u16, h: u16) -> (r: Self)
        ensures
            r == (Region { x, y, w, h }),
    {
        Region { x, y, w, h }
    }

    /// Bytes in one bit-packed plane of this area.
    pub fn buffer_size(&self) -> (n: usize)
        ensures
            n == self.spec_buffer_size(),
    {
        assert((self.w as nat / 8) * (self.h as nat) <= 0x1FFF * 0xFFFF) by (nonlinear_arith)
            requires
                self.w as nat / 8 <= 0x1FFF,
                self.h <= 0xFFFF,
        ;
        (self.w as usize / 8) * self.h as usize
    }

    /// Whether the area can be written on a panel of size `dimensions`.
    pub fn check(&self, dimensions: &Dimensions) -> (ok: bool)
        ensures
            ok == self.fits(*dimensions),
    {
        self.w != 0 && self.h != 0 && self.x as u32 + self.w as u32 <= dimensions.cols as u32
            && self.y as u32 + self.h as u32 <= dimensions.rows as u32 && self.x % 8 == 0
            && self.w % 8 == 0
    }
}

/// Register values of an addressing window: where the address counter
/// starts and where it ends, along each axis.
#[derive(Clone, Copy, Debug, PartialEq, Eq, Structural)]
pub struct RamWindow {
    /// X address the counter starts at.
    pub x_start: u16,
    /// X address the counter ends at.
    pub x_end: u16,
    /// Y address the counter starts at.
    pub y_start: u16,
    /// Y address the counter ends at.
    pub y_end: u16,
}

/// Whether the data entry mode lets the X address counter run upwards.
pub open spec fn x_counts_up(data_entry_mode: u8) -> bool {
    data_entry_mode & 0x01 != 0
}

/// Whether the data entry mode lets the Y address counter run upwards.
pub open spec fn y_counts_up(data_entry_mode: u8) -> bool {
    data_entry_mode & 0x02 != 0
}

/// Lowest X address of the area, in the panel's X address unit.
pub open spec fn x_low(config: Config, region: Region) -> int {
    match config.ram_x_addressing {
        RamXAddressing::Pixels => region.x as int,
        RamXAddressing::Bytes => region.x as int / 8,
    }
}

/// Highest X address of the area, in the panel's X address unit.
pub open spec fn x_high(config: Config, region: Region) -> int {
    match config.ram_x_addressing {
        RamXAddressing::Pixels => region.x + region.w - 1,
        RamXAddressing::Bytes => (region.x + region.w - 1) / 8,
    }
}

/// Lowest Y address of the area: its top row, counted from the bottom of
/// the panel where the rows are wired bottom-up.
pub open spec fn y_low(config: Config, region: Region) -> int {
    if config.ram_y_inverted {
        config.dimensions.rows - region.y - region.h
    } else {
        region.y as int
    }
}

/// Highest Y address of the area.
pub open spec fn y_high(config: Config, region: Region) -> int {
    y_low(config, region) + region.h - 1
}

/// The addressing window of `region` on the panel that `config` describes.
pub open spec fn spec_ram_window(config: Config, region: Region) -> RamWindow {
    let x_up = x_counts_up(config.data_entry_mode);
    let y_up = y_counts_up(config.data_entry_mode);
    RamWindow {
        x_start: (if x_up { x_low(config, region) } else { x_high(config, region) }) as u16,
        x_end: (if x_up { x_high(config, region) } else { x_low(config, region) }) as u16,
        y_start: (if y_up { y_low(config, region) } else { y_high(config, region) }) as u16,
        y_end: (if y_up { y_high(config, region) } else { y_low(config, region) }) as u16,
    }
}

/// Orders the two ends of an address range as the counter meets them: the
/// lower address first if it counts up, the higher first if it counts down.
pub fn counter_span(low: u16, high: u16, counts_up: bool) -> (r: (u16, u16))
    ensures
        r == if counts_up { (low, high) } else { (high, low) },
{
    if counts_up {
        (low, high)
    } else {
        (high, low)
    }
}

/// Computes the addressing window of `region`, or `None` if the area
/// cannot be written on the panel.
pub fn ram_window(config: &Config, region: Region) -> (r: Option<RamWindow>)
    ensures
        r == if region.fits(config.dimensions) {
            Some(spec_ram_window(*config, region))
        } else {
            None
        },
{
    if !region.check(&config.dimensions) {
        return None;
    }
    let x_up = (config.data_entry_mode & 0x01) != 0;
    let y_up = (config.data_entry_mode & 0x02) != 0;
    let last_x: u16 = region.x + region.w - 1;
    let (x_lo, x_hi) = match config.ram_x_addressing {
        RamXAddressing::Pixels => (region.x, last_x),
        RamXAddressing::Bytes => (region.x / 8, last_x / 8),
    };
    let (x_start, x_end) = counter_span(x_lo, x_hi, x_up);
    let y_lo: u16 = if config.ram_y_inverted {
        config.dimensions.rows - region.y - region.h
    } else {
        region.y
    };
    let y_hi: u16 = y_lo + region.h - 1;
    let (y_start, y_end) = counter_span(y_lo, y_hi, y_up);
    Some(RamWindow { x_start, x_end, y_start, y_end })
}

} // verus!

//! Panel configuration and its builder.

use vstd::prelude::*;

pub use crate::error::{BuilderError, MAX_GATE_OUTPUTS, MAX_SOURCE_OUTPUTS};

verus! {

/// Physical size of the panel.
#[derive(Clone, Copy, Debug, PartialEq, Eq, Structural)]
pub struct Dimensions {
    /// Number of rows (gate outputs), the height in pixels.
    pub rows: u16,
    /// Number of columns (source outputs), the width in pixels.
    pub cols: u16,
}

impl Dimensions {
    /// Whether `rows` by `cols` is a size that the controller can drive:
    /// at least one row, no more rows and columns than it has outputs, and
    /// whole bytes per row.
    pub open spec fn supported(rows: u16, cols: u16) -> bool {
        &&& 1 <= rows <= MAX_GATE_OUTPUTS
        &&& 1 <= cols <= MAX_SOURCE_OUTPUTS
        &&& cols % 8 == 0
    }

    /// Whether this value is a size that the controller can drive.
    pub open spec fn valid(&self) -> bool {
        Self::supported(self.rows, self.cols)
    }

    /// Bytes in one bit-packed plane of this size.
    pub open spec fn spec_buffer_size(&self) -> nat {
        ((self.rows as nat) * (self.cols as nat)) / 8
    }

    /// Checks the size against the controller's limits.
    pub fn new(rows: u16, cols: u16) -> (r: Result<Self, BuilderError>)
        ensures
            Self::supported(rows, cols) ==> r == Ok::<Self, BuilderError>(
                Dimensions { rows, cols },
            ),
            !Self::supported(rows, cols) ==> r == Err::<Self, BuilderError>(
                BuilderError::InvalidDimensions { rows, cols },
            ),
    {
        if rows == 0 || rows > MAX_GATE_OUTPUTS {
            return Err(BuilderError::InvalidDimensions { rows, cols });
        }
        if cols == 0 || cols > MAX_SOURCE_OUTPUTS || cols % 8 != 0 {
            return Err(BuilderError::InvalidDimensions { rows, cols });
        }
        Ok(Dimensions { rows, cols })
    }

    /// Bytes in one bit-packed plane of this size.
    pub fn buffer_size(&self) -> (n: usize)
        ensures
            n == self.spec_buffer_size(),
    {
        assert((self.rows as nat) * (self.cols as nat) <= 0xFFFF * 0xFFFF) by (nonlinear_arith)
            requires
                self.rows <= 0xFFFF,
                self.cols <= 0xFFFF,
        ;
        (self.rows as usize * self.cols as usize) / 8
    }
}

/// Orientation of the drawing surface relative to the panel.
#[derive(Clone, Copy, Debug, PartialEq, Eq, Structural)]
pub enum Rotation {
    /// Native orientation.
    Rotate0,
    /// Quarter turn clockwise.
    Rotate90,
    /// Half turn.
    Rotate180,
    /// Three quarter turns clockwise.
    Rotate270,
}

impl Default for Rotation {
    fn default() -> (r: Self)
        ensures
            r == Rotation::Rotate0,
    {
        Rotation::Rotate0
    }
}

/// Unit of the RAM X address.
#[derive(Clone, Copy, Debug, PartialEq, Eq, Structural)]
pub enum RamXAddressing {
    /// The X address counts pixels.
    Pixels,
    /// The X address counts bytes of eight pixels.
    Bytes,
}

impl Default for RamXAddressing {
    fn default() -> (r: Self)
        ensures
            r == RamXAddressing::Pixels,
    {
        RamXAddressing::Pixels
    }
}

/// Everything the driver needs to know about a panel.
#[derive(Clone, Copy, Debug)]
pub struct Config {
    /// Physical size.
    pub dimensions: Dimensions,
    /// Orientation of the drawing surface.
    pub rotation: Rotation,
    /// Booster soft-start bytes.
    pub booster_soft_start: [u8; 5],
    /// Gate scanning mode byte.
    pub gate_scanning: u8,
    /// Border waveform byte.
    pub border_waveform: u8,
    /// VCOM register value.
    pub vcom: u8,
    /// Data entry mode byte.
    pub data_entry_mode: u8,
    /// Unit of the RAM X address.
    pub ram_x_addressing: RamXAddressing,
    /// Whether row 0 of the RAM is the bottom row of the panel.
    pub ram_y_inverted: bool,
    /// Update sequence byte of a full refresh.
    pub display_update_ctrl2_full: u8,
    /// Update sequence byte of a partial refresh.
    pub display_update_ctrl2_partial: u8,
    /// Update sequence byte of a fast refresh.
    pub display_update_ctrl2_fast: u8,
    /// Bits added to the update sequence byte while the panel is off.
    pub display_update_power_on: u8,
    /// Bits added to the update sequence byte of a refresh that powers down.
    pub display_update_power_off: u8,
    /// Fill byte that clears the black/white plane.
    pub clear_bw_value: u8,
    /// Fill byte that clears the red plane.
    pub clear_red_value: u8,
    /// Temperature sensor selection byte.
    pub temp_sensor_control: u8,
}

impl Config {
    /// Size of the drawing surface: the physical size, with rows and columns
    /// exchanged for a quarter or three-quarter turn.
    pub open spec fn spec_rotated_dimensions(&self) -> Dimensions {
        match self.rotation {
            Rotation::Rotate0 | Rotation::Rotate180 => self.dimensions,
            Rotation::Rotate90 | Rotation::Rotate270 => Dimensions {
                rows: self.dimensions.cols,
                cols: self.dimensions.rows,
            },
        }
    }

    /// Size of the drawing surface.
    pub fn rotated_dimensions(&self) -> (d: Dimensions)
        ensures
            d == self.spec_rotated_dimensions(),
    {
        match self.rotation {
            Rotation::Rotate0 | Rotation::Rotate180 => self.dimensions,
            Rotation::Rotate90 | Rotation::Rotate270 => Dimensions {
                rows: self.dimensions.cols,
                cols: self.dimensions.rows,
            },
        }
    }
}

/// What a [`Builder`] holds: the dimensions, if any were given, and every
/// other setting of a [`Config`].
pub struct Settings {
    /// Physical size, once given.
    pub dimensions: Option<Dimensions>,
    /// Orientation of the drawing surface.
    pub rotation: Rotation,
    /// Booster soft-start bytes.
    pub booster_soft_start: [u8; 5],
    /// Gate scanning mode byte.
    pub gate_scanning: u8,
    /// Border waveform byte.
    pub border_waveform: u8,
    /// VCOM register value.
    pub vcom: u8,
    /// Data entry mode byte.
    pub data_entry_mode: u8,
    /// Unit of the RAM X address.
    pub ram_x_addressing: RamXAddressing,
    /// Whether row 0 of the RAM is the bottom row of the panel.
    pub ram_y_inverted: bool,
    /// Update sequence byte of a full refresh.
    pub display_update_ctrl2_full: u8,
    /// Update sequence byte of a partial refresh.
    pub display_update_ctrl2_partial: u8,
    /// Update sequence byte of a fast refresh.
    pub display_update_ctrl2_fast: u8,
    /// Bits added to the update sequence byte while the panel is off.
    pub display_update_power_on: u8,
    /// Bits added to the update sequence byte of a refresh that powers down.
    pub display_update_power_off: u8,
    /// Fill byte that clears the black/white plane.
    pub clear_bw_value: u8,
    /// Fill byte that clears the red plane.
    pub clear_red_value: u8,
    /// Temperature sensor selection byte.
    pub temp_sensor_control: u8,
}

impl Settings {
    /// The settings of a fresh builder.
    pub open spec fn initial() -> Settings {
        Settings {
            dimensions: None,
            rotation: Rotation::Rotate0,
            booster_soft_start: [0xAEu8, 0xC7u8, 0xC3u8, 0xC0u8, 0x40u8],
            gate_scanning: 0x02,
            border_waveform: 0x01,
            vcom: 0x3C,
            data_entry_mode: 0x01,
            ram_x_addressing: RamXAddressing::Pixels,
            ram_y_inverted: false,
            display_update_ctrl2_full: 0xF7,
            display_update_ctrl2_partial: 0xC7,
            display_update_ctrl2_fast: 0xC7,
            display_update_power_on: 0xC0,
            display_update_power_off: 0x03,
            clear_bw_value: 0xFF,
            clear_red_value: 0x00,
            temp_sensor_control: 0x80,
        }
    }

    /// The configuration with these settings and the size `dimensions`.
    pub open spec fn with_dimensions(self, dimensions: Dimensions) -> Config {
        Config {
            dimensions,
            rotation: self.rotation,
            booster_soft_start: self.booster_soft_start,
            gate_scanning: self.gate_scanning,
            border_waveform: self.border_waveform,
            vcom: self.vcom,
            data_entry_mode: self.data_entry_mode,
            ram_x_addressing: self.ram_x_addressing,
            ram_y_inverted: self.ram_y_inverted,
            display_update_ctrl2_full: self.display_update_ctrl2_full,
            display_update_ctrl2_partial: self.display_update_ctrl2_partial,
            display_update_ctrl2_fast: self.display_update_ctrl2_fast,
            display_update_power_on: self.display_update_power_on,
            display_update_power_off: self.display_update_power_off,
            clear_bw_value: self.clear_bw_value,
            clear_red_value: self.clear_red_value,
            temp_sensor_control: self.temp_sensor_control,
        }
    }
}

/// Collects the settings of a [`Config`], starting from defaults.
#[must_use]
pub struct Builder {
    settings: Settings,
}

impl View for Builder {
    type V = Settings;

    closed spec fn view(&self) -> Settings {
        self.settings
    }
}

impl Default for Builder {
    fn default() -> (b: Self)
        ensures
            b@ == Settings::initial(),
    {
        Builder {
            settings: Settings {
                dimensions: None,
                rotation: Rotation::Rotate0,
                booster_soft_start: [0xAE, 0xC7, 0xC3, 0xC0, 0x40],
                gate_scanning: 0x02,
                border_waveform: 0x01,
                vcom: 0x3C,
                data_entry_mode: 0x01,
                ram_x_addressing: RamXAddressing::Pixels,
                ram_y_inverted: false,
                display_update_ctrl2_full: 0xF7,
                display_update_ctrl2_partial: 0xC7,
                display_update_ctrl2_fast: 0xC7,
                display_update_power_on: 0xC0,
                display_update_power_off: 0x03,
                clear_bw_value: 0xFF,
                clear_red_value: 0x00,
                temp_sensor_control: 0x80,
            },
        }
    }
}

impl Builder {
    /// A builder that holds the defaults and no dimensions.
    pub fn new() -> (b: Self)
        ensures
            b@ == Settings::initial(),
    {
        Builder::default()
    }

    /// Sets the physical size, which has no default.
    pub fn dimensions(self, dims: Dimensions) -> (b: Self)
        ensures
            b@ == (Settings { dimensions: Some(dims), ..self@ }),
    {
        let mut b = self;
        b.settings.dimensions = Some(dims);
        b
    }

    /// Sets the orientation of the drawing surface.
    pub fn rotation(self, rotation: Rotation) -> (b: Self)
        ensures
            b@ == (Settings { rotation, ..self@ }),
    {
        let mut b = self;
        b.settings.rotation = rotation;
        b
    }

    /// Sets the booster soft-start bytes.
    pub fn booster_soft_start(self, values: [u8; 5]) -> (b: Self)
        ensures
            b@ == (Settings { booster_soft_start: values, ..self@ }),
    {
        let mut b = self;
        b.settings.booster_soft_start = values;
        b
    }

    /// Sets the mode byte of gate scanning.
    pub fn gate_scanning(self, value: u8) -> (b: Self)
        ensures
            b@ == (Settings { gate_scanning: value, ..self@ }),
    {
        let mut b = self;
        b.settings.gate_scanning = value;
        b
    }

    /// Sets the border waveform byte.
    pub fn border_waveform(self, value: u8) -> (b: Self)
        ensures
            b@ == (Settings { border_waveform: value, ..self@ }),
    {
        let mut b = self;
        b.settings.border_waveform = value;
        b
    }

    /// Sets the VCOM register value.
    pub fn vcom(self, value: u8) -> (b: Self)
        ensures
            b@ == (Settings { vcom: value, ..self@ }),
    {
        let mut b = self;
        b.settings.vcom = value;
        b
    }

    /// Sets the data entry mode byte.
    pub fn data_entry_mode(self, value: u8) -> (b: Self)
        ensures
            b@ == (Settings { data_entry_mode: value, ..self@ }),
    {
        let mut b = self;
        b.settings.data_entry_mode = value;
        b
    }

    /// Sets the unit of the RAM X address.
    pub fn ram_x_addressing(self, value: RamXAddressing) -> (b: Self)
        ensures
            b@ == (Settings { ram_x_addressing: value, ..self@ }),
    {
        let mut b = self;
        b.settings.ram_x_addressing = value;
        b
    }

    /// Sets whether row 0 of the RAM is the bottom row of the panel.
    pub fn ram_y_inverted(self, value: bool) -> (b: Self)
        ensures
            b@ == (Settings { ram_y_inverted: value, ..self@ }),
    {
        let mut b = self;
        b.settings.ram_y_inverted = value;
        b
    }

    /// Sets the update sequence byte of a full refresh.
    pub fn display_update_ctrl2_full(self, value: u8) -> (b: Self)
        ensures
            b@ == (Settings { display_update_ctrl2_full: value, ..self@ }),
    {
        let mut b = self;
        b.settings.display_update_ctrl2_full = value;
        b
    }

    /// Sets the update sequence byte of a partial refresh.
    pub fn display_update_ctrl2_partial(self, value: u8) -> (b: Self)
        ensures
            b@ == (Settings { display_update_ctrl2_partial: value, ..self@ }),
    {
        let mut b = self;
        b.settings.display_update_ctrl2_partial = value;
        b
    }

    /// Sets the update sequence byte of a fast refresh.
    pub fn display_update_ctrl2_fast(self, value: u8) -> (b: Self)
        ensures
            b@ == (Settings { display_update_ctrl2_fast: value, ..self@ }),
    {
        let mut b = self;
        b.settings.display_update_ctrl2_fast = value;
        b
    }

    /// Sets the bits added to the update sequence byte while the panel is off.
    pub fn display_update_power_on(self, value: u8) -> (b: Self)
        ensures
            b@ == (Settings { display_update_power_on: value, ..self@ }),
    {
        let mut b = self;
        b.settings.display_update_power_on = value;
        b
    }

    /// Sets the bits added to the update sequence byte of a refresh that powers
    /// down.
    pub fn display_update_power_off(self, value: u8) -> (b: Self)
        ensures
            b@ == (Settings { display_update_power_off: value, ..self@ }),
    {
        let mut b = self;
        b.settings.display_update_power_off = value;
        b
    }

    /// Sets the fill byte that clears the black/white plane.
    pub fn clear_bw_value(self, value: u8) -> (b: Self)
        ensures
            b@ == (Settings { clear_bw_value: value, ..self@ }),
    {
        let mut b = self;
        b.settings.clear_bw_value = value;
        b
    }

    /// Sets the fill byte that clears the red plane.
    pub fn clear_red_value(self, value: u8) -> (b: Self)
        ensures
            b@ == (Settings { clear_red_value: value, ..self@ }),
    {
        let mut b = self;
        b.settings.clear_red_value = value;
        b
    }

    /// Sets the temperature sensor selection byte.
    pub fn temp_sensor_control(self, value: u8) -> (b: Self)
        ensures
            b@ == (Settings { temp_sensor_control: value, ..self@ }),
    {
        let mut b = self;
        b.settings.temp_sensor_control = value;
        b
    }

    /// Builds the configuration; fails if no dimensions were given.
    pub fn build(self) -> (r: Result<Config, BuilderError>)
        ensures
            match self@.dimensions {
                Some(d) => r == Ok::<Config, BuilderError>(self@.with_dimensions(d)),
                None => r == Err::<Config, BuilderError>(BuilderError::MissingDimensions),
            },
    {
        let s = self.settings;
        match s.dimensions {
            None => Err(BuilderError::MissingDimensions),
            Some(dimensions) => Ok(
                Config {
                    dimensions,
                    rotation: s.rotation,
                    booster_soft_start: s.booster_soft_start,
                    gate_scanning: s.gate_scanning,
                    border_waveform: s.border_waveform,
                    vcom: s.vcom,
                    data_entry_mode: s.data_entry_mode,
                    ram_x_addressing: s.ram_x_addressing,
                    ram_y_inverted: s.ram_y_inverted,
                    display_update_ctrl2_full: s.display_update_ctrl2_full,
                    display_update_ctrl2_partial: s.display_update_ctrl2_partial,
                    display_update_ctrl2_fast: s.display_update_ctrl2_fast,
                    display_update_power_on: s.display_update_power_on,
                    display_update_power_off: s.display_update_power_off,
                    clear_bw_value: s.clear_bw_value,
                    clear_red_value: s.clear_red_value,
                    temp_sensor_control: s.temp_sensor_control,
                },
            ),
        }
    }
}

} // verus!

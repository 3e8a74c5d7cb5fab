//! The sequences of transfers that make up the driver's operations.
//!
//! Each function here states, transfer by transfer, what an operation of
//! [`Display`](crate::display::Display) sends when the transport accepts
//! all of it.

use vstd::prelude::*;

use crate::command::{
    AUTO_WRITE_BW_RAM, AUTO_WRITE_RED_RAM, BOOSTER_SOFT_START, BORDER_WAVEFORM, CTRL1_BYPASS_RED,
    CTRL1_NORMAL, CTRL2_POWER_DOWN, DATA_ENTRY_MODE, DEEP_SLEEP, DISPLAY_UPDATE_CTRL1,
    DISPLAY_UPDATE_CTRL2, DRIVER_OUTPUT_CONTROL, GATE_VOLTAGE, MASTER_ACTIVATION,
    SET_RAM_X_COUNTER, SET_RAM_X_RANGE, SET_RAM_Y_COUNTER, SET_RAM_Y_RANGE, SOFT_RESET,
    SOURCE_VOLTAGE, TEMP_SENSOR_CONTROL, WRITE_LUT, WRITE_RAM_BW, WRITE_RAM_RED, WRITE_VCOM,
};
use crate::config::Config;
use crate::refresh::{
    explicit_red, plane_control, spec_update_sequence, DeepSleepMode, RedPlan, RefreshMode,
};
use crate::window::{spec_ram_window, Region};

verus! {

/// One operation that the driver has handed to the transport and that the
/// transport has accepted.
pub enum Transfer {
    /// A command byte, sent with the data/command line low.
    Command(u8),
    /// Data bytes, sent with the data/command line high.
    Data(Seq<u8>),
    /// A pulse on the reset line.
    Reset,
    /// A wait that ended with the controller ready.
    Ready,
}

/// A command byte followed by its data bytes.
pub open spec fn register_write(command: u8, data: Seq<u8>) -> Seq<Transfer> {
    seq![Transfer::Command(command), Transfer::Data(data)]
}

/// A 16-bit register value as it is sent: low byte first.
pub open spec fn le_bytes(value: u16) -> Seq<u8> {
    seq![(value % 256) as u8, (value / 256) as u8]
}

/// Programs the addressing window of `region`: the data entry mode, the X
/// window, the Y window, and the two address counters set to the start of
/// the window.
pub open spec fn window_transfers(config: Config, region: Region) -> Seq<Transfer> {
    let w = spec_ram_window(config, region);
    register_write(DATA_ENTRY_MODE, seq![config.data_entry_mode]) + register_write(
        SET_RAM_X_RANGE,
        le_bytes(w.x_start) + le_bytes(w.x_end),
    ) + register_write(SET_RAM_Y_RANGE, le_bytes(w.y_start) + le_bytes(w.y_end)) + register_write(
        SET_RAM_X_COUNTER,
        le_bytes(w.x_start),
    ) + register_write(SET_RAM_Y_COUNTER, le_bytes(w.y_start))
}

/// Triggers a refresh: the plane selection, the update sequence, the
/// activation, and the wait for the controller.
pub open spec fn refresh_transfers(
    config: Config,
    mode: RefreshMode,
    powered: bool,
    turn_off: bool,
    planes_active: bool,
) -> Seq<Transfer> {
    register_write(DISPLAY_UPDATE_CTRL1, seq![plane_control(planes_active)]) + register_write(
        DISPLAY_UPDATE_CTRL2,
        seq![spec_update_sequence(config, mode, powered, turn_off)],
    ) + seq![Transfer::Command(MASTER_ACTIVATION), Transfer::Ready]
}

/// Loads a waveform table, if there is one to load.
pub open spec fn table_transfers(table: Option<Seq<u8>>) -> Seq<Transfer> {
    match table {
        Some(t) => register_write(WRITE_LUT, t),
        None => Seq::empty(),
    }
}

/// The part of an update that ends with the refresh: the waveform table,
/// the window, the black/white plane, the red plane, and the refresh.
///
/// `size` is the number of bytes written to each plane. The red plane gets
/// the red buffer where it asks for red pixels, and the black/white buffer
/// otherwise.
pub open spec fn update_until_refreshed(
    config: Config,
    powered: bool,
    region: Region,
    size: int,
    black: Seq<u8>,
    red: Seq<u8>,
    mode: RefreshMode,
    table: Option<Seq<u8>>,
) -> Seq<Transfer> {
    let plan = RedPlan::of(mode, red);
    let bw = black.subrange(0, size);
    let second = if plan == RedPlan::Explicit {
        red.subrange(0, size)
    } else {
        bw
    };
    table_transfers(table) + window_transfers(config, region) + register_write(WRITE_RAM_BW, bw)
        + register_write(WRITE_RAM_RED, second) + refresh_transfers(
        config,
        mode,
        powered,
        false,
        plan.spec_planes_active(),
    )
}

/// What follows the refresh of an update: where the plan asks for it, the
/// window is programmed again and the black/white buffer is written to the
/// red plane.
pub open spec fn update_resync(
    config: Config,
    region: Region,
    size: int,
    black: Seq<u8>,
    red: Seq<u8>,
    mode: RefreshMode,
) -> Seq<Transfer> {
    if RedPlan::of(mode, red).spec_resync() {
        window_transfers(config, region) + register_write(WRITE_RAM_RED, black.subrange(0, size))
    } else {
        Seq::empty()
    }
}

/// A whole update.
pub open spec fn update_transfers(
    config: Config,
    powered: bool,
    region: Region,
    size: int,
    black: Seq<u8>,
    red: Seq<u8>,
    mode: RefreshMode,
    table: Option<Seq<u8>>,
) -> Seq<Transfer> {
    update_until_refreshed(config, powered, region, size, black, red, mode, table) + update_resync(
        config,
        region,
        size,
        black,
        red,
        mode,
    )
}

/// Fills both planes with their clear values, waiting for the controller
/// after each.
pub open spec fn clear_transfers(config: Config) -> Seq<Transfer> {
    register_write(AUTO_WRITE_BW_RAM, seq![config.clear_bw_value]) + seq![Transfer::Ready]
        + register_write(AUTO_WRITE_RED_RAM, seq![config.clear_red_value]) + seq![Transfer::Ready]
}

/// Writes the panel's settings to the controller and clears its RAM.
pub open spec fn init_transfers(config: Config) -> Seq<Transfer> {
    let last_row = (config.dimensions.rows - 1) as u16;
    register_write(TEMP_SENSOR_CONTROL, seq![config.temp_sensor_control]) + register_write(
        BOOSTER_SOFT_START,
        config.booster_soft_start@,
    ) + register_write(DRIVER_OUTPUT_CONTROL, le_bytes(last_row).push(config.gate_scanning))
        + register_write(BORDER_WAVEFORM, seq![config.border_waveform]) + register_write(
        WRITE_VCOM,
        seq![config.vcom],
    ) + clear_transfers(config)
}

/// Resets the controller by pin and by command, then initialises it.
pub open spec fn reset_transfers(config: Config) -> Seq<Transfer> {
    seq![Transfer::Reset, Transfer::Command(SOFT_RESET), Transfer::Ready] + init_transfers(config)
}

/// Powers the panel down: a refresh cycle without the red plane whose
/// update sequence only switches the panel off.
pub open spec fn power_down_transfers() -> Seq<Transfer> {
    register_write(DISPLAY_UPDATE_CTRL1, seq![CTRL1_BYPASS_RED]) + register_write(
        DISPLAY_UPDATE_CTRL2,
        seq![CTRL2_POWER_DOWN],
    ) + seq![Transfer::Command(MASTER_ACTIVATION), Transfer::Ready]
}

/// Puts the controller to sleep, powering the panel down first if it is on.
pub open spec fn sleep_transfers(powered: bool, mode: DeepSleepMode) -> Seq<Transfer> {
    (if powered {
        power_down_transfers()
    } else {
        Seq::empty()
    }) + register_write(DEEP_SLEEP, seq![mode.spec_selector()])
}

/// Loads a short waveform table and writes the voltages that it leaves out.
pub open spec fn short_table_transfers(
    table: Seq<u8>,
    gate_voltage: u8,
    source_voltage: Seq<u8>,
    vcom: u8,
) -> Seq<Transfer> {
    register_write(WRITE_LUT, table) + register_write(GATE_VOLTAGE, seq![gate_voltage])
        + register_write(SOURCE_VOLTAGE, source_voltage) + register_write(WRITE_VCOM, seq![vcom])
}

/// A fast update without red pixels reads both planes in its refresh and
/// writes the black/white buffer to the red plane twice: before the refresh
/// and, under a freshly programmed window, after it.
pub proof fn lemma_fast_update_without_red(
    config: Config,
    powered: bool,
    region: Region,
    size: int,
    black: Seq<u8>,
    red: Seq<u8>,
    table: Option<Seq<u8>>,
)
    requires
        !explicit_red(red),
    ensures
        update_transfers(config, powered, region, size, black, red, RefreshMode::Fast, table)
            == table_transfers(table) + window_transfers(config, region) + register_write(
            WRITE_RAM_BW,
            black.subrange(0, size),
        ) + register_write(WRITE_RAM_RED, black.subrange(0, size)) + refresh_transfers(
            config,
            RefreshMode::Fast,
            powered,
            false,
            true,
        ) + (window_transfers(config, region) + register_write(
            WRITE_RAM_RED,
            black.subrange(0, size),
        )),
        refresh_transfers(config, RefreshMode::Fast, powered, false, true).subrange(0, 2)
            == register_write(DISPLAY_UPDATE_CTRL1, seq![CTRL1_NORMAL]),
{
    assert(refresh_transfers(config, RefreshMode::Fast, powered, false, true).subrange(0, 2)
        =~= register_write(DISPLAY_UPDATE_CTRL1, seq![CTRL1_NORMAL]));
}

/// A full or partial update without red pixels still writes the
/// black/white buffer to the red plane, but leaves the red plane out of its
/// refresh, and nothing follows the refresh.
pub proof fn lemma_slow_update_without_red(
    config: Config,
    powered: bool,
    region: Region,
    size: int,
    black: Seq<u8>,
    red: Seq<u8>,
    mode: RefreshMode,
    table: Option<Seq<u8>>,
)
    requires
        !explicit_red(red),
        mode != RefreshMode::Fast,
    ensures
        update_transfers(config, powered, region, size, black, red, mode, table)
            == table_transfers(table) + window_transfers(config, region) + register_write(
            WRITE_RAM_BW,
            black.subrange(0, size),
        ) + register_write(WRITE_RAM_RED, black.subrange(0, size)) + refresh_transfers(
            config,
            mode,
            powered,
            false,
            false,
        ),
        refresh_transfers(config, mode, powered, false, false).subrange(0, 2) == register_write(
            DISPLAY_UPDATE_CTRL1,
            seq![CTRL1_BYPASS_RED],
        ),
{
    let until = update_until_refreshed(config, powered, region, size, black, red, mode, table);
    assert(until + Seq::<Transfer>::empty() =~= until);
    assert(refresh_transfers(config, mode, powered, false, false).subrange(0, 2)
        =~= register_write(DISPLAY_UPDATE_CTRL1, seq![CTRL1_BYPASS_RED]));
}

/// An update with red pixels writes the red buffer to the red plane and
/// reads both planes in its refresh, whatever the mode; nothing follows the
/// refresh.
pub proof fn lemma_update_with_red(
    config: Config,
    powered: bool,
    region: Region,
    size: int,
    black: Seq<u8>,
    red: Seq<u8>,
    mode: RefreshMode,
    table: Option<Seq<u8>>,
)
    requires
        explicit_red(red),
    ensures
        update_transfers(config, powered, region, size, black, red, mode, table)
            == table_transfers(table) + window_transfers(config, region) + register_write(
            WRITE_RAM_BW,
            black.subrange(0, size),
        ) + register_write(WRITE_RAM_RED, red.subrange(0, size)) + refresh_transfers(
            config,
            mode,
            powered,
            false,
            true,
        ),
        refresh_transfers(config, mode, powered, false, true).subrange(0, 2) == register_write(
            DISPLAY_UPDATE_CTRL1,
            seq![CTRL1_NORMAL],
        ),
{
    let until = update_until_refreshed(config, powered, region, size, black, red, mode, table);
    assert(until + Seq::<Transfer>::empty() =~= until);
    assert(refresh_transfers(config, mode, powered, false, true).subrange(0, 2)
        =~= register_write(DISPLAY_UPDATE_CTRL1, seq![CTRL1_NORMAL]));
}

/// Whether `after` is `before` followed by a part of `planned` that stops
/// short of its end: the operation was cut off after some of its transfers,
/// with none repeated, left out or taken back.
pub open spec fn cut_short(
    before: Seq<Transfer>,
    planned: Seq<Transfer>,
    after: Seq<Transfer>,
) -> bool {
    let n = after.len() - before.len();
    0 <= n < planned.len() && after == before + planned.take(n)
}

/// An operation whose steps up to `done` went through, with more to come,
/// is cut off if it stops there.
pub proof fn lemma_cut_short_between_steps(
    before: Seq<Transfer>,
    done: Seq<Transfer>,
    rest: Seq<Transfer>,
)
    requires
        rest.len() > 0,
    ensures
        cut_short(before, done + rest, before + done),
{
    assert((done + rest).take(done.len() as int) =~= done);
}

} // verus!

//! The update and refresh engine.
//!
//! A [`Display`] owns a transport and a panel configuration and remembers
//! whether the panel is powered. Its operations hand transfers to the
//! transport, one at a time and in a fixed order; the first one that the
//! transport refuses ends the operation. Arguments are checked before the
//! first transfer, so an operation that is rejected for its arguments has
//! sent nothing.

use vstd::prelude::*;
use vstd::slice::slice_subrange;

use embedded_hal::delay::DelayNs;

use crate::channel::Channel;
use crate::command::{
    CTRL2_POWER_DOWN, DEEP_SLEEP, GATE_VOLTAGE, SOFT_RESET, SOURCE_VOLTAGE, WRITE_LUT,
    WRITE_RAM_BW, WRITE_RAM_RED, WRITE_VCOM,
};
use crate::config::{Config, Dimensions, Rotation};
use crate::error::Error;
use crate::interface::DisplayInterface;
use crate::lut::{builtin_table, LUT_FAST, LUT_PARTIAL, LUT_SHORT_SIZE, LUT_SIZE};
pub use crate::refresh::{DeepSleepMode, RefreshMode};
use crate::refresh::{explicit_red, update_sequence, RedPlan};
use crate::sequence::{
    cut_short, init_transfers, power_down_transfers, refresh_transfers, register_write,
    reset_transfers, short_table_transfers, sleep_transfers, table_transfers, update_resync,
    update_transfers, update_until_refreshed, window_transfers, Transfer,
};
use crate::window::{ram_window, spec_ram_window, RamWindow};
pub use crate::window::Region;

verus! {

/// An update of one area of the panel.
#[derive(Clone, Copy, Debug, PartialEq)]
pub struct UpdateRegion<'a> {
    /// The area.
    pub region: Region,
    /// Black/white plane of the area.
    pub black_buffer: &'a [u8],
    /// Red plane of the area; empty or all zero where the area shows no
    /// red.
    pub red_buffer: &'a [u8],
    /// How to refresh.
    pub mode: RefreshMode,
}

/// Why a waveform table of the wrong length is rejected, if it is.
pub open spec fn table_rejection<I: DisplayInterface>(table: Option<Seq<u8>>) -> Option<Error<I>> {
    match table {
        Some(t) => if t.len() != LUT_SIZE {
            Some(Error::InvalidLutLength { expected: LUT_SIZE, provided: t.len() as usize })
        } else {
            None
        },
        None => None,
    }
}

/// Why the buffers of an update that writes `size` bytes to each plane are
/// rejected, if they are: the black/white buffer is too short, or the red
/// buffer asks for red pixels and is too short.
pub open spec fn buffer_rejection<I: DisplayInterface>(
    size: usize,
    black: Seq<u8>,
    red: Seq<u8>,
) -> Option<Error<I>> {
    if black.len() < size {
        Some(Error::BufferTooSmall { required: size, provided: black.len() as usize })
    } else if explicit_red(red) && red.len() < size {
        Some(Error::BufferTooSmall { required: size, provided: red.len() as usize })
    } else {
        None
    }
}

/// Why an area is rejected on a panel of size `dimensions`, if it is.
pub open spec fn region_rejection<I: DisplayInterface>(
    dimensions: Dimensions,
    region: Region,
) -> Option<Error<I>> {
    if region.fits(dimensions) {
        None
    } else {
        Some(Error::InvalidRamArea { x: region.x, y: region.y, w: region.w, h: region.h })
    }
}

/// Why an update is rejected, if it is. The table that the caller brings,
/// if any, is checked first, then the buffers, then the area.
pub open spec fn update_rejection<I: DisplayInterface>(
    dimensions: Dimensions,
    region: Region,
    size: usize,
    black: Seq<u8>,
    red: Seq<u8>,
    brought: Option<Seq<u8>>,
) -> Option<Error<I>> {
    if table_rejection::<I>(brought) is Some {
        table_rejection::<I>(brought)
    } else if buffer_rejection::<I>(size, black, red) is Some {
        buffer_rejection::<I>(size, black, red)
    } else {
        region_rejection::<I>(dimensions, region)
    }
}

/// The waveform table that an update loads: the one that the caller brings,
/// else the built-in table of the mode if the update is to load one, else
/// none.
pub open spec fn loaded_table(
    mode: RefreshMode,
    use_builtin_lut: bool,
    custom: Option<&[u8]>,
) -> Option<Seq<u8>> {
    match custom {
        Some(t) => Some(t@),
        None => if use_builtin_lut {
            builtin_table(mode)
        } else {
            None
        },
    }
}

/// The table that the caller brings, as the checks see it.
pub open spec fn brought_table(custom: Option<&[u8]>) -> Option<Seq<u8>> {
    match custom {
        Some(t) => Some(t@),
        None => None,
    }
}

/// Driver of one SSD1677 controller.
///
/// The contracts speak of three things: the configuration, whether the
/// panel counts as powered, and the history of transfers that the transport
/// has accepted. The history is ghost state; it is kept beside the
/// transport and grows only where the transport accepts a transfer.
pub struct Display<I: DisplayInterface> {
    channel: Channel<I>,
    config: Config,
    is_display_on: bool,
}

impl<I: DisplayInterface> Display<I> {
    /// Length in bytes of a full waveform table.
    pub const LUT_SIZE: usize = LUT_SIZE;

    /// Length in bytes of a short waveform table.
    pub const LUT_SHORT_SIZE: usize = LUT_SHORT_SIZE;

    /// The transfers that the transport has accepted from this display,
    /// oldest first.
    pub closed spec fn history(&self) -> Seq<Transfer> {
        self.channel.history()
    }

    /// Whether the panel is powered.
    pub closed spec fn powered(&self) -> bool {
        self.is_display_on
    }

    /// The panel configuration.
    pub closed spec fn spec_config(&self) -> Config {
        self.config
    }

    /// The transport.
    pub closed spec fn spec_interface(&self) -> I {
        self.channel.interface()
    }

    /// What an operation that plans to send `planned` leaves behind when
    /// its arguments are in order: all of `planned` on success, and a part
    /// of it that stops short of its end when the transport fails.
    pub open spec fn sent(
        &self,
        before: &Self,
        planned: Seq<Transfer>,
        r: Result<(), Error<I>>,
    ) -> bool {
        &&& self.spec_config() == before.spec_config()
        &&& match r {
            Ok(_) => self.history() == before.history() + planned,
            Err(e) => e is Interface && cut_short(before.history(), planned, self.history()),
        }
    }

    /// A display of the panel that `config` describes, reached through
    /// `interface`. The panel counts as off and nothing has been sent.
    pub fn new(interface: I, config: Config) -> (d: Self)
        ensures
            d.spec_interface() == interface,
            d.spec_config() == config,
            !d.powered(),
            d.history() == Seq::<Transfer>::empty(),
    {
        Display {
            channel: Channel::new(interface),
            config,
            is_display_on: false,
        }
    }

    /// Programs the addressing window of the area with left edge `x`, top
    /// edge `y`, width `w` and height `h`.
    ///
    /// An area that is empty, reaches beyond the panel or does not start
    /// and end on a byte boundary is rejected.
    pub fn set_ram_area(&mut self, x: u16, y: u16, w: u16, h: u16) -> (r: Result<(), Error<I>>)
        ensures
            (Region { x, y, w, h }).fits(old(self).spec_config().dimensions) ==> {
                &&& final(self).sent(
                    old(self),
                    window_transfers(old(self).spec_config(), Region { x, y, w, h }),
                    r,
                )
                &&& final(self).powered() == old(self).powered()
            },
            !(Region { x, y, w, h }).fits(old(self).spec_config().dimensions) ==> {
                &&& r == Err::<(), Error<I>>(Error::InvalidRamArea { x, y, w, h })
                &&& *final(self) == *old(self)
            },
    {
        let region = Region { x, y, w, h };
        match ram_window(&self.config, region) {
            None => Err(Error::InvalidRamArea { x, y, w, h }),
            Some(window) => {
                let ghost before = self.history();
                let ghost all = window_transfers(self.spec_config(), region);
                proof {
                    lemma_whole(before, all);
                }
                self.channel.program_window(
                    &self.config,
                    window,
                    Ghost(region),
                    Ghost(before),
                    Ghost(Seq::empty()),
                    Ghost(Seq::empty()),
                )
            },
        }
    }

    /// The step that refreshes the panel in `mode` and notes the power
    /// state that the refresh leaves.
    fn refresh_with_mode<D: DelayNs>(
        &mut self,
        mode: RefreshMode,
        delay: &mut D,
        turn_off: bool,
        use_red: bool,
        Ghost(before): Ghost<Seq<Transfer>>,
        Ghost(done): Ghost<Seq<Transfer>>,
        Ghost(rest): Ghost<Seq<Transfer>>,
    ) -> (r: Result<(), Error<I>>)
        requires
            old(self).history() == before + done,
        ensures
            final(self).spec_config() == old(self).spec_config(),
            final(self).channel.stepped(
                r,
                before,
                done,
                refresh_transfers(
                    old(self).spec_config(),
                    mode,
                    old(self).powered(),
                    turn_off,
                    use_red,
                ),
                rest,
            ),
            final(self).powered() == if r is Ok {
                !turn_off
            } else {
                old(self).powered()
            },
    {
        let sequence = update_sequence(&self.config, mode, self.is_display_on, turn_off);
        self.channel.trigger(use_red, sequence, delay, Ghost(before), Ghost(done), Ghost(rest))?;
        self.is_display_on = !turn_off;
        Ok(())
    }

    /// Refreshes the panel from the black/white plane with the built-in
    /// waveform.
    pub fn full_refresh<D: DelayNs>(&mut self, delay: &mut D) -> (r: Result<(), Error<I>>)
        ensures
            final(self).sent(
                old(self),
                refresh_transfers(
                    old(self).spec_config(),
                    RefreshMode::Full,
                    old(self).powered(),
                    false,
                    false,
                ),
                r,
            ),
            final(self).powered() == (old(self).powered() || r is Ok),
    {
        let ghost before = self.history();
        proof {
            lemma_whole(
                before,
                refresh_transfers(
                    self.spec_config(),
                    RefreshMode::Full,
                    self.powered(),
                    false,
                    false,
                ),
            );
        }
        self.refresh_with_mode(
            RefreshMode::Full,
            delay,
            false,
            false,
            Ghost(before),
            Ghost(Seq::empty()),
            Ghost(Seq::empty()),
        )
    }

    /// Refreshes the panel from the black/white plane with the fast
    /// waveform.
    pub fn fast_refresh<D: DelayNs>(&mut self, delay: &mut D) -> (r: Result<(), Error<I>>)
        ensures
            final(self).sent(
                old(self),
                refresh_transfers(
                    old(self).spec_config(),
                    RefreshMode::Fast,
                    old(self).powered(),
                    false,
                    false,
                ),
                r,
            ),
            final(self).powered() == (old(self).powered() || r is Ok),
    {
        let ghost before = self.history();
        proof {
            lemma_whole(
                before,
                refresh_transfers(
                    self.spec_config(),
                    RefreshMode::Fast,
                    self.powered(),
                    false,
                    false,
                ),
            );
        }
        self.refresh_with_mode(
            RefreshMode::Fast,
            delay,
            false,
            false,
            Ghost(before),
            Ghost(Seq::empty()),
            Ghost(Seq::empty()),
        )
    }

    /// Resets the controller by pin and by command, writes the panel's
    /// settings and clears the RAM.
    pub fn reset<D: DelayNs>(&mut self, delay: &mut D) -> (r: Result<(), Error<I>>)
        requires
            old(self).spec_config().dimensions.rows >= 1,
        ensures
            final(self).sent(old(self), reset_transfers(old(self).spec_config()), r),
            final(self).powered() == old(self).powered(),
    {
        let ghost before = self.history();
        let ghost s1 = seq![Transfer::Reset];
        let ghost s2 = seq![Transfer::Command(SOFT_RESET)];
        let ghost s3 = seq![Transfer::Ready];
        let ghost s4 = init_transfers(self.spec_config());
        let ghost all = reset_transfers(self.spec_config());
        proof {
            assert(all =~= s1 + s2 + s3 + s4);
            assert(all =~= s1 + s2 + (s3 + s4));
            assert(all =~= s1 + s2 + s3 + s4 + Seq::<Transfer>::empty());
            assert(before.push(Transfer::Reset) =~= before + s1);
        }
        self.channel.reset(delay);
        self.channel.command(SOFT_RESET, Ghost(before), Ghost(s1), Ghost(s3 + s4))?;
        self.channel.wait(delay, Ghost(before), Ghost(s1 + s2), Ghost(s4))?;
        self.channel.init(
            &self.config,
            delay,
            Ghost(before),
            Ghost(s1 + s2 + s3),
            Ghost(Seq::empty()),
        )?;
        Ok(())
    }

    /// Puts the controller to sleep; if the panel is powered, it is powered
    /// down first. Only a reset wakes the controller.
    ///
    /// The panel counts as off once the power-down has gone through.
    pub fn deep_sleep<D: DelayNs>(&mut self, delay: &mut D, mode: DeepSleepMode) -> (r: Result<
        (),
        Error<I>,
    >)
        ensures
            final(self).sent(old(self), sleep_transfers(old(self).powered(), mode), r),
            final(self).powered() == (old(self).powered() && final(self).history().len() < old(
                self,
            ).history().len() + power_down_transfers().len()),
    {
        let selector: [u8; 1] = [mode.selector()];
        let ghost before = self.history();
        let ghost down = power_down_transfers();
        let ghost sleep = register_write(DEEP_SLEEP, selector@);
        proof {
            assert(selector@ =~= seq![mode.spec_selector()]);
            lemma_whole(before, sleep);
            assert(before + Seq::<Transfer>::empty() + down =~= before + down);
            assert(Seq::<Transfer>::empty() + down + sleep =~= down + sleep);
            assert(Seq::<Transfer>::empty() + down =~= down);
            assert(down + sleep + Seq::<Transfer>::empty() =~= down + sleep);
            assert(Seq::<Transfer>::empty() + sleep =~= sleep);
        }
        if self.is_display_on {
            self.channel.trigger(
                false,
                CTRL2_POWER_DOWN,
                delay,
                Ghost(before),
                Ghost(Seq::empty()),
                Ghost(sleep),
            )?;
            self.is_display_on = false;
            self.channel.write(
                DEEP_SLEEP,
                selector.as_slice(),
                Ghost(before),
                Ghost(down),
                Ghost(Seq::empty()),
            )?;
        } else {
            self.channel.write(
                DEEP_SLEEP,
                selector.as_slice(),
                Ghost(before),
                Ghost(Seq::empty()),
                Ghost(Seq::empty()),
            )?;
        }
        Ok(())
    }

    /// Loads a waveform table of [`LUT_SIZE`] bytes.
    pub fn load_lut(&mut self, lut: &[u8]) -> (r: Result<(), Error<I>>)
        ensures
            lut@.len() == LUT_SIZE ==> {
                &&& final(self).sent(old(self), register_write(WRITE_LUT, lut@), r)
                &&& final(self).powered() == old(self).powered()
            },
            lut@.len() != LUT_SIZE ==> {
                &&& r == Err::<(), Error<I>>(
                    Error::InvalidLutLength { expected: LUT_SIZE, provided: lut@.len() as usize },
                )
                &&& *final(self) == *old(self)
            },
    {
        if lut.len() != LUT_SIZE {
            return Err(Error::InvalidLutLength { expected: LUT_SIZE, provided: lut.len() });
        }
        let ghost before = self.history();
        proof {
            lemma_whole(before, register_write(WRITE_LUT, lut@));
        }
        self.channel.write(
            WRITE_LUT,
            lut,
            Ghost(before),
            Ghost(Seq::empty()),
            Ghost(Seq::empty()),
        )
    }

    /// Loads a short waveform table of [`LUT_SHORT_SIZE`] bytes and writes
    /// gate voltage, source voltages and VCOM as well, which the short
    /// form leaves out.
    pub fn load_lut_with_voltages(
        &mut self,
        lut: &[u8],
        gate_voltage: u8,
        source_voltage: [u8; 3],
        vcom: u8,
    ) -> (r: Result<(), Error<I>>)
        ensures
            lut@.len() == LUT_SHORT_SIZE ==> {
                &&& final(self).sent(
                    old(self),
                    short_table_transfers(lut@, gate_voltage, source_voltage@, vcom),
                    r,
                )
                &&& final(self).powered() == old(self).powered()
            },
            lut@.len() != LUT_SHORT_SIZE ==> {
                &&& r == Err::<(), Error<I>>(
                    Error::InvalidLutShortLength {
                        expected: LUT_SHORT_SIZE,
                        provided: lut@.len() as usize,
                    },
                )
                &&& *final(self) == *old(self)
            },
    {
        if lut.len() != LUT_SHORT_SIZE {
            return Err(
                Error::InvalidLutShortLength { expected: LUT_SHORT_SIZE, provided: lut.len() },
            );
        }
        let gate: [u8; 1] = [gate_voltage];
        let common: [u8; 1] = [vcom];
        let ghost before = self.history();
        let ghost s1 = register_write(WRITE_LUT, lut@);
        let ghost s2 = register_write(GATE_VOLTAGE, gate@);
        let ghost s3 = register_write(SOURCE_VOLTAGE, source_voltage@);
        let ghost s4 = register_write(WRITE_VCOM, common@);
        let ghost all = short_table_transfers(lut@, gate_voltage, source_voltage@, vcom);
        let ghost nothing = Seq::<Transfer>::empty();
        proof {
            assert(gate@ =~= seq![gate_voltage]);
            assert(common@ =~= seq![vcom]);
            assert(all == s1 + s2 + s3 + s4);
            assert(before + nothing =~= before);
            assert(all =~= nothing + s1 + (s2 + s3 + s4));
            assert(nothing + s1 =~= s1);
            assert(all =~= s1 + s2 + (s3 + s4));
            assert(all =~= s1 + s2 + s3 + s4 + nothing);
        }
        self.channel.write(WRITE_LUT, lut, Ghost(before), Ghost(nothing), Ghost(s2 + s3 + s4))?;
        self.channel.write(
            GATE_VOLTAGE,
            gate.as_slice(),
            Ghost(before),
            Ghost(s1),
            Ghost(s3 + s4),
        )?;
        self.channel.write(
            SOURCE_VOLTAGE,
            source_voltage.as_slice(),
            Ghost(before),
            Ghost(s1 + s2),
            Ghost(s4),
        )?;
        self.channel.write(
            WRITE_VCOM,
            common.as_slice(),
            Ghost(before),
            Ghost(s1 + s2 + s3),
            Ghost(nothing),
        )?;
        Ok(())
    }

    /// Writes the driving voltage of gate lines.
    pub fn set_gate_voltage(&mut self, voltage: u8) -> (r: Result<(), Error<I>>)
        ensures
            final(self).sent(old(self), register_write(GATE_VOLTAGE, seq![voltage]), r),
            final(self).powered() == old(self).powered(),
    {
        let data: [u8; 1] = [voltage];
        let ghost before = self.history();
        proof {
            assert(data@ =~= seq![voltage]);
            lemma_whole(before, register_write(GATE_VOLTAGE, data@));
        }
        self.channel.write(
            GATE_VOLTAGE,
            data.as_slice(),
            Ghost(before),
            Ghost(Seq::empty()),
            Ghost(Seq::empty()),
        )
    }

    /// Writes the three source driving voltages.
    pub fn set_source_voltage(&mut self, voltages: [u8; 3]) -> (r: Result<(), Error<I>>)
        ensures
            final(self).sent(old(self), register_write(SOURCE_VOLTAGE, voltages@), r),
            final(self).powered() == old(self).powered(),
    {
        let ghost before = self.history();
        proof {
            lemma_whole(before, register_write(SOURCE_VOLTAGE, voltages@));
        }
        self.channel.write(
            SOURCE_VOLTAGE,
            voltages.as_slice(),
            Ghost(before),
            Ghost(Seq::empty()),
            Ghost(Seq::empty()),
        )
    }

    /// Writes the VCOM register.
    pub fn set_vcom(&mut self, vcom: u8) -> (r: Result<(), Error<I>>)
        ensures
            final(self).sent(old(self), register_write(WRITE_VCOM, seq![vcom]), r),
            final(self).powered() == old(self).powered(),
    {
        let data: [u8; 1] = [vcom];
        let ghost before = self.history();
        proof {
            assert(data@ =~= seq![vcom]);
            lemma_whole(before, register_write(WRITE_VCOM, data@));
        }
        self.channel.write(
            WRITE_VCOM,
            data.as_slice(),
            Ghost(before),
            Ghost(Seq::empty()),
            Ghost(Seq::empty()),
        )
    }

    /// What an update of `region` leaves behind, where `before` is the
    /// display before the update, `size` the number of bytes written to
    /// each plane, `table` the waveform table to load and `brought` whether
    /// the caller brings that table.
    ///
    /// A rejected update changes nothing. Otherwise the update sends its
    /// transfers until the end or until the transport fails, and the panel
    /// counts as powered as soon as the refresh has gone through.
    pub open spec fn updated(
        &self,
        before: &Self,
        r: Result<(), Error<I>>,
        region: Region,
        size: usize,
        black: Seq<u8>,
        red: Seq<u8>,
        mode: RefreshMode,
        table: Option<Seq<u8>>,
        brought: bool,
    ) -> bool {
        let config = before.spec_config();
        match update_rejection::<I>(
            config.dimensions,
            region,
            size,
            black,
            red,
            if brought {
                table
            } else {
                None
            },
        ) {
            Some(e) => r == Err::<(), Error<I>>(e) && *self == *before,
            None => {
                &&& self.sent(
                    before,
                    update_transfers(
                        config,
                        before.powered(),
                        region,
                        size as int,
                        black,
                        red,
                        mode,
                        table,
                    ),
                    r,
                )
                &&& self.powered() == (before.powered() || self.history().len()
                    >= before.history().len() + update_until_refreshed(
                    config,
                    before.powered(),
                    region,
                    size as int,
                    black,
                    red,
                    mode,
                    table,
                ).len())
            },
        }
    }

    /// Checks the arguments of an update and, if they are in order, gives
    /// the addressing window and the plan for the red plane.
    fn check_update(
        &self,
        region: Region,
        size: usize,
        black: &[u8],
        red: &[u8],
        mode: RefreshMode,
        custom: Option<&[u8]>,
    ) -> (r: Result<(RamWindow, RedPlan), Error<I>>)
        ensures
            match update_rejection::<I>(
                self.spec_config().dimensions,
                region,
                size,
                black@,
                red@,
                brought_table(custom),
            ) {
                Some(e) => r == Err::<(RamWindow, RedPlan), Error<I>>(e),
                None => r == Ok::<(RamWindow, RedPlan), Error<I>>(
                    (spec_ram_window(self.spec_config(), region), RedPlan::of(mode, red@)),
                ),
            },
    {
        match custom {
            Some(t) => {
                if t.len() != LUT_SIZE {
                    return Err(Error::InvalidLutLength { expected: LUT_SIZE, provided: t.len() });
                }
            },
            None => {},
        }
        let plan = RedPlan::plan(mode, red);
        let explicit = match plan {
            RedPlan::Explicit => true,
            _ => false,
        };
        if black.len() < size {
            return Err(Error::BufferTooSmall { required: size, provided: black.len() });
        }
        if explicit && red.len() < size {
            return Err(Error::BufferTooSmall { required: size, provided: red.len() });
        }
        match ram_window(&self.config, region) {
            Some(window) => Ok((window, plan)),
            None => Err(
                Error::InvalidRamArea { x: region.x, y: region.y, w: region.w, h: region.h },
            ),
        }
    }

    /// The step that loads the waveform table of an update, if it has one.
    fn load_table(
        &mut self,
        mode: RefreshMode,
        use_builtin_lut: bool,
        custom: Option<&[u8]>,
        Ghost(before): Ghost<Seq<Transfer>>,
        Ghost(rest): Ghost<Seq<Transfer>>,
    ) -> (r: Result<(), Error<I>>)
        requires
            old(self).history() == before,
        ensures
            final(self).spec_config() == old(self).spec_config(),
            final(self).powered() == old(self).powered(),
            final(self).channel.stepped(
                r,
                before,
                Seq::empty(),
                table_transfers(loaded_table(mode, use_builtin_lut, custom)),
                rest,
            ),
    {
        let partial: [u8; LUT_SIZE] = LUT_PARTIAL;
        let fast: [u8; LUT_SIZE] = LUT_FAST;
        let ghost nothing = Seq::<Transfer>::empty();
        proof {
            assert(before + nothing =~= before);
            assert(before + (nothing + nothing) =~= before);
        }
        match custom {
            Some(t) => self.channel.write(WRITE_LUT, t, Ghost(before), Ghost(nothing), Ghost(rest)),
            None => {
                if use_builtin_lut {
                    match mode {
                        RefreshMode::Full => Ok(()),
                        RefreshMode::Partial => self.channel.write(
                            WRITE_LUT,
                            partial.as_slice(),
                            Ghost(before),
                            Ghost(nothing),
                            Ghost(rest),
                        ),
                        RefreshMode::Fast => self.channel.write(
                            WRITE_LUT,
                            fast.as_slice(),
                            Ghost(before),
                            Ghost(nothing),
                            Ghost(rest),
                        ),
                    }
                } else {
                    Ok(())
                }
            },
        }
    }

    /// An update whose arguments are in order: the table, the window, the
    /// two planes, the refresh, and what the plan asks for after it.
    fn run_update<D: DelayNs>(
        &mut self,
        region: Region,
        size: usize,
        black: &[u8],
        red: &[u8],
        mode: RefreshMode,
        delay: &mut D,
        use_builtin_lut: bool,
        custom: Option<&[u8]>,
        window: RamWindow,
        plan: RedPlan,
    ) -> (r: Result<(), Error<I>>)
        requires
            size <= black@.len(),
            plan == RedPlan::Explicit ==> size <= red@.len(),
            window == spec_ram_window(old(self).spec_config(), region),
            plan == RedPlan::of(mode, red@),
        ensures
            final(self).sent(
                old(self),
                update_transfers(
                    old(self).spec_config(),
                    old(self).powered(),
                    region,
                    size as int,
                    black@,
                    red@,
                    mode,
                    loaded_table(mode, use_builtin_lut, custom),
                ),
                r,
            ),
            final(self).powered() == (old(self).powered() || final(self).history().len() >= old(
                self,
            ).history().len() + update_until_refreshed(
                old(self).spec_config(),
                old(self).powered(),
                region,
                size as int,
                black@,
                red@,
                mode,
                loaded_table(mode, use_builtin_lut, custom),
            ).len()),
    {
        let explicit = match plan {
            RedPlan::Explicit => true,
            _ => false,
        };
        let bw = slice_subrange(black, 0, size);
        let second = if explicit {
            slice_subrange(red, 0, size)
        } else {
            bw
        };
        let planes_active = plan.planes_active();
        let resync = plan.resync();

        let ghost config = self.spec_config();
        let ghost powered = self.powered();
        let ghost table = loaded_table(mode, use_builtin_lut, custom);
        let ghost before = self.history();
        let ghost nothing = Seq::<Transfer>::empty();
        let ghost s1 = table_transfers(table);
        let ghost s2 = window_transfers(config, region);
        let ghost s3 = register_write(WRITE_RAM_BW, bw@);
        let ghost s4 = register_write(WRITE_RAM_RED, second@);
        let ghost s5 = refresh_transfers(config, mode, powered, false, planes_active);
        let ghost s6 = register_write(WRITE_RAM_RED, bw@);
        let ghost after = if resync {
            s2 + s6
        } else {
            nothing
        };
        let ghost first = s1 + s2 + s3 + s4 + s5;
        let ghost all = first + after;
        proof {
            assert(first == update_until_refreshed(
                config,
                powered,
                region,
                size as int,
                black@,
                red@,
                mode,
                table,
            ));
            assert(after == update_resync(config, region, size as int, black@, red@, mode));
            assert(all == update_transfers(
                config,
                powered,
                region,
                size as int,
                black@,
                red@,
                mode,
                table,
            ));
            lemma_update_steps(s1, s2, s3, s4, s5, s6, after);
        }
        self.load_table(
            mode,
            use_builtin_lut,
            custom,
            Ghost(before),
            Ghost(s2 + s3 + s4 + s5 + after),
        )?;
        self.channel.program_window(
            &self.config,
            window,
            Ghost(region),
            Ghost(before),
            Ghost(s1),
            Ghost(s3 + s4 + s5 + after),
        )?;
        self.channel.write(
            WRITE_RAM_BW,
            bw,
            Ghost(before),
            Ghost(s1 + s2),
            Ghost(s4 + s5 + after),
        )?;
        self.channel.write(
            WRITE_RAM_RED,
            second,
            Ghost(before),
            Ghost(s1 + s2 + s3),
            Ghost(s5 + after),
        )?;
        self.refresh_with_mode(
            mode,
            delay,
            false,
            planes_active,
            Ghost(before),
            Ghost(s1 + s2 + s3 + s4),
            Ghost(after),
        )?;
        if resync {
            self.channel.program_window(
                &self.config,
                window,
                Ghost(region),
                Ghost(before),
                Ghost(first),
                Ghost(s6),
            )?;
            self.channel.write(
                WRITE_RAM_RED,
                bw,
                Ghost(before),
                Ghost(first + s2),
                Ghost(nothing),
            )?;
        }
        Ok(())
    }

    /// An update: the checks first, then the transfers.
    fn update_internal<D: DelayNs>(
        &mut self,
        region: Region,
        size: usize,
        black: &[u8],
        red: &[u8],
        mode: RefreshMode,
        delay: &mut D,
        use_builtin_lut: bool,
        custom: Option<&[u8]>,
    ) -> (r: Result<(), Error<I>>)
        ensures
            final(self).updated(
                old(self),
                r,
                region,
                size,
                black@,
                red@,
                mode,
                loaded_table(mode, use_builtin_lut, custom),
                custom is Some,
            ),
    {
        match self.check_update(region, size, black, red, mode, custom) {
            Err(e) => Err(e),
            Ok((window, plan)) => self.run_update(
                region,
                size,
                black,
                red,
                mode,
                delay,
                use_builtin_lut,
                custom,
                window,
                plan,
            ),
        }
    }

    /// Shows a full frame with a full refresh.
    ///
    /// `black_buffer` holds the black/white plane and `red_buffer` the red
    /// plane; a red buffer that is empty or all zero stands for a frame
    /// without red.
    pub fn update<D: DelayNs>(
        &mut self,
        black_buffer: &[u8],
        red_buffer: &[u8],
        delay: &mut D,
    ) -> (r: Result<(), Error<I>>)
        ensures
            final(self).updated(
                old(self),
                r,
                Region::whole(old(self).spec_config().dimensions),
                old(self).spec_config().dimensions.spec_buffer_size() as usize,
                black_buffer@,
                red_buffer@,
                RefreshMode::Full,
                None,
                false,
            ),
    {
        self.update_with_mode(black_buffer, red_buffer, RefreshMode::Full, delay)
    }

    /// Shows a full frame, refreshing in `mode` with the built-in waveform
    /// table of that mode.
    pub fn update_with_mode<D: DelayNs>(
        &mut self,
        black_buffer: &[u8],
        red_buffer: &[u8],
        mode: RefreshMode,
        delay: &mut D,
    ) -> (r: Result<(), Error<I>>)
        ensures
            final(self).updated(
                old(self),
                r,
                Region::whole(old(self).spec_config().dimensions),
                old(self).spec_config().dimensions.spec_buffer_size() as usize,
                black_buffer@,
                red_buffer@,
                mode,
                builtin_table(mode),
                false,
            ),
    {
        let region = Region::new(0, 0, self.config.dimensions.cols, self.config.dimensions.rows);
        let size = self.config.dimensions.buffer_size();
        self.update_internal(region, size, black_buffer, red_buffer, mode, delay, true, None)
    }

    /// Shows a full frame, refreshing in `mode` with the waveform that the
    /// controller holds: no table is loaded.
    pub fn update_with_mode_no_lut<D: DelayNs>(
        &mut self,
        black_buffer: &[u8],
        red_buffer: &[u8],
        mode: RefreshMode,
        delay: &mut D,
    ) -> (r: Result<(), Error<I>>)
        ensures
            final(self).updated(
                old(self),
                r,
                Region::whole(old(self).spec_config().dimensions),
                old(self).spec_config().dimensions.spec_buffer_size() as usize,
                black_buffer@,
                red_buffer@,
                mode,
                None,
                false,
            ),
    {
        let region = Region::new(0, 0, self.config.dimensions.cols, self.config.dimensions.rows);
        let size = self.config.dimensions.buffer_size();
        self.update_internal(region, size, black_buffer, red_buffer, mode, delay, false, None)
    }

    /// Shows a full frame, refreshing in `mode` with the waveform table
    /// `lut`.
    pub fn update_with_custom_lut<D: DelayNs>(
        &mut self,
        black_buffer: &[u8],
        red_buffer: &[u8],
        mode: RefreshMode,
        lut: &[u8],
        delay: &mut D,
    ) -> (r: Result<(), Error<I>>)
        ensures
            final(self).updated(
                old(self),
                r,
                Region::whole(old(self).spec_config().dimensions),
                old(self).spec_config().dimensions.spec_buffer_size() as usize,
                black_buffer@,
                red_buffer@,
                mode,
                Some(lut@),
                true,
            ),
    {
        let region = Region::new(0, 0, self.config.dimensions.cols, self.config.dimensions.rows);
        let size = self.config.dimensions.buffer_size();
        self.update_internal(
            region,
            size,
            black_buffer,
            red_buffer,
            mode,
            delay,
            false,
            Some(lut),
        )
    }

    /// Shows one area of the panel, refreshing with the built-in waveform
    /// table of the update's mode.
    pub fn update_region<D: DelayNs>(&mut self, update: UpdateRegion<'_>, delay: &mut D) -> (r:
        Result<(), Error<I>>)
        ensures
            final(self).updated(
                old(self),
                r,
                update.region,
                update.region.spec_buffer_size() as usize,
                update.black_buffer@,
                update.red_buffer@,
                update.mode,
                builtin_table(update.mode),
                false,
            ),
    {
        let size = update.region.buffer_size();
        self.update_internal(
            update.region,
            size,
            update.black_buffer,
            update.red_buffer,
            update.mode,
            delay,
            true,
            None,
        )
    }

    /// Shows one area of the panel, refreshing with the waveform that the
    /// controller holds: no table is loaded.
    pub fn update_region_no_lut<D: DelayNs>(
        &mut self,
        update: UpdateRegion<'_>,
        delay: &mut D,
    ) -> (r: Result<(), Error<I>>)
        ensures
            final(self).updated(
                old(self),
                r,
                update.region,
                update.region.spec_buffer_size() as usize,
                update.black_buffer@,
                update.red_buffer@,
                update.mode,
                None,
                false,
            ),
    {
        let size = update.region.buffer_size();
        self.update_internal(
            update.region,
            size,
            update.black_buffer,
            update.red_buffer,
            update.mode,
            delay,
            false,
            None,
        )
    }

    /// Shows one area of the panel, refreshing with the waveform table
    /// `lut`.
    pub fn update_region_with_custom_lut<D: DelayNs>(
        &mut self,
        update: UpdateRegion<'_>,
        lut: &[u8],
        delay: &mut D,
    ) -> (r: Result<(), Error<I>>)
        ensures
            final(self).updated(
                old(self),
                r,
                update.region,
                update.region.spec_buffer_size() as usize,
                update.black_buffer@,
                update.red_buffer@,
                update.mode,
                Some(lut@),
                true,
            ),
    {
        let size = update.region.buffer_size();
        self.update_internal(
            update.region,
            size,
            update.black_buffer,
            update.red_buffer,
            update.mode,
            delay,
            false,
            Some(lut),
        )
    }

    /// The physical size of the panel.
    pub fn dimensions(&self) -> (d: &Dimensions)
        ensures
            *d == self.spec_config().dimensions,
    {
        &self.config.dimensions
    }

    /// The orientation of the drawing surface.
    pub fn rotation(&self) -> (r: Rotation)
        ensures
            r == self.spec_config().rotation,
    {
        self.config.rotation
    }

    /// The panel configuration.
    pub fn config(&self) -> (c: &Config)
        ensures
            *c == self.spec_config(),
    {
        &self.config
    }

    /// The transport.
    pub fn interface(&self) -> (i: &I)
        ensures
            *i == self.spec_interface(),
    {
        self.channel.transport()
    }
}

/// The ways to split an update into what is done, the next step and the
/// rest are ways to write the same sequence.
proof fn lemma_update_steps(
    s1: Seq<Transfer>,
    s2: Seq<Transfer>,
    s3: Seq<Transfer>,
    s4: Seq<Transfer>,
    s5: Seq<Transfer>,
    s6: Seq<Transfer>,
    after: Seq<Transfer>,
)
    ensures
        ({
            let nothing = Seq::<Transfer>::empty();
            let first = s1 + s2 + s3 + s4 + s5;
            let all = first + after;
            &&& nothing + s1 + (s2 + s3 + s4 + s5 + after) == all
            &&& nothing + s1 == s1
            &&& s1 + s2 + (s3 + s4 + s5 + after) == all
            &&& s1 + s2 + s3 + (s4 + s5 + after) == all
            &&& s1 + s2 + s3 + s4 + (s5 + after) == all
            &&& after == s2 + s6 ==> first + s2 + s6 == all && first + s2 + s6 + nothing == all
            &&& after == nothing ==> first == all
        }),
{
    let nothing = Seq::<Transfer>::empty();
    let first = s1 + s2 + s3 + s4 + s5;
    let all = first + after;
    assert(nothing + s1 + (s2 + s3 + s4 + s5 + after) =~= all);
    assert(nothing + s1 =~= s1);
    assert(s1 + s2 + (s3 + s4 + s5 + after) =~= all);
    assert(s1 + s2 + s3 + (s4 + s5 + after) =~= all);
    assert(s1 + s2 + s3 + s4 + (s5 + after) =~= all);
    if after == s2 + s6 {
        assert(first + s2 + s6 =~= all);
        assert(first + s2 + s6 + nothing =~= all);
    }
    if after == nothing {
        assert(first =~= all);
    }
}

/// An operation of a single step has nothing before the step and nothing
/// after it.
proof fn lemma_whole(before: Seq<Transfer>, all: Seq<Transfer>)
    ensures
        before + Seq::<Transfer>::empty() == before,
        Seq::<Transfer>::empty() + all + Seq::<Transfer>::empty() == all,
        Seq::<Transfer>::empty() + all == all,
{
    assert(before + Seq::<Transfer>::empty() =~= before);
    assert(Seq::<Transfer>::empty() + all + Seq::<Transfer>::empty() =~= all);
    assert(Seq::<Transfer>::empty() + all =~= all);
}

} // verus!

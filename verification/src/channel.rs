//! The transport together with the record of what it has accepted.
//!
//! The record is ghost state: it exists for the proofs alone. It grows by
//! one transfer each time the transport accepts one, at the place where the
//! transport's answer comes back, and nowhere else.

use vstd::prelude::*;

use embedded_hal::delay::DelayNs;

use crate::command::{
    AUTO_WRITE_BW_RAM, AUTO_WRITE_RED_RAM, BOOSTER_SOFT_START, BORDER_WAVEFORM, CTRL1_BYPASS_RED,
    CTRL1_NORMAL, DATA_ENTRY_MODE, DISPLAY_UPDATE_CTRL1, DISPLAY_UPDATE_CTRL2,
    DRIVER_OUTPUT_CONTROL, MASTER_ACTIVATION, SET_RAM_X_COUNTER, SET_RAM_X_RANGE,
    SET_RAM_Y_COUNTER, SET_RAM_Y_RANGE, TEMP_SENSOR_CONTROL, WRITE_VCOM,
};
use crate::config::Config;
use crate::error::Error;
use crate::interface::DisplayInterface;
use crate::refresh::plane_control;
use crate::sequence::{
    clear_transfers, cut_short, init_transfers, le_bytes, lemma_cut_short_between_steps,
    register_write, window_transfers, Transfer,
};
use crate::window::{spec_ram_window, RamWindow, Region};

verus! {

/// A transport together with the record of what it has accepted.
///
/// An operation is a sequence of steps. Each step is told where the
/// operation stands: the history `before` the operation, the transfers
/// `done` so far, and the `rest` that follows the step.
pub(crate) struct Channel<I> {
    interface: I,
    log: Ghost<Seq<Transfer>>,
}

impl<I: DisplayInterface> Channel<I> {
    /// A channel through `interface` that has sent nothing yet.
    pub(crate) fn new(interface: I) -> (c: Self)
        ensures
            c.interface() == interface,
            c.history() == Seq::<Transfer>::empty(),
    {
        Channel { interface, log: Ghost(Seq::empty()) }
    }

    /// The transfers that the transport has accepted, oldest first.
    pub(crate) closed spec fn history(&self) -> Seq<Transfer> {
        self.log@
    }

    /// The transport.
    pub(crate) closed spec fn interface(&self) -> I {
        self.interface
    }

    /// The transport.
    pub(crate) fn transport(&self) -> (i: &I)
        ensures
            *i == self.interface(),
    {
        &self.interface
    }

    /// What a step that plans to send `step` leaves behind: all of it on
    /// success, and on failure a part of the operation that stops before
    /// the end of the step.
    pub(crate) open spec fn stepped(
        &self,
        r: Result<(), Error<I>>,
        before: Seq<Transfer>,
        done: Seq<Transfer>,
        step: Seq<Transfer>,
        rest: Seq<Transfer>,
    ) -> bool {
        match r {
            Ok(_) => self.history() == before + (done + step),
            Err(e) => {
                &&& e is Interface
                &&& cut_short(before, done + step + rest, self.history())
                &&& before.len() + done.len() <= self.history().len() < before.len() + done.len()
                    + step.len()
            },
        }
    }

    /// Hands one command byte to the transport and records it if the
    /// transport accepts it.
    fn send_command(&mut self, command: u8) -> (r: Result<(), Error<I>>)
        ensures
            r is Ok ==> final(self).history() == old(self).history().push(
                Transfer::Command(command),
            ),
            r matches Err(e) ==> e is Interface && final(self).history() == old(self).history(),
    {
        match self.interface.send_command(command) {
            Ok(_) => {
                proof {
                    self.log@ = self.log@.push(Transfer::Command(command));
                }
                Ok(())
            },
            Err(e) => Err(Error::Interface(e)),
        }
    }

    /// Hands data bytes to the transport and records them if the transport
    /// accepts them.
    fn send_data(&mut self, data: &[u8]) -> (r: Result<(), Error<I>>)
        ensures
            r is Ok ==> final(self).history() == old(self).history().push(Transfer::Data(data@)),
            r matches Err(e) ==> e is Interface && final(self).history() == old(self).history(),
    {
        match self.interface.send_data(data) {
            Ok(_) => {
                proof {
                    self.log@ = self.log@.push(Transfer::Data(data@));
                }
                Ok(())
            },
            Err(e) => Err(Error::Interface(e)),
        }
    }

    /// Lets the transport wait for the controller and records the wait if
    /// it ends with the controller ready.
    fn busy_wait<D: DelayNs>(&mut self, delay: &mut D) -> (r: Result<(), Error<I>>)
        ensures
            r is Ok ==> final(self).history() == old(self).history().push(Transfer::Ready),
            r matches Err(e) ==> e is Interface && final(self).history() == old(self).history(),
    {
        match self.interface.busy_wait(delay) {
            Ok(_) => {
                proof {
                    self.log@ = self.log@.push(Transfer::Ready);
                }
                Ok(())
            },
            Err(e) => Err(Error::Interface(e)),
        }
    }

    /// Lets the transport pulse the reset line and records the pulse.
    pub(crate) fn reset<D: DelayNs>(&mut self, delay: &mut D)
        ensures
            final(self).history() == old(self).history().push(Transfer::Reset),
    {
        self.interface.reset(delay);
        proof {
            self.log@ = self.log@.push(Transfer::Reset);
        }
    }

    /// The step that writes one register: a command and its data.
    pub(crate) fn write(
        &mut self,
        command: u8,
        data: &[u8],
        Ghost(before): Ghost<Seq<Transfer>>,
        Ghost(done): Ghost<Seq<Transfer>>,
        Ghost(rest): Ghost<Seq<Transfer>>,
    ) -> (r: Result<(), Error<I>>)
        requires
            old(self).history() == before + done,
        ensures
            final(self).stepped(r, before, done, register_write(command, data@), rest),
    {
        let ghost step = register_write(command, data@);
        proof {
            assert(done + step + rest =~= done + (step + rest));
            lemma_cut_short_between_steps(before, done, step + rest);
        }
        self.send_command(command)?;
        proof {
            let first = seq![Transfer::Command(command)];
            let second = seq![Transfer::Data(data@)];
            assert(done + step + rest =~= (done + first) + (second + rest));
            assert(self.history() =~= before + (done + first));
            lemma_cut_short_between_steps(before, done + first, second + rest);
        }
        self.send_data(data)?;
        proof {
            assert(self.history() =~= before + (done + step));
        }
        Ok(())
    }

    /// The step that sends one command without data.
    pub(crate) fn command(
        &mut self,
        command: u8,
        Ghost(before): Ghost<Seq<Transfer>>,
        Ghost(done): Ghost<Seq<Transfer>>,
        Ghost(rest): Ghost<Seq<Transfer>>,
    ) -> (r: Result<(), Error<I>>)
        requires
            old(self).history() == before + done,
        ensures
            final(self).stepped(r, before, done, seq![Transfer::Command(command)], rest),
    {
        let ghost step = seq![Transfer::Command(command)];
        proof {
            assert(done + step + rest =~= done + (step + rest));
            lemma_cut_short_between_steps(before, done, step + rest);
        }
        self.send_command(command)?;
        proof {
            assert(self.history() =~= before + (done + step));
        }
        Ok(())
    }

    /// The step that waits for the controller.
    pub(crate) fn wait<D: DelayNs>(
        &mut self,
        delay: &mut D,
        Ghost(before): Ghost<Seq<Transfer>>,
        Ghost(done): Ghost<Seq<Transfer>>,
        Ghost(rest): Ghost<Seq<Transfer>>,
    ) -> (r: Result<(), Error<I>>)
        requires
            old(self).history() == before + done,
        ensures
            final(self).stepped(r, before, done, seq![Transfer::Ready], rest),
    {
        let ghost step = seq![Transfer::Ready];
        proof {
            assert(done + step + rest =~= done + (step + rest));
            lemma_cut_short_between_steps(before, done, step + rest);
        }
        self.busy_wait(delay)?;
        proof {
            assert(self.history() =~= before + (done + step));
        }
        Ok(())
    }

    /// The step that programs an addressing window.
    pub(crate) fn program_window(
        &mut self,
        config: &Config,
        window: RamWindow,
        Ghost(region): Ghost<Region>,
        Ghost(before): Ghost<Seq<Transfer>>,
        Ghost(done): Ghost<Seq<Transfer>>,
        Ghost(rest): Ghost<Seq<Transfer>>,
    ) -> (r: Result<(), Error<I>>)
        requires
            old(self).history() == before + done,
            window == spec_ram_window(*config, region),
        ensures
            final(self).stepped(r, before, done, window_transfers(*config, region), rest),
    {
        let mode: [u8; 1] = [config.data_entry_mode];
        let x_range: [u8; 4] = [
            (window.x_start % 256) as u8,
            (window.x_start / 256) as u8,
            (window.x_end % 256) as u8,
            (window.x_end / 256) as u8,
        ];
        let y_range: [u8; 4] = [
            (window.y_start % 256) as u8,
            (window.y_start / 256) as u8,
            (window.y_end % 256) as u8,
            (window.y_end / 256) as u8,
        ];
        let x_counter: [u8; 2] = [(window.x_start % 256) as u8, (window.x_start / 256) as u8];
        let y_counter: [u8; 2] = [(window.y_start % 256) as u8, (window.y_start / 256) as u8];
        let ghost s1 = register_write(DATA_ENTRY_MODE, mode@);
        let ghost s2 = register_write(SET_RAM_X_RANGE, x_range@);
        let ghost s3 = register_write(SET_RAM_Y_RANGE, y_range@);
        let ghost s4 = register_write(SET_RAM_X_COUNTER, x_counter@);
        let ghost s5 = register_write(SET_RAM_Y_COUNTER, y_counter@);
        let ghost all = window_transfers(*config, region);
        proof {
            assert(mode@ =~= seq![config.data_entry_mode]);
            assert(x_range@ =~= le_bytes(window.x_start) + le_bytes(window.x_end));
            assert(y_range@ =~= le_bytes(window.y_start) + le_bytes(window.y_end));
            assert(x_counter@ =~= le_bytes(window.x_start));
            assert(y_counter@ =~= le_bytes(window.y_start));
            assert(all == s1 + s2 + s3 + s4 + s5);
            assert(done + all + rest =~= done + s1 + (s2 + s3 + s4 + s5 + rest));
            assert(done + all + rest =~= done + s1 + s2 + (s3 + s4 + s5 + rest));
            assert(done + all + rest =~= done + s1 + s2 + s3 + (s4 + s5 + rest));
            assert(done + all + rest =~= done + s1 + s2 + s3 + s4 + (s5 + rest));
            assert(done + all + rest =~= done + s1 + s2 + s3 + s4 + s5 + rest);
            assert(done + all =~= done + s1 + s2 + s3 + s4 + s5);
        }
        self.write(
            DATA_ENTRY_MODE,
            mode.as_slice(),
            Ghost(before),
            Ghost(done),
            Ghost(s2 + s3 + s4 + s5 + rest),
        )?;
        self.write(
            SET_RAM_X_RANGE,
            x_range.as_slice(),
            Ghost(before),
            Ghost(done + s1),
            Ghost(s3 + s4 + s5 + rest),
        )?;
        self.write(
            SET_RAM_Y_RANGE,
            y_range.as_slice(),
            Ghost(before),
            Ghost(done + s1 + s2),
            Ghost(s4 + s5 + rest),
        )?;
        self.write(
            SET_RAM_X_COUNTER,
            x_counter.as_slice(),
            Ghost(before),
            Ghost(done + s1 + s2 + s3),
            Ghost(s5 + rest),
        )?;
        self.write(
            SET_RAM_Y_COUNTER,
            y_counter.as_slice(),
            Ghost(before),
            Ghost(done + s1 + s2 + s3 + s4),
            Ghost(rest),
        )?;
        Ok(())
    }

    /// The step that fills both planes with their clear values.
    pub(crate) fn clear_ram<D: DelayNs>(
        &mut self,
        config: &Config,
        delay: &mut D,
        Ghost(before): Ghost<Seq<Transfer>>,
        Ghost(done): Ghost<Seq<Transfer>>,
        Ghost(rest): Ghost<Seq<Transfer>>,
    ) -> (r: Result<(), Error<I>>)
        requires
            old(self).history() == before + done,
        ensures
            final(self).stepped(r, before, done, clear_transfers(*config), rest),
    {
        let bw: [u8; 1] = [config.clear_bw_value];
        let red: [u8; 1] = [config.clear_red_value];
        let ghost s1 = register_write(AUTO_WRITE_BW_RAM, bw@);
        let ghost s2 = seq![Transfer::Ready];
        let ghost s3 = register_write(AUTO_WRITE_RED_RAM, red@);
        let ghost all = clear_transfers(*config);
        proof {
            assert(bw@ =~= seq![config.clear_bw_value]);
            assert(red@ =~= seq![config.clear_red_value]);
            assert(all == s1 + s2 + s3 + s2);
            assert(done + all + rest =~= done + s1 + (s2 + s3 + s2 + rest));
            assert(done + all + rest =~= done + s1 + s2 + (s3 + s2 + rest));
            assert(done + all + rest =~= done + s1 + s2 + s3 + (s2 + rest));
            assert(done + all + rest =~= done + s1 + s2 + s3 + s2 + rest);
            assert(done + all =~= done + s1 + s2 + s3 + s2);
        }
        self.write(
            AUTO_WRITE_BW_RAM,
            bw.as_slice(),
            Ghost(before),
            Ghost(done),
            Ghost(s2 + s3 + s2 + rest),
        )?;
        self.wait(delay, Ghost(before), Ghost(done + s1), Ghost(s3 + s2 + rest))?;
        self.write(
            AUTO_WRITE_RED_RAM,
            red.as_slice(),
            Ghost(before),
            Ghost(done + s1 + s2),
            Ghost(s2 + rest),
        )?;
        self.wait(delay, Ghost(before), Ghost(done + s1 + s2 + s3), Ghost(rest))?;
        Ok(())
    }

    /// The step that writes the panel's settings and clears the RAM.
    pub(crate) fn init<D: DelayNs>(
        &mut self,
        config: &Config,
        delay: &mut D,
        Ghost(before): Ghost<Seq<Transfer>>,
        Ghost(done): Ghost<Seq<Transfer>>,
        Ghost(rest): Ghost<Seq<Transfer>>,
    ) -> (r: Result<(), Error<I>>)
        requires
            old(self).history() == before + done,
            config.dimensions.rows >= 1,
        ensures
            final(self).stepped(r, before, done, init_transfers(*config), rest),
    {
        let last_row: u16 = config.dimensions.rows - 1;
        let sensor: [u8; 1] = [config.temp_sensor_control];
        let output: [u8; 3] = [
            (last_row % 256) as u8,
            (last_row / 256) as u8,
            config.gate_scanning,
        ];
        let border: [u8; 1] = [config.border_waveform];
        let vcom: [u8; 1] = [config.vcom];
        let ghost s1 = register_write(TEMP_SENSOR_CONTROL, sensor@);
        let ghost s2 = register_write(BOOSTER_SOFT_START, config.booster_soft_start@);
        let ghost s3 = register_write(DRIVER_OUTPUT_CONTROL, output@);
        let ghost s4 = register_write(BORDER_WAVEFORM, border@);
        let ghost s5 = register_write(WRITE_VCOM, vcom@);
        let ghost s6 = clear_transfers(*config);
        let ghost all = init_transfers(*config);
        proof {
            assert(sensor@ =~= seq![config.temp_sensor_control]);
            assert(output@ =~= le_bytes(last_row).push(config.gate_scanning));
            assert(border@ =~= seq![config.border_waveform]);
            assert(vcom@ =~= seq![config.vcom]);
            assert(all == s1 + s2 + s3 + s4 + s5 + s6);
            assert(done + all + rest =~= done + s1 + (s2 + s3 + s4 + s5 + s6 + rest));
            assert(done + all + rest =~= done + s1 + s2 + (s3 + s4 + s5 + s6 + rest));
            assert(done + all + rest =~= done + s1 + s2 + s3 + (s4 + s5 + s6 + rest));
            assert(done + all + rest =~= done + s1 + s2 + s3 + s4 + (s5 + s6 + rest));
            assert(done + all + rest =~= done + s1 + s2 + s3 + s4 + s5 + (s6 + rest));
            assert(done + all + rest =~= done + s1 + s2 + s3 + s4 + s5 + s6 + rest);
            assert(done + all =~= done + s1 + s2 + s3 + s4 + s5 + s6);
        }
        self.write(
            TEMP_SENSOR_CONTROL,
            sensor.as_slice(),
            Ghost(before),
            Ghost(done),
            Ghost(s2 + s3 + s4 + s5 + s6 + rest),
        )?;
        self.write(
            BOOSTER_SOFT_START,
            config.booster_soft_start.as_slice(),
            Ghost(before),
            Ghost(done + s1),
            Ghost(s3 + s4 + s5 + s6 + rest),
        )?;
        self.write(
            DRIVER_OUTPUT_CONTROL,
            output.as_slice(),
            Ghost(before),
            Ghost(done + s1 + s2),
            Ghost(s4 + s5 + s6 + rest),
        )?;
        self.write(
            BORDER_WAVEFORM,
            border.as_slice(),
            Ghost(before),
            Ghost(done + s1 + s2 + s3),
            Ghost(s5 + s6 + rest),
        )?;
        self.write(
            WRITE_VCOM,
            vcom.as_slice(),
            Ghost(before),
            Ghost(done + s1 + s2 + s3 + s4),
            Ghost(s6 + rest),
        )?;
        self.clear_ram(
            config,
            delay,
            Ghost(before),
            Ghost(done + s1 + s2 + s3 + s4 + s5),
            Ghost(rest),
        )?;
        Ok(())
    }

    /// The step that triggers a refresh with the update sequence byte
    /// `sequence` and waits for its end.
    pub(crate) fn trigger<D: DelayNs>(
        &mut self,
        planes_active: bool,
        sequence: u8,
        delay: &mut D,
        Ghost(before): Ghost<Seq<Transfer>>,
        Ghost(done): Ghost<Seq<Transfer>>,
        Ghost(rest): Ghost<Seq<Transfer>>,
    ) -> (r: Result<(), Error<I>>)
        requires
            old(self).history() == before + done,
        ensures
            final(self).stepped(
                r,
                before,
                done,
                register_write(DISPLAY_UPDATE_CTRL1, seq![plane_control(planes_active)])
                    + register_write(DISPLAY_UPDATE_CTRL2, seq![sequence]) + seq![
                    Transfer::Command(MASTER_ACTIVATION),
                    Transfer::Ready,
                ],
                rest,
            ),
    {
        let planes: [u8; 1] = [
            if planes_active {
                CTRL1_NORMAL
            } else {
                CTRL1_BYPASS_RED
            },
        ];
        let control: [u8; 1] = [sequence];
        let ghost s1 = register_write(DISPLAY_UPDATE_CTRL1, planes@);
        let ghost s2 = register_write(DISPLAY_UPDATE_CTRL2, control@);
        let ghost s3 = seq![Transfer::Command(MASTER_ACTIVATION)];
        let ghost s4 = seq![Transfer::Ready];
        let ghost all = register_write(DISPLAY_UPDATE_CTRL1, seq![plane_control(planes_active)])
            + register_write(DISPLAY_UPDATE_CTRL2, seq![sequence]) + seq![
            Transfer::Command(MASTER_ACTIVATION),
            Transfer::Ready,
        ];
        proof {
            assert(planes@ =~= seq![plane_control(planes_active)]);
            assert(control@ =~= seq![sequence]);
            assert(all =~= s1 + s2 + s3 + s4);
            assert(done + all + rest =~= done + s1 + (s2 + s3 + s4 + rest));
            assert(done + all + rest =~= done + s1 + s2 + (s3 + s4 + rest));
            assert(done + all + rest =~= done + s1 + s2 + s3 + (s4 + rest));
            assert(done + all + rest =~= done + s1 + s2 + s3 + s4 + rest);
            assert(done + all =~= done + s1 + s2 + s3 + s4);
        }
        self.write(
            DISPLAY_UPDATE_CTRL1,
            planes.as_slice(),
            Ghost(before),
            Ghost(done),
            Ghost(s2 + s3 + s4 + rest),
        )?;
        self.write(
            DISPLAY_UPDATE_CTRL2,
            control.as_slice(),
            Ghost(before),
            Ghost(done + s1),
            Ghost(s3 + s4 + rest),
        )?;
        self.command(MASTER_ACTIVATION, Ghost(before), Ghost(done + s1 + s2), Ghost(s4 + rest))?;
        self.wait(delay, Ghost(before), Ghost(done + s1 + s2 + s3), Ghost(rest))?;
        Ok(())
    }
}

} // verus!

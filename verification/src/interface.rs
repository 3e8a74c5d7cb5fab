//! The transport between the driver and the controller.
//!
//! The driver reaches the controller through four operations: send a command
//! byte, send data bytes, pulse the reset line, and wait until the controller
//! reports ready. [`DisplayInterface`] names them.
//!
//! [`Interface`] holds the bus and the three pins of a controller on an SPI
//! bus, together with the rules of the wait. What a bus or a pin is, this
//! crate does not ask: whoever knows their types moves the bytes and reads
//! the busy pin, and [`Interface::poll`] decides after each reading whether
//! the wait goes on.

use vstd::prelude::*;

use embedded_hal::delay::DelayNs;

verus! {

/// The four operations of a transport.
///
/// Nothing is claimed of an implementation here: the driver's contracts say
/// which operations it hands over and in which order, and what it does
/// when one of them fails.
pub trait DisplayInterface {
    /// What the transport reports when an operation fails.
    type Error: core::fmt::Debug;

    /// Sends one command byte with the data/command line low.
    fn send_command(&mut self, command: u8) -> Result<(), Self::Error>;

    /// Sends data bytes with the data/command line high.
    fn send_data(&mut self, data: &[u8]) -> Result<(), Self::Error>;

    /// Pulses the reset line: low, then high, holding each level for at
    /// least 10 ms.
    fn reset<D: DelayNs>(&mut self, delay: &mut D);

    /// Waits until the controller reports ready; fails when it does not do
    /// so in time.
    fn busy_wait<D: DelayNs>(&mut self, delay: &mut D) -> Result<(), Self::Error>;
}

/// What can go wrong between [`Interface`] and the controller.
#[derive(Debug)]
pub enum InterfaceError<SpiErr, PinErr> {
    /// The bus reported an error.
    Spi(SpiErr),
    /// A pin reported an error.
    Pin(PinErr),
    /// The controller did not report ready in time.
    Timeout,
}

/// Default bound of the wait for the controller, in milliseconds.
pub const DEFAULT_BUSY_TIMEOUT_MS: u32 = 30_000;

/// What to do after one reading of the busy pin.
#[derive(Clone, Copy, Debug, PartialEq, Eq, Structural)]
pub enum Poll {
    /// The controller is ready: the wait is over.
    Ready,
    /// The controller is busy: pause for a millisecond and read again.
    Again,
    /// The controller is busy and the time is up: pause for a millisecond
    /// and give up.
    TimedOut,
}

/// The bus and pins that lead to the controller, and the rules of the wait.
pub struct Interface<SPI, DC, RST, BUSY> {
    spi: SPI,
    dc: DC,
    rst: RST,
    busy: BUSY,
    busy_timeout_ms: u32,
    busy_active_high: bool,
}

impl<SPI, DC, RST, BUSY> Interface<SPI, DC, RST, BUSY> {
    /// The bound of the wait, in milliseconds.
    pub closed spec fn spec_busy_timeout(&self) -> u32 {
        self.busy_timeout_ms
    }

    /// Whether a high level on the busy pin means busy.
    pub closed spec fn spec_busy_active_high(&self) -> bool {
        self.busy_active_high
    }

    /// The bus, the data/command pin, the reset pin and the busy pin.
    pub closed spec fn parts(&self) -> (SPI, DC, RST, BUSY) {
        (self.spi, self.dc, self.rst, self.busy)
    }

    /// Largest number of readings of the busy pin in one wait: the bound in
    /// milliseconds, one reading per millisecond. A bound of 0 stands for
    /// the longest wait that can be counted.
    pub open spec fn poll_limit(&self) -> u32 {
        if self.spec_busy_timeout() == 0 {
            u32::MAX
        } else {
            self.spec_busy_timeout()
        }
    }

    /// What follows from the reading number `polls + 1` of the busy pin,
    /// counted from the start of the wait.
    pub open spec fn spec_poll(&self, polls: u32, busy: bool) -> Poll {
        if !busy {
            Poll::Ready
        } else if polls + 1 >= self.poll_limit() {
            Poll::TimedOut
        } else {
            Poll::Again
        }
    }

    /// Takes the bus and the pins; the wait is bounded by
    /// [`DEFAULT_BUSY_TIMEOUT_MS`] and the busy pin is active high.
    pub fn new(spi: SPI, dc: DC, rst: RST, busy: BUSY) -> (r: Self)
        ensures
            r.parts() == (spi, dc, rst, busy),
            r.spec_busy_timeout() == DEFAULT_BUSY_TIMEOUT_MS,
            r.spec_busy_active_high(),
    {
        Interface {
            spi,
            dc,
            rst,
            busy,
            busy_timeout_ms: DEFAULT_BUSY_TIMEOUT_MS,
            busy_active_high: true,
        }
    }

    /// Sets the bound of the wait, in milliseconds.
    pub fn set_busy_timeout(&mut self, timeout_ms: u32) -> (r: &mut Self)
        ensures
            r.spec_busy_timeout() == timeout_ms,
            r.spec_busy_active_high() == old(self).spec_busy_active_high(),
            r.parts() == old(self).parts(),
            *final(self) == *final(r),
    {
        self.busy_timeout_ms = timeout_ms;
        self
    }

    /// The bound of the wait, in milliseconds.
    #[verifier::when_used_as_spec(spec_busy_timeout)]
    pub fn busy_timeout(&self) -> (r: u32)
        ensures
            r == self.spec_busy_timeout(),
    {
        self.busy_timeout_ms
    }

    /// Sets whether a high level on the busy pin means busy.
    pub fn set_busy_active_high(&mut self, active_high: bool) -> (r: &mut Self)
        ensures
            r.spec_busy_active_high() == active_high,
            r.spec_busy_timeout() == old(self).spec_busy_timeout(),
            r.parts() == old(self).parts(),
            *final(self) == *final(r),
    {
        self.busy_active_high = active_high;
        self
    }

    /// Whether a high level on the busy pin means busy.
    #[verifier::when_used_as_spec(spec_busy_active_high)]
    pub fn busy_active_high(&self) -> (r: bool)
        ensures
            r == self.spec_busy_active_high(),
    {
        self.busy_active_high
    }

    /// Decides what follows from one reading of the busy pin. `polls` is the
    /// number of readings made before it in this wait, and `busy` is what
    /// the pin said.
    pub fn poll(&self, polls: u32, busy: bool) -> (r: Poll)
        ensures
            r == self.spec_poll(polls, busy),
    {
        if !busy {
            return Poll::Ready;
        }
        let limit: u32 = if self.busy_timeout_ms == 0 {
            u32::MAX
        } else {
            self.busy_timeout_ms
        };
        if polls >= limit - 1 {
            Poll::TimedOut
        } else {
            Poll::Again
        }
    }

    /// The bus.
    pub fn spi(&mut self) -> (r: &mut SPI)
        ensures
            *r == old(self).parts().0,
            final(self).parts() == (
                *final(r),
                old(self).parts().1,
                old(self).parts().2,
                old(self).parts().3,
            ),
            final(self).spec_busy_timeout() == old(self).spec_busy_timeout(),
            final(self).spec_busy_active_high() == old(self).spec_busy_active_high(),
    {
        &mut self.spi
    }

    /// The data/command pin: low for a command byte, high for data bytes.
    pub fn dc(&mut self) -> (r: &mut DC)
        ensures
            *r == old(self).parts().1,
            final(self).parts() == (
                old(self).parts().0,
                *final(r),
                old(self).parts().2,
                old(self).parts().3,
            ),
            final(self).spec_busy_timeout() == old(self).spec_busy_timeout(),
            final(self).spec_busy_active_high() == old(self).spec_busy_active_high(),
    {
        &mut self.dc
    }

    /// The reset pin, active low.
    pub fn rst(&mut self) -> (r: &mut RST)
        ensures
            *r == old(self).parts().2,
            final(self).parts() == (
                old(self).parts().0,
                old(self).parts().1,
                *final(r),
                old(self).parts().3,
            ),
            final(self).spec_busy_timeout() == old(self).spec_busy_timeout(),
            final(self).spec_busy_active_high() == old(self).spec_busy_active_high(),
    {
        &mut self.rst
    }

    /// The busy pin.
    pub fn busy(&mut self) -> (r: &mut BUSY)
        ensures
            *r == old(self).parts().3,
            final(self).parts() == (
                old(self).parts().0,
                old(self).parts().1,
                old(self).parts().2,
                *final(r),
            ),
            final(self).spec_busy_timeout() == old(self).spec_busy_timeout(),
            final(self).spec_busy_active_high() == old(self).spec_busy_active_high(),
    {
        &mut self.busy
    }
}

} // verus!

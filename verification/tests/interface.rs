use embedded_hal::digital::{ErrorType, InputPin, OutputPin};
use embedded_hal::spi::{ErrorType as SpiErrorType, SpiDevice};
use ssd1677::interface::Poll;
use ssd1677::{Interface, DEFAULT_BUSY_TIMEOUT_MS};

#[derive(Debug)]
struct MockSpi;

#[derive(Debug)]
struct MockPin;

#[derive(Debug, Clone, Copy)]
struct MockError;

impl embedded_hal::digital::Error for MockError {
    fn kind(&self) -> embedded_hal::digital::ErrorKind {
        embedded_hal::digital::ErrorKind::Other
    }
}

impl embedded_hal::spi::Error for MockError {
    fn kind(&self) -> embedded_hal::spi::ErrorKind {
        embedded_hal::spi::ErrorKind::Other
    }
}

impl SpiErrorType for MockSpi {
    type Error = MockError;
}

impl SpiDevice for MockSpi {
    fn transaction(
        &mut self,
        _operations: &mut [embedded_hal::spi::Operation<'_, u8>],
    ) -> Result<(), Self::Error> {
        Ok(())
    }
}

impl ErrorType for MockPin {
    type Error = MockError;
}

impl OutputPin for MockPin {
    fn set_low(&mut self) -> Result<(), Self::Error> {
        Ok(())
    }

    fn set_high(&mut self) -> Result<(), Self::Error> {
        Ok(())
    }
}

impl InputPin for MockPin {
    fn is_high(&mut self) -> Result<bool, Self::Error> {
        Ok(false)
    }

    fn is_low(&mut self) -> Result<bool, Self::Error> {
        Ok(true)
    }
}

#[test]
fn test_default_busy_timeout() {
    assert_eq!(DEFAULT_BUSY_TIMEOUT_MS, 30_000);
}

#[test]
fn test_set_busy_timeout() {
    let mut interface = Interface::new(MockSpi, MockPin, MockPin, MockPin);
    assert_eq!(interface.busy_timeout(), DEFAULT_BUSY_TIMEOUT_MS);

    interface.set_busy_timeout(5_000);
    assert_eq!(interface.busy_timeout(), 5_000);

    interface.set_busy_timeout(0);
    assert_eq!(interface.busy_timeout(), 0);
}

#[test]
fn busy_polarity_is_active_high_until_changed() {
    let mut interface = Interface::new(MockSpi, MockPin, MockPin, MockPin);
    assert!(interface.busy_active_high());
    interface.set_busy_active_high(false);
    assert!(!interface.busy_active_high());
    interface.set_busy_active_high(true).set_busy_timeout(7);
    assert!(interface.busy_active_high());
    assert_eq!(interface.busy_timeout(), 7);
}

#[test]
fn poll_ends_the_wait_when_ready() {
    let interface = Interface::new(MockSpi, MockPin, MockPin, MockPin);
    assert_eq!(interface.poll(0, false), Poll::Ready);
    assert_eq!(interface.poll(29_999, false), Poll::Ready);
    assert_eq!(interface.poll(u32::MAX, false), Poll::Ready);
}

#[test]
fn poll_gives_up_at_the_bound() {
    let mut interface = Interface::new(MockSpi, MockPin, MockPin, MockPin);
    assert_eq!(interface.poll(0, true), Poll::Again);
    assert_eq!(interface.poll(29_998, true), Poll::Again);
    assert_eq!(interface.poll(29_999, true), Poll::TimedOut);

    interface.set_busy_timeout(1);
    assert_eq!(interface.poll(0, true), Poll::TimedOut);

    interface.set_busy_timeout(3);
    assert_eq!(interface.poll(0, true), Poll::Again);
    assert_eq!(interface.poll(1, true), Poll::Again);
    assert_eq!(interface.poll(2, true), Poll::TimedOut);
}

#[test]
fn poll_with_bound_zero_waits_as_long_as_it_can_count() {
    let mut interface = Interface::new(MockSpi, MockPin, MockPin, MockPin);
    interface.set_busy_timeout(0);
    assert_eq!(interface.poll(0, true), Poll::Again);
    assert_eq!(interface.poll(u32::MAX - 2, true), Poll::Again);
    assert_eq!(interface.poll(u32::MAX - 1, true), Poll::TimedOut);
}

#[test]
fn pins_can_be_reached() {
    let mut interface = Interface::new(MockSpi, MockPin, MockPin, MockPin);
    assert!(interface.dc().set_low().is_ok());
    assert!(interface.rst().set_high().is_ok());
    assert_eq!(interface.busy().is_high().unwrap(), false);
    assert!(interface.spi().write(&[1, 2, 3]).is_ok());
}

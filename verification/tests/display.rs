use embedded_hal::delay::DelayNs;
use ssd1677::command::{CTRL1_BYPASS_RED, CTRL1_NORMAL, DISPLAY_UPDATE_CTRL1, WRITE_RAM_RED};
use ssd1677::{
    Builder, DeepSleepMode, Dimensions, Display, DisplayInterface, Error, RefreshMode, Region,
    UpdateRegion,
};

#[derive(Debug)]
struct MockInterface {
    commands: Vec<u8>,
    data: Vec<Vec<u8>>,
    command_data: Vec<(u8, Vec<u8>)>,
    last_command: Option<u8>,
}

impl MockInterface {
    fn new() -> Self {
        Self {
            commands: Vec::new(),
            data: Vec::new(),
            command_data: Vec::new(),
            last_command: None,
        }
    }
}

impl DisplayInterface for MockInterface {
    type Error = core::convert::Infallible;

    fn send_command(&mut self, command: u8) -> Result<(), Self::Error> {
        self.commands.push(command);
        self.last_command = Some(command);
        Ok(())
    }

    fn send_data(&mut self, data: &[u8]) -> Result<(), Self::Error> {
        self.data.push(data.to_vec());
        if let Some(cmd) = self.last_command {
            self.command_data.push((cmd, data.to_vec()));
        }
        Ok(())
    }

    fn reset<D: DelayNs>(&mut self, _delay: &mut D) {}

    fn busy_wait<D: DelayNs>(&mut self, _delay: &mut D) -> Result<(), Self::Error> {
        Ok(())
    }
}

struct MockDelay;

impl DelayNs for MockDelay {
    fn delay_ns(&mut self, _ns: u32) {}
}

fn test_display() -> Display<MockInterface> {
    let interface = MockInterface::new();
    let config = Builder::new()
        .dimensions(Dimensions::new(480, 480).unwrap())
        .build()
        .unwrap();
    Display::new(interface, config)
}

#[test]
fn test_set_ram_area_zero_width_returns_error() {
    let mut display = test_display();
    let result = display.set_ram_area(0, 0, 0, 100);
    assert!(matches!(result, Err(Error::InvalidRamArea { w: 0, .. })));
}

#[test]
fn test_set_ram_area_zero_height_returns_error() {
    let mut display = test_display();
    let result = display.set_ram_area(0, 0, 100, 0);
    assert!(matches!(result, Err(Error::InvalidRamArea { h: 0, .. })));
}

#[test]
fn test_set_ram_area_out_of_bounds_x_returns_error() {
    let mut display = test_display();
    let result = display.set_ram_area(400, 0, 100, 100);
    assert!(matches!(result, Err(Error::InvalidRamArea { .. })));
}

#[test]
fn test_set_ram_area_out_of_bounds_y_returns_error() {
    let mut display = test_display();
    let result = display.set_ram_area(0, 400, 100, 100);
    assert!(matches!(result, Err(Error::InvalidRamArea { .. })));
}

#[test]
fn test_set_ram_area_valid_succeeds() {
    let mut display = test_display();
    let result = display.set_ram_area(0, 0, 480, 480);
    assert!(result.is_ok());
}

#[test]
fn test_load_lut_wrong_length_returns_error() {
    let mut display = test_display();
    let short_lut = [0u8; 50];
    let result = display.load_lut(&short_lut);
    assert!(matches!(
        result,
        Err(Error::InvalidLutLength {
            expected: 112,
            provided: 50
        })
    ));
}

#[test]
fn test_load_lut_too_long_returns_error() {
    let mut display = test_display();
    let long_lut = [0u8; 200];
    let result = display.load_lut(&long_lut);
    assert!(matches!(
        result,
        Err(Error::InvalidLutLength {
            expected: 112,
            provided: 200
        })
    ));
}

#[test]
fn test_load_lut_correct_length_succeeds() {
    let mut display = test_display();
    let lut = [0u8; 112];
    let result = display.load_lut(&lut);
    assert!(result.is_ok());
}

#[test]
fn test_deep_sleep_mode_normal() {
    let mut display = test_display();
    let mut delay = MockDelay;
    let result = display.deep_sleep(&mut delay, DeepSleepMode::Normal);
    assert!(result.is_ok());
    let last_data = display.interface().data.last().unwrap();
    assert_eq!(last_data, &[0x00]);
}

#[test]
fn test_deep_sleep_mode_preserve_ram() {
    let mut display = test_display();
    let mut delay = MockDelay;
    let result = display.deep_sleep(&mut delay, DeepSleepMode::PreserveRam);
    assert!(result.is_ok());
    let last_data = display.interface().data.last().unwrap();
    assert_eq!(last_data, &[0x01]);
}

#[test]
fn test_deep_sleep_mode_preserve_ram_and_analog() {
    let mut display = test_display();
    let mut delay = MockDelay;
    let result = display.deep_sleep(&mut delay, DeepSleepMode::PreserveRamAndAnalog);
    assert!(result.is_ok());
    let last_data = display.interface().data.last().unwrap();
    assert_eq!(last_data, &[0x03]);
}

#[test]
fn test_update_with_mode_full() {
    let mut display = test_display();
    let mut delay = MockDelay;
    let buffer_size = display.dimensions().buffer_size();
    let black_buf = vec![0xFFu8; buffer_size];
    let red_buf = vec![0x00u8; buffer_size];
    let result = display.update_with_mode(&black_buf, &red_buf, RefreshMode::Full, &mut delay);
    assert!(result.is_ok());
}

#[test]
fn test_update_with_mode_fast() {
    let mut display = test_display();
    let mut delay = MockDelay;
    let buffer_size = display.dimensions().buffer_size();
    let black_buf = vec![0xFFu8; buffer_size];
    let red_buf = vec![0x00u8; buffer_size];
    let result = display.update_with_mode(&black_buf, &red_buf, RefreshMode::Fast, &mut delay);
    assert!(result.is_ok());
}

#[test]
fn test_update_with_mode_fast_empty_red_uses_differential_compare() {
    let mut display = test_display();
    let mut delay = MockDelay;
    let buffer_size = display.dimensions().buffer_size();
    let black_buf = vec![0xAAu8; buffer_size];
    let red_buf = vec![0x00u8; buffer_size];

    let result = display.update_with_mode(&black_buf, &red_buf, RefreshMode::Fast, &mut delay);
    assert!(result.is_ok());

    let ctrl1 = display
        .interface()
        .command_data
        .iter()
        .rev()
        .find(|(cmd, _)| *cmd == DISPLAY_UPDATE_CTRL1)
        .map(|(_, data)| data.clone());
    assert_eq!(ctrl1, Some(vec![CTRL1_NORMAL]));
}

#[test]
fn test_update_with_mode_all_zero_red_bypasses_red_plane() {
    let mut display = test_display();
    let mut delay = MockDelay;
    let buffer_size = display.dimensions().buffer_size();
    let black_buf = vec![0xFFu8; buffer_size];
    let red_buf = vec![0x00u8; buffer_size];
    let result = display.update_with_mode(&black_buf, &red_buf, RefreshMode::Full, &mut delay);
    assert!(result.is_ok());

    let ctrl1 = display
        .interface()
        .command_data
        .iter()
        .rev()
        .find(|(cmd, _)| *cmd == DISPLAY_UPDATE_CTRL1)
        .map(|(_, data)| data.clone());

    assert_eq!(ctrl1, Some(vec![CTRL1_BYPASS_RED]));
}

#[test]
fn test_update_with_mode_full_syncs_red_ram_when_red_is_empty() {
    let mut display = test_display();
    let mut delay = MockDelay;
    let buffer_size = display.dimensions().buffer_size();
    let black_buf = vec![0xA5u8; buffer_size];
    let red_buf = vec![0x00u8; buffer_size];

    let result = display.update_with_mode(&black_buf, &red_buf, RefreshMode::Full, &mut delay);
    assert!(result.is_ok());

    let wrote_synced_red = display.interface().command_data.iter().any(|(cmd, data)| {
        *cmd == WRITE_RAM_RED
            && data.len() == black_buf.len()
            && data.first() == black_buf.first()
            && data.last() == black_buf.last()
    });

    assert!(wrote_synced_red);
}

#[test]
fn test_update_with_mode_nonzero_red_uses_red_plane() {
    let mut display = test_display();
    let mut delay = MockDelay;
    let buffer_size = display.dimensions().buffer_size();
    let black_buf = vec![0xFFu8; buffer_size];
    let mut red_buf = vec![0x00u8; buffer_size];
    red_buf[0] = 0x01;

    let result = display.update_with_mode(&black_buf, &red_buf, RefreshMode::Full, &mut delay);
    assert!(result.is_ok());

    let ctrl1 = display
        .interface()
        .command_data
        .iter()
        .rev()
        .find(|(cmd, _)| *cmd == DISPLAY_UPDATE_CTRL1)
        .map(|(_, data)| data.clone());

    assert_eq!(ctrl1, Some(vec![CTRL1_NORMAL]));
}

#[test]
fn test_update_with_mode_partial() {
    let mut display = test_display();
    let mut delay = MockDelay;
    let buffer_size = display.dimensions().buffer_size();
    let black_buf = vec![0xFFu8; buffer_size];
    let red_buf = vec![0x00u8; buffer_size];
    let result = display.update_with_mode(&black_buf, &red_buf, RefreshMode::Partial, &mut delay);
    assert!(result.is_ok());
}

#[test]
fn test_update_region_valid() {
    let mut display = test_display();
    let mut delay = MockDelay;
    let region_size = (80 / 8) * 80;
    let black_buf = vec![0xFFu8; region_size];
    let red_buf = vec![0x00u8; region_size];
    let result = display.update_region(
        UpdateRegion {
            region: Region::new(0, 0, 80, 80),
            black_buffer: &black_buf,
            red_buffer: &red_buf,
            mode: RefreshMode::Fast,
        },
        &mut delay,
    );
    assert!(result.is_ok());
}

#[test]
fn test_update_region_out_of_bounds() {
    let mut display = test_display();
    let mut delay = MockDelay;
    let region_size = (80 / 8) * 80;
    let black_buf = vec![0xFFu8; region_size];
    let red_buf = vec![0x00u8; region_size];
    let result = display.update_region(
        UpdateRegion {
            region: Region::new(450, 0, 80, 80),
            black_buffer: &black_buf,
            red_buffer: &red_buf,
            mode: RefreshMode::Fast,
        },
        &mut delay,
    );
    assert!(matches!(result, Err(Error::InvalidRamArea { .. })));
}

#[test]
fn test_update_region_buffer_too_small() {
    let mut display = test_display();
    let mut delay = MockDelay;
    let black_buf = vec![0xFFu8; 10];
    let red_buf = vec![0x00u8; 10];
    let result = display.update_region(
        UpdateRegion {
            region: Region::new(0, 0, 80, 80),
            black_buffer: &black_buf,
            red_buffer: &red_buf,
            mode: RefreshMode::Fast,
        },
        &mut delay,
    );
    assert!(matches!(result, Err(Error::BufferTooSmall { .. })));
}

#[test]
fn test_fast_refresh() {
    let mut display = test_display();
    let mut delay = MockDelay;
    let result = display.fast_refresh(&mut delay);
    assert!(result.is_ok());
}

#[test]
fn test_refresh_mode_default_is_full() {
    assert_eq!(RefreshMode::default(), RefreshMode::Full);
}

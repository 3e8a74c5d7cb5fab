use embedded_hal::delay::DelayNs;
use ssd1677::rotation::apply_rotation;
use ssd1677::{
    Builder, Color, Dimensions, Display, DisplayInterface, GraphicDisplay, RefreshMode, Rotation,
};

#[derive(Debug)]
struct Sink {
    red_plane: Vec<u8>,
    bw_plane: Vec<u8>,
    last: u8,
}

impl DisplayInterface for Sink {
    type Error = core::convert::Infallible;

    fn send_command(&mut self, command: u8) -> Result<(), Self::Error> {
        self.last = command;
        Ok(())
    }

    fn send_data(&mut self, data: &[u8]) -> Result<(), Self::Error> {
        if self.last == 0x24 {
            self.bw_plane = data.to_vec();
        }
        if self.last == 0x26 {
            self.red_plane = data.to_vec();
        }
        Ok(())
    }

    fn reset<D: DelayNs>(&mut self, _delay: &mut D) {}

    fn busy_wait<D: DelayNs>(&mut self, _delay: &mut D) -> Result<(), Self::Error> {
        Ok(())
    }
}

struct NoDelay;

impl DelayNs for NoDelay {
    fn delay_ns(&mut self, _ns: u32) {}
}

fn canvas(rows: u16, cols: u16, rotation: Rotation) -> GraphicDisplay<Sink> {
    let config = Builder::new()
        .dimensions(Dimensions::new(rows, cols).unwrap())
        .rotation(rotation)
        .build()
        .unwrap();
    let sink = Sink { red_plane: Vec::new(), bw_plane: Vec::new(), last: 0 };
    let display = Display::new(sink, config);
    let size = display.dimensions().buffer_size();
    GraphicDisplay::new(display, vec![0u8; size], vec![0u8; size])
}

const ROTATIONS: [Rotation; 4] =
    [Rotation::Rotate0, Rotation::Rotate90, Rotation::Rotate180, Rotation::Rotate270];

#[test]
fn every_pixel_has_its_own_bit_inside_the_plane() {
    for (width, height) in [(8u32, 1u32), (16, 16), (24, 5), (8, 19), (40, 3)] {
        for rotation in ROTATIONS {
            let (surface_w, surface_h) = match rotation {
                Rotation::Rotate0 | Rotation::Rotate180 => (width, height),
                Rotation::Rotate90 | Rotation::Rotate270 => (height, width),
            };
            let bytes = (width * height / 8) as usize;
            let mut seen = vec![0u8; bytes];
            for y in 0..surface_h {
                for x in 0..surface_w {
                    let (index, mask) = apply_rotation(x, y, width, height, rotation);
                    assert!(index < bytes);
                    assert_eq!(mask.count_ones(), 1);
                    assert_eq!(seen[index] & mask, 0);
                    seen[index] |= mask;
                }
            }
            assert!(seen.iter().all(|b| *b == 0xFF));
        }
    }
}

#[test]
fn corners_of_each_rotation() {
    // 16 wide, 8 high: 2 bytes per row, 16 bytes.
    assert_eq!(apply_rotation(0, 0, 16, 8, Rotation::Rotate0), (0, 0x80));
    assert_eq!(apply_rotation(15, 7, 16, 8, Rotation::Rotate0), (15, 0x01));
    assert_eq!(apply_rotation(9, 3, 16, 8, Rotation::Rotate0), (7, 0x40));
    assert_eq!(apply_rotation(0, 0, 16, 8, Rotation::Rotate180), (15, 0x01));
    assert_eq!(apply_rotation(15, 7, 16, 8, Rotation::Rotate180), (0, 0x80));
    assert_eq!(apply_rotation(0, 0, 16, 8, Rotation::Rotate90), (1, 0x01));
    assert_eq!(apply_rotation(7, 15, 16, 8, Rotation::Rotate90), (14, 0x80));
    assert_eq!(apply_rotation(0, 0, 16, 8, Rotation::Rotate270), (14, 0x80));
    assert_eq!(apply_rotation(7, 15, 16, 8, Rotation::Rotate270), (1, 0x01));
}

#[test]
fn clear_fills_both_planes() {
    let mut g = canvas(8, 16, Rotation::Rotate0);
    g.clear(Color::White);
    assert_eq!(g.black_buffer(), &[0xFF; 16]);
    assert_eq!(g.red_buffer(), &[0x00; 16]);
    g.clear(Color::Red);
    assert_eq!(g.black_buffer(), &[0xFF; 16]);
    assert_eq!(g.red_buffer(), &[0xFF; 16]);
    g.clear(Color::Black);
    assert_eq!(g.black_buffer(), &[0x00; 16]);
    assert_eq!(g.red_buffer(), &[0x00; 16]);
}

#[test]
fn draw_pixel_sets_the_bits_of_the_colour() {
    let mut g = canvas(8, 16, Rotation::Rotate0);
    g.draw_pixel(9, 3, Color::White);
    let mut black = [0u8; 16];
    black[7] = 0x40;
    assert_eq!(g.black_buffer(), &black);
    assert_eq!(g.red_buffer(), &[0u8; 16]);

    g.draw_pixel(10, 3, Color::Red);
    black[7] = 0x60;
    let mut red = [0u8; 16];
    red[7] = 0x20;
    assert_eq!(g.black_buffer(), &black);
    assert_eq!(g.red_buffer(), &red);

    g.draw_pixel(10, 3, Color::White);
    assert_eq!(g.black_buffer(), &black);
    assert_eq!(g.red_buffer(), &[0u8; 16]);

    g.draw_pixel(9, 3, Color::Black);
    black[7] = 0x20;
    assert_eq!(g.black_buffer(), &black);

    g.clear(Color::Red);
    g.draw_pixel(0, 0, Color::Black);
    assert_eq!(g.black_buffer()[0], 0x7F);
    assert_eq!(g.red_buffer()[0], 0x7F);
}

#[test]
fn draw_pixel_follows_the_rotation() {
    let mut g = canvas(16, 16, Rotation::Rotate90);
    g.draw_pixel(0, 0, Color::White);
    assert_eq!(g.black_buffer()[1], 0x01);
    let mut g = canvas(16, 16, Rotation::Rotate270);
    g.draw_pixel(0, 0, Color::White);
    assert_eq!(g.black_buffer()[30], 0x80);
    let mut g = canvas(16, 16, Rotation::Rotate180);
    g.draw_pixel(15, 15, Color::White);
    assert_eq!(g.black_buffer()[0], 0x80);
}

#[test]
fn pixels_off_the_surface_are_left_out() {
    for rotation in ROTATIONS {
        let mut g = canvas(8, 16, rotation);
        let (w, h) = g.size();
        let outside =
            [(-1, 0), (0, -1), (w as i32, 0), (0, h as i32), (i32::MAX, i32::MAX), (i32::MIN, 3)];
        for (x, y) in outside {
            g.draw_pixel(x, y, Color::Red);
        }
        assert_eq!(g.black_buffer(), &[0u8; 16]);
        assert_eq!(g.red_buffer(), &[0u8; 16]);
    }
}

#[test]
fn turned_surface_of_an_oblong_panel_is_drawn_within_the_panel_s_sides() {
    // 16 columns, 8 rows; a quarter turn makes the surface 8 wide, 16 high.
    let mut g = canvas(8, 16, Rotation::Rotate90);
    assert_eq!(g.size(), (8, 16));
    g.draw_pixel(7, 7, Color::White);
    assert_eq!(g.black_buffer()[15], 0x80);
    g.clear(Color::Black);
    g.draw_pixel(0, 8, Color::White);
    assert_eq!(g.black_buffer(), &[0u8; 16]);
}

#[test]
fn graphic_display_sends_its_buffers() {
    let mut g = canvas(8, 16, Rotation::Rotate0);
    g.draw_pixel(0, 0, Color::White);
    g.draw_pixel(15, 7, Color::Red);
    assert!(g.update(&mut NoDelay).is_ok());
    let mut black = vec![0u8; 16];
    black[0] = 0x80;
    black[15] = 0x01;
    let mut red = vec![0u8; 16];
    red[15] = 0x01;
    assert_eq!(g.display().interface().bw_plane, black);
    assert_eq!(g.display().interface().red_plane, red);

    g.clear(Color::White);
    assert!(g.update_with_mode(RefreshMode::Full, &mut NoDelay).is_ok());
    assert_eq!(g.display().interface().bw_plane, vec![0xFF; 16]);
    assert_eq!(g.display().interface().red_plane, vec![0xFF; 16]);

    assert!(g.display_mut().load_lut(&[3; 112]).is_ok());
    assert!(g.update_with_mode(RefreshMode::Fast, &mut NoDelay).is_ok());
    assert_eq!(g.display().interface().last, 0x26);
}

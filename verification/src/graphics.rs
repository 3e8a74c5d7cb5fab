//! A display together with the two pixel buffers that it shows.
//!
//! [`GraphicDisplay`] keeps a black/white plane and a red plane in memory,
//! sets single pixels in them, and sends them to the panel.

use vstd::prelude::*;

use embedded_hal::delay::DelayNs;

use crate::color::Color;
use crate::display::{Display, RefreshMode, Region};
use crate::error::Error;
use crate::interface::DisplayInterface;
use crate::lut::builtin_table;
use crate::rotation::{apply_rotation, bit_mask, byte_index, on_surface};

verus! {

/// The byte `byte` with the bits of `mask` set (`on`) or cleared.
pub open spec fn with_bits(byte: u8, mask: u8, on: bool) -> u8 {
    if on {
        byte | mask
    } else {
        byte & !mask
    }
}

/// A display with its pixel buffers.
pub struct GraphicDisplay<I: DisplayInterface> {
    display: Display<I>,
    black_buffer: Vec<u8>,
    red_buffer: Vec<u8>,
}

impl<I: DisplayInterface> GraphicDisplay<I> {
    /// The display.
    pub closed spec fn spec_display(&self) -> Display<I> {
        self.display
    }

    /// The black/white plane.
    pub closed spec fn black(&self) -> Seq<u8> {
        self.black_buffer@
    }

    /// The red plane.
    pub closed spec fn red(&self) -> Seq<u8> {
        self.red_buffer@
    }

    /// Width and height of the drawing surface.
    pub open spec fn spec_size(&self) -> (u32, u32) {
        let rotated = self.spec_display().spec_config().spec_rotated_dimensions();
        (rotated.cols as u32, rotated.rows as u32)
    }

    /// Index of the byte that holds pixel `(x, y)` of the drawing surface.
    pub open spec fn index_of(&self, x: int, y: int) -> int {
        let config = self.spec_display().spec_config();
        byte_index(
            x as u32,
            y as u32,
            config.dimensions.cols as u32,
            config.dimensions.rows as u32,
            config.rotation,
        )
    }

    /// Mask of the bit that holds pixel `(x, y)` of the drawing surface.
    pub open spec fn mask_of(&self, x: int, y: int) -> u8 {
        bit_mask(x as u32, y as u32, self.spec_display().spec_config().rotation)
    }

    /// Whether pixel `(x, y)` can be drawn: it lies on the drawing surface
    /// and within the panel's width and height, the panel's rows are whole
    /// bytes, and both buffers reach as far as the pixel's byte.
    pub open spec fn drawable(&self, x: int, y: int) -> bool {
        let dimensions = self.spec_display().spec_config().dimensions;
        &&& 0 <= x < self.spec_size().0
        &&& 0 <= y < self.spec_size().1
        &&& x < dimensions.cols
        &&& y < dimensions.rows
        &&& dimensions.cols % 8 == 0
        &&& self.index_of(x, y) < self.black().len()
        &&& self.index_of(x, y) < self.red().len()
    }

    /// Takes a display and its buffers. Each buffer has to hold a plane of
    /// the panel's physical size.
    pub fn new(display: Display<I>, black_buffer: Vec<u8>, red_buffer: Vec<u8>) -> (g: Self)
        requires
            black_buffer@.len() >= display.spec_config().dimensions.spec_buffer_size(),
            red_buffer@.len() >= display.spec_config().dimensions.spec_buffer_size(),
        ensures
            g.spec_display() == display,
            g.black() == black_buffer@,
            g.red() == red_buffer@,
    {
        GraphicDisplay { display, black_buffer, red_buffer }
    }

    /// Takes a display and its buffers, unless a buffer is too short for a
    /// plane of the panel's physical size.
    pub fn try_new(display: Display<I>, black_buffer: Vec<u8>, red_buffer: Vec<u8>) -> (r: Result<
        Self,
        Error<I>,
    >)
        ensures
            ({
                let required = display.spec_config().dimensions.spec_buffer_size();
                if black_buffer@.len() < required {
                    r matches Err(e) && e == Error::<I>::BufferTooSmall {
                        required: required as usize,
                        provided: black_buffer@.len() as usize,
                    }
                } else if red_buffer@.len() < required {
                    r matches Err(e) && e == Error::<I>::BufferTooSmall {
                        required: required as usize,
                        provided: red_buffer@.len() as usize,
                    }
                } else {
                    r matches Ok(g) && g.spec_display() == display && g.black() == black_buffer@
                        && g.red() == red_buffer@
                }
            }),
    {
        let required = display.dimensions().buffer_size();
        if black_buffer.len() < required {
            return Err(Error::BufferTooSmall { required, provided: black_buffer.len() });
        }
        if red_buffer.len() < required {
            return Err(Error::BufferTooSmall { required, provided: red_buffer.len() });
        }
        Ok(GraphicDisplay { display, black_buffer, red_buffer })
    }

    /// Fills both buffers so that every pixel has the colour `color`.
    pub fn clear(&mut self, color: Color)
        ensures
            final(self).spec_display() == old(self).spec_display(),
            final(self).black() == Seq::new(old(self).black().len(), |i: int| color.bw_byte()),
            final(self).red() == Seq::new(old(self).red().len(), |i: int| color.red_byte()),
    {
        let bw = color.bw_byte();
        let red = color.red_byte();
        fill(&mut self.black_buffer, bw);
        fill(&mut self.red_buffer, red);
    }

    /// Shows the buffers with a full refresh.
    pub fn update<D: DelayNs>(&mut self, delay: &mut D) -> (r: Result<(), Error<I>>)
        ensures
            final(self).black() == old(self).black(),
            final(self).red() == old(self).red(),
            final(self).spec_display().updated(
                &old(self).spec_display(),
                r,
                Region::whole(old(self).spec_display().spec_config().dimensions),
                old(self).spec_display().spec_config().dimensions.spec_buffer_size() as usize,
                old(self).black(),
                old(self).red(),
                RefreshMode::Full,
                None,
                false,
            ),
    {
        self.display.update(self.black_buffer.as_slice(), self.red_buffer.as_slice(), delay)
    }

    /// Shows the buffers, refreshing in `mode`.
    pub fn update_with_mode<D: DelayNs>(&mut self, mode: RefreshMode, delay: &mut D) -> (r: Result<
        (),
        Error<I>,
    >)
        ensures
            final(self).black() == old(self).black(),
            final(self).red() == old(self).red(),
            final(self).spec_display().updated(
                &old(self).spec_display(),
                r,
                Region::whole(old(self).spec_display().spec_config().dimensions),
                old(self).spec_display().spec_config().dimensions.spec_buffer_size() as usize,
                old(self).black(),
                old(self).red(),
                mode,
                builtin_table(mode),
                false,
            ),
    {
        self.display.update_with_mode(
            self.black_buffer.as_slice(),
            self.red_buffer.as_slice(),
            mode,
            delay,
        )
    }

    /// The display.
    pub fn display(&self) -> (d: &Display<I>)
        ensures
            *d == self.spec_display(),
    {
        &self.display
    }

    /// The display, for operations that change it.
    pub fn display_mut(&mut self) -> (d: &mut Display<I>)
        ensures
            *d == old(self).spec_display(),
            final(self).spec_display() == *final(d),
            final(self).black() == old(self).black(),
            final(self).red() == old(self).red(),
    {
        &mut self.display
    }

    /// The black/white plane.
    pub fn black_buffer(&self) -> (b: &[u8])
        ensures
            b@ == self.black(),
    {
        self.black_buffer.as_slice()
    }

    /// The red plane.
    pub fn red_buffer(&self) -> (b: &[u8])
        ensures
            b@ == self.red(),
    {
        self.red_buffer.as_slice()
    }

    /// Width and height of the drawing surface: the panel's, exchanged for
    /// a quarter or three-quarter turn.
    pub fn size(&self) -> (s: (u32, u32))
        ensures
            s == self.spec_size(),
    {
        let rotated = self.display.config().rotated_dimensions();
        (rotated.cols as u32, rotated.rows as u32)
    }

    /// Gives pixel `(x, y)` of the drawing surface the colour `color`; a
    /// pixel that cannot be drawn is left out.
    pub fn draw_pixel(&mut self, x: i32, y: i32, color: Color)
        ensures
            final(self).spec_display() == old(self).spec_display(),
            old(self).drawable(x as int, y as int) ==> {
                let i = old(self).index_of(x as int, y as int);
                let mask = old(self).mask_of(x as int, y as int);
                &&& final(self).black() == old(self).black().update(
                    i,
                    with_bits(old(self).black()[i], mask, color.bw_bit()),
                )
                &&& final(self).red() == old(self).red().update(
                    i,
                    with_bits(old(self).red()[i], mask, color.red_bit()),
                )
            },
            !old(self).drawable(x as int, y as int) ==> {
                &&& final(self).black() == old(self).black()
                &&& final(self).red() == old(self).red()
            },
    {
        if x < 0 || y < 0 {
            return;
        }
        let size = self.size();
        let x = x as u32;
        let y = y as u32;
        if x >= size.0 || y >= size.1 {
            return;
        }
        self.set_pixel(x, y, color);
    }

    /// Gives pixel `(x, y)` the colour `color` if it lies within the
    /// panel's width and height and can be drawn.
    fn set_pixel(&mut self, x: u32, y: u32, color: Color)
        requires
            x < old(self).spec_size().0,
            y < old(self).spec_size().1,
        ensures
            final(self).spec_display() == old(self).spec_display(),
            old(self).drawable(x as int, y as int) ==> {
                let i = old(self).index_of(x as int, y as int);
                let mask = old(self).mask_of(x as int, y as int);
                &&& final(self).black() == old(self).black().update(
                    i,
                    with_bits(old(self).black()[i], mask, color.bw_bit()),
                )
                &&& final(self).red() == old(self).red().update(
                    i,
                    with_bits(old(self).red()[i], mask, color.red_bit()),
                )
            },
            !old(self).drawable(x as int, y as int) ==> {
                &&& final(self).black() == old(self).black()
                &&& final(self).red() == old(self).red()
            },
    {
        let dimensions = self.display.dimensions();
        let width = dimensions.cols as u32;
        let height = dimensions.rows as u32;
        if x >= width || y >= height || width % 8 != 0 {
            return;
        }
        let rotation = self.display.rotation();
        assert(on_surface(x, y, width, height, rotation));
        assert((width / 8) * height <= 0xFFFF * 0xFFFF) by (nonlinear_arith)
            requires
                width <= 0xFFFF,
                height <= 0xFFFF,
        ;
        let (index, bit) = apply_rotation(x, y, width, height, rotation);
        if index >= self.black_buffer.len() || index >= self.red_buffer.len() {
            return;
        }
        let black = self.black_buffer[index];
        let red = self.red_buffer[index];
        match color {
            Color::Black => {
                self.black_buffer.set(index, black & !bit);
                self.red_buffer.set(index, red & !bit);
            },
            Color::White => {
                self.black_buffer.set(index, black | bit);
                self.red_buffer.set(index, red & !bit);
            },
            Color::Red => {
                self.black_buffer.set(index, black | bit);
                self.red_buffer.set(index, red | bit);
            },
        }
    }
}

/// Sets every byte of `plane` to `value`.
fn fill(plane: &mut Vec<u8>, value: u8)
    ensures
        final(plane)@ == Seq::new(old(plane)@.len(), |i: int| value),
{
    let mut i: usize = 0;
    while i < plane.len()
        invariant
            i <= plane.len(),
            plane.len() == old(plane)@.len(),
            forall|j: int| 0 <= j < i ==> plane@[j] == value,
        decreases plane.len() - i,
    {
        plane.set(i, value);
        i = i + 1;
    }
    assert(plane@ =~= Seq::new(old(plane)@.len(), |i: int| value));
}

} // verus!

//! The pixel buffer that a render fills.

use vstd::prelude::*;
use vstd::arithmetic::div_mod::{lemma_fundamental_div_mod, lemma_fundamental_div_mod_converse};
use crate::color::Color;

verus! {

/// One cell of the buffer: where it lies and what colour it has.
#[derive(Clone, Copy, Debug, PartialEq, Eq, Structural)]
pub struct Pixel {
    pub x: usize,
    pub y: usize,
    pub color: Color,
}

/// A grid of `width` by `height` pixels, row after row.
#[derive(Clone, Debug)]
pub struct Canvas {
    pub width: usize,
    pub height: usize,
    pub pixels: Vec<Pixel>,
}

/// Why a buffer could not be made.
#[derive(Clone, Copy, Debug, PartialEq, Eq, Structural)]
pub enum CanvasError {
    /// The number of pixels does not fit the machine.
    InvalidDimensions,
}

/// The place of pixel `(x, y)` in a row-major grid lies within the grid.
pub proof fn lemma_index_in_grid(width: int, height: int, x: int, y: int)
    requires
        0 <= x < width,
        0 <= y < height,
    ensures
        0 <= y * width,
        0 <= y * width + x < width * height,
        (y * width + x) % width == x,
        (y * width + x) / width == y,
{
    assert(y * width + x < width * height && y * width >= 0) by (nonlinear_arith)
        requires
            0 <= x < width,
            0 <= y < height,
    {
        assert((y + 1) * width <= height * width);
    }
    assert(y * width + x == width * y + x) by (nonlinear_arith);
    lemma_fundamental_div_mod_converse(y * width + x, width, y, x);
}

impl Canvas {
    /// There is one pixel for every place of the grid, and each knows its
    /// place.
    pub open spec fn wf(&self) -> bool {
        &&& self.pixels@.len() == self.width * self.height
        &&& forall|i: int|
            0 <= i < self.pixels@.len() ==> (#[trigger] self.pixels@[i]).x == i % (self.width as int)
                && self.pixels@[i].y == i / (self.width as int)
    }

    /// The colour at `(x, y)`.
    pub open spec fn spec_pixel_at(&self, x: int, y: int) -> Color {
        self.pixels@[y * self.width + x].color
    }

    /// A black canvas, or an error where `width * height` pixels are more
    /// than the machine can count.
    pub fn new(width: usize, height: usize) -> (r: Result<Canvas, CanvasError>)
        ensures
            match r {
                Ok(c) => {
                    &&& width * height <= usize::MAX
                    &&& c.wf()
                    &&& c.width == width
                    &&& c.height == height
                    &&& forall|i: int| 0 <= i < c.pixels@.len() ==> (#[trigger] c.pixels@[i]).color == Color::spec_black()
                },
                Err(e) => width * height > usize::MAX,
            },
    {
        match width.checked_mul(height) {
            None => Err(CanvasError::InvalidDimensions),
            Some(n) => {
                let mut pixels: Vec<Pixel> = Vec::new();
                let mut i: usize = 0;
                while i < n
                    invariant
                        i <= n == width * height,
                        pixels@.len() == i,
                        forall|j: int|
                            0 <= j < i ==> (#[trigger] pixels@[j]).x == j % (width as int) && pixels@[j].y == j / (
                            width as int) && pixels@[j].color == Color::spec_black(),
                    decreases n - i,
                {
                    assert(width > 0) by (nonlinear_arith)
                        requires
                            i < width * height,
                    ;
                    pixels.push(Pixel { x: i % width, y: i / width, color: Color::black() });
                    i += 1;
                }
                Ok(Canvas { width, height, pixels })
            },
        }
    }

    pub fn get_width(&self) -> (n: usize)
        ensures
            n == self.width,
    {
        self.width
    }

    pub fn get_height(&self) -> (n: usize)
        ensures
            n == self.height,
    {
        self.height
    }

    pub fn get_pixels(&self) -> (p: &Vec<Pixel>)
        ensures
            p@ == self.pixels@,
    {
        &self.pixels
    }

    pub fn get_pixels_mut(&mut self) -> (p: &mut Vec<Pixel>)
        ensures
            p@ == old(self).pixels@,
            final(self).pixels@ == final(p)@,
            final(self).width == old(self).width,
            final(self).height == old(self).height,
    {
        &mut self.pixels
    }

    /// Sets the colour at `(x, y)`.
    pub fn write_pixel(&mut self, x: usize, y: usize, color: Color)
        requires
            old(self).wf(),
            x < old(self).width,
            y < old(self).height,
        ensures
            final(self).wf(),
            final(self).width == old(self).width,
            final(self).height == old(self).height,
            final(self).pixels@ == old(self).pixels@.update(y * old(self).width + x, Pixel { x, y, color }),
            final(self).spec_pixel_at(x as int, y as int) == color,
    {
        let n = self.pixels.len();
        proof {
            lemma_index_in_grid(self.width as int, self.height as int, x as int, y as int);
            assert(y * self.width + x < n);
        }
        let i = y * self.width + x;
        self.pixels.set(i, Pixel { x, y, color });
    }

    /// The colour at `(x, y)`.
    pub fn pixel_at(&self, x: usize, y: usize) -> (c: Color)
        requires
            self.wf(),
            x < self.width,
            y < self.height,
        ensures
            c == self.spec_pixel_at(x as int, y as int),
    {
        let n = self.pixels.len();
        proof {
            lemma_index_in_grid(self.width as int, self.height as int, x as int, y as int);
            assert(y * self.width + x < n);
        }
        self.pixels[y * self.width + x].color
    }
}

/// In a well-formed canvas the pixel at place `i` says truly where it lies.
pub proof fn lemma_pixel_place(c: Canvas, i: int)
    requires
        c.wf(),
        0 <= i < c.pixels@.len(),
    ensures
        0 <= c.pixels@[i].x < c.width,
        0 <= c.pixels@[i].y < c.height,
        c.pixels@[i].y * c.width + c.pixels@[i].x == i,
{
    let w = c.width as int;
    let h = c.height as int;
    assert(w > 0) by (nonlinear_arith)
        requires
            i < w * h,
            0 <= i,
            0 <= h,
    ;
    lemma_fundamental_div_mod(i, w);
    assert(0 <= i % w < w);
    assert(i / w < h) by (nonlinear_arith)
        requires
            i == w * (i / w) + i % w,
            0 <= i % w,
            i < w * h,
            w > 0,
    ;
    assert(0 <= i / w) by (nonlinear_arith)
        requires
            i == w * (i / w) + i % w,
            i % w < w,
            0 <= i,
            w > 0,
    ;
    assert((i / w) * w == w * (i / w)) by (nonlinear_arith);
}

} // verus!

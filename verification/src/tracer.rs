//! The image buffer engine: a `width * height` image of interleaved RGB
//! bytes that can be resized and filled with a vertical gradient.

use crate::clock::{elapsed_since, FrameTime};
use crate::color::Color;
use crate::math::Ratio;
use std::time::Instant;
use vstd::prelude::*;

verus! {

/// Gray level of the colour at the top of the gradient.
pub const GRADIENT_TOP: u8 = 0;

/// Gray level of the colour at the bottom of the gradient.
pub const GRADIENT_BOTTOM: u8 = 255;

/// The value of every channel of a pixel that has not been drawn.
pub const BLANK: u8 = 255;

/// Why an operation on a tracer was refused.
#[derive(Clone, Copy, Debug, PartialEq, Eq, Structural)]
pub enum TracerError {
    /// A requested width or height was less than 1.
    InvalidSize,
}

impl TracerError {
    /// The text of the error.
    pub open spec fn text(self) -> Seq<char> {
        "Failed to resize tracer; size must be greater than zero!"@
    }

    /// The error in words.
    pub fn message(&self) -> (message: String)
        ensures
            message@ == self.text(),
    {
        "Failed to resize tracer; size must be greater than zero!".to_owned()
    }
}

/// `len` bytes of blank image.
pub open spec fn blank_pixels(len: nat) -> Seq<u8> {
    Seq::new(len, |i: int| BLANK)
}

/// `pixels` cut or extended to `len` bytes: the bytes that fit are kept in
/// place, and every byte beyond them is blank.
pub open spec fn resized_pixels(pixels: Seq<u8>, len: nat) -> Seq<u8> {
    Seq::new(
        len,
        |i: int|
            if i < pixels.len() {
                pixels[i]
            } else {
                BLANK
            },
    )
}

/// The colour of row `row` of a gradient that is `height` rows tall: the top
/// colour interpolated with the bottom colour at `row / height`.
pub open spec fn gradient_row(height: nat, row: nat) -> Color {
    (Color { r: GRADIENT_TOP, g: GRADIENT_TOP, b: GRADIENT_TOP, a: 1 }).lerp_value(
        Color { r: GRADIENT_BOTTOM, g: GRADIENT_BOTTOM, b: GRADIENT_BOTTOM, a: 1 },
        Ratio { num: row as i64, den: height as u64 },
    )
}

/// The bytes of a `width * height` gradient: rows from top to bottom, pixels
/// from left to right, three bytes (red, green, blue) per pixel.
pub open spec fn gradient(width: nat, height: nat) -> Seq<u8> {
    Seq::new(
        width * height * 3,
        |i: int| gradient_row(height, ((i / 3) / (width as int)) as nat).channels()[i % 3],
    )
}

/// What a tracer holds, as mathematical values.
pub struct TracerView {
    pub width: nat,
    pub height: nat,
    pub pixels: Seq<u8>,
    pub frame_time: FrameTime,
}

impl TracerView {
    /// Both dimensions are positive, the buffer holds three bytes for each
    /// pixel, and the frame time is a well-formed span.
    pub open spec fn wf(self) -> bool {
        &&& self.width >= 1
        &&& self.height >= 1
        &&& self.pixels.len() == self.width * self.height * 3
        &&& self.frame_time.wf()
    }

    /// A fresh image: blank, with no frame drawn yet.
    pub open spec fn blank(width: nat, height: nat) -> TracerView {
        TracerView {
            width,
            height,
            pixels: blank_pixels(width * height * 3),
            frame_time: FrameTime::zero(),
        }
    }

    /// The state after a resize to `width * height`. The buffer is cut or
    /// extended as a flat sequence of bytes, so the bytes that are kept hold
    /// what they held, whatever pixel they now belong to.
    pub open spec fn resized(self, width: nat, height: nat) -> TracerView {
        TracerView {
            width,
            height,
            pixels: resized_pixels(self.pixels, width * height * 3),
            frame_time: self.frame_time,
        }
    }
}

/// The image buffer engine.
pub struct Tracer {
    width: usize,
    height: usize,
    image_buffer: Vec<u8>,
    frame_time: FrameTime,
}

impl View for Tracer {
    type V = TracerView;

    closed spec fn view(&self) -> TracerView {
        TracerView {
            width: self.width as nat,
            height: self.height as nat,
            pixels: self.image_buffer@,
            frame_time: self.frame_time,
        }
    }
}

/// Dimensions whose image fits in memory are themselves small enough for
/// the casts and products that the tracer makes.
proof fn lemma_dimensions_bounded(width: nat, height: nat)
    requires
        width >= 1,
        height >= 1,
        width * height * 3 <= usize::MAX,
    ensures
        width * height <= usize::MAX,
        3 * width <= usize::MAX,
        3 * height <= usize::MAX,
        height <= i64::MAX,
        width <= i64::MAX,
{
    assert(width * height >= width && width * height >= height) by (nonlinear_arith)
        requires
            width >= 1,
            height >= 1,
    ;
}

/// The pixel in row `row` and column `col` lies inside the image, and its
/// index gives the row back.
proof fn lemma_pixel_position(width: int, height: int, row: int, col: int)
    requires
        0 <= row < height,
        0 <= col < width,
    ensures
        0 <= row * width <= row * width + col < width * height,
        (row * width + col) / width == row,
{
    assert(0 <= row * width <= row * width + col < width * height) by (nonlinear_arith)
        requires
            0 <= row < height,
            0 <= col < width,
    ;
    vstd::arithmetic::div_mod::lemma_fundamental_div_mod_converse(
        row * width + col,
        width,
        row,
        col,
    );
}

/// Every byte of the gradient is the gray level of the top colour. The rows
/// are interpolated by the reversed formula, which moves a row away from the
/// bottom colour as the row number grows; from a top colour of 0 that leads
/// below zero, where the byte is held at 0.
pub proof fn lemma_gradient_is_top_colour(width: nat, height: nat)
    requires
        width >= 1,
        height >= 1,
        width * height * 3 <= usize::MAX,
    ensures
        gradient(width, height) == Seq::new(width * height * 3, |i: int| GRADIENT_TOP),
{
    lemma_dimensions_bounded(width, height);
    assert forall|i: int| 0 <= i < width * height * 3 implies gradient(width, height)[i]
        == GRADIENT_TOP by {
        let row = (i / 3) / (width as int);
        assert(0 <= row <= i / 3) by (nonlinear_arith)
            requires
                row == (i / 3) / (width as int),
                0 <= i / 3,
                width >= 1,
        ;
    }
}

/// Resizing to one size, then to another, then back to the first gives an
/// image of the first size. Of its bytes, those that stayed in the buffer
/// through all three steps hold what they held at the start, drawn or not;
/// all others are blank.
pub proof fn lemma_resize_round_trip_keeps(
    state: TracerView,
    w1: nat,
    h1: nat,
    w2: nat,
    h2: nat,
)
    requires
        w1 >= 1 && h1 >= 1,
        w2 >= 1 && h2 >= 1,
    ensures
        ({
            let back = state.resized(w1, h1).resized(w2, h2).resized(w1, h1);
            &&& back.width == w1
            &&& back.height == h1
            &&& back.frame_time == state.frame_time
            &&& back.pixels.len() == w1 * h1 * 3
            &&& forall|i: int|
                0 <= i < w1 * h1 * 3 ==> back.pixels[i] == (if i < state.pixels.len() && i < w2
                    * h2 * 3 {
                    state.pixels[i]
                } else {
                    BLANK
                })
        }),
{
}

/// Resizing to one size, then to another, then back to the first gives an
/// image of the first size that is blank throughout, provided that the bytes
/// which stay in the buffer through all three steps were blank at the start.
pub proof fn lemma_resize_round_trip(state: TracerView, w1: nat, h1: nat, w2: nat, h2: nat)
    requires
        w1 >= 1 && h1 >= 1,
        w2 >= 1 && h2 >= 1,
        forall|i: int|
            0 <= i < state.pixels.len() && i < w1 * h1 * 3 && i < w2 * h2 * 3 ==> state.pixels[i]
                == BLANK,
    ensures
        ({
            let back = state.resized(w1, h1).resized(w2, h2).resized(w1, h1);
            &&& back.width == w1
            &&& back.height == h1
            &&& back.pixels.len() == w1 * h1 * 3
            &&& back.pixels == blank_pixels(w1 * h1 * 3)
        }),
{
}

impl Tracer {
    /// The invariant of a tracer: its view is well formed.
    pub open spec fn wf(&self) -> bool {
        self@.wf()
    }

    /// A blank `width * height` image.
    pub fn new(width: usize, height: usize) -> (tracer: Tracer)
        requires
            width >= 1,
            height >= 1,
            width * height * 3 <= usize::MAX,
        ensures
            tracer.wf(),
            tracer@ == TracerView::blank(width as nat, height as nat),
            tracer@.pixels.len() == width * height * 3,
            forall|i: int| 0 <= i < tracer@.pixels.len() ==> tracer@.pixels[i] == 255,
    {
        proof {
            lemma_dimensions_bounded(width as nat, height as nat);
        }
        let tracer = Tracer {
            width,
            height,
            image_buffer: vec![BLANK; width * height * 3],
            frame_time: FrameTime { secs: 0, subsec_nanos: 0 },
        };
        assert(tracer@.pixels =~= blank_pixels((width * height * 3) as nat));
        tracer
    }

    /// Changes the dimensions of the image to `width * height`, or refuses
    /// when either is zero and leaves the tracer as it was.
    ///
    /// The buffer is cut or extended to the new number of bytes; bytes that
    /// are added are blank. A resize to the current dimensions changes
    /// nothing.
    pub fn resize(&mut self, width: usize, height: usize) -> (result: Result<(), TracerError>)
        requires
            old(self).wf(),
            width * height * 3 <= usize::MAX,
        ensures
            final(self).wf(),
            width < 1 || height < 1 ==> result == Err::<(), TracerError>(TracerError::InvalidSize)
                && final(self)@ == old(self)@,
            width >= 1 && height >= 1 ==> result == Ok::<(), TracerError>(())
                && final(self)@ == old(self)@.resized(width as nat, height as nat),
            result is Ok ==> final(self)@.width == width && final(self)@.height == height
                && final(self)@.pixels.len() == width * height * 3,
    {
        if width < 1 || height < 1 {
            return Err(TracerError::InvalidSize);
        }
        proof {
            lemma_dimensions_bounded(width as nat, height as nat);
        }
        if self.width != width || self.height != height {
            self.width = width;
            self.height = height;
            self.image_buffer.resize(width * height * 3, BLANK);
        }
        assert(self@.pixels =~= resized_pixels(old(self)@.pixels, (width * height * 3) as nat));
        Ok(())
    }

    /// Fills the image with the gradient and records how long that took.
    pub fn trace(&mut self)
        requires
            old(self).wf(),
        ensures
            final(self).wf(),
            final(self)@.width == old(self)@.width,
            final(self)@.height == old(self)@.height,
            final(self)@.pixels == gradient(old(self)@.width, old(self)@.height),
    {
        let start = Instant::now();
        self.draw_gradient();
        self.frame_time = elapsed_since(&start);
    }

    /// Fills the image with the gradient: every pixel of a row gets the
    /// colour of that row, in all three channels.
    pub fn draw_gradient(&mut self)
        requires
            old(self).wf(),
        ensures
            final(self).wf(),
            final(self)@.width == old(self)@.width,
            final(self)@.height == old(self)@.height,
            final(self)@.frame_time == old(self)@.frame_time,
            final(self)@.pixels == gradient(old(self)@.width, old(self)@.height),
    {
        let width = self.width;
        let height = self.height;
        let ghost target = gradient(width as nat, height as nat);
        proof {
            self.lemma_buffer_fits();
            lemma_dimensions_bounded(width as nat, height as nat);
        }
        let mut row: usize = 0;
        while row < height
            invariant
                self.wf(),
                self.width == width,
                self.height == height,
                self.frame_time == old(self).frame_time,
                target == gradient(width as nat, height as nat),
                width * height * 3 <= usize::MAX,
                row <= height <= i64::MAX,
                forall|i: int|
                    0 <= i < row * width * 3 && i < target.len() ==> self.image_buffer@[i]
                        == target[i],
            decreases height - row,
        {
            let top = Color::from_rgb(GRADIENT_TOP, GRADIENT_TOP, GRADIENT_TOP);
            let bottom = Color::from_rgb(GRADIENT_BOTTOM, GRADIENT_BOTTOM, GRADIENT_BOTTOM);
            let color = top.lerp(bottom, Ratio { num: row as i64, den: height as u64 });
            let mut col: usize = 0;
            while col < width
                invariant
                    self.wf(),
                    self.width == width,
                    self.height == height,
                    self.frame_time == old(self).frame_time,
                    target == gradient(width as nat, height as nat),
                    width * height * 3 <= usize::MAX,
                    row < height,
                    col <= width,
                    color == gradient_row(height as nat, row as nat),
                    forall|i: int|
                        0 <= i < (row * width + col) * 3 && i < target.len()
                            ==> self.image_buffer@[i] == target[i],
                decreases width - col,
            {
                proof {
                    lemma_pixel_position(width as int, height as int, row as int, col as int);
                }
                let base = (row * width + col) * 3;
                self.image_buffer.set(base, color.r);
                self.image_buffer.set(base + 1, color.g);
                self.image_buffer.set(base + 2, color.b);
                col += 1;
            }
            assert((row * width + width) * 3 == (row + 1) * width * 3) by (nonlinear_arith);
            row += 1;
        }
    }

    /// The length of a buffer is a `usize`, so the image fits in one.
    proof fn lemma_buffer_fits(&self)
        requires
            self.wf(),
        ensures
            self.width * self.height * 3 <= usize::MAX,
    {
        assert(self.image_buffer@.len() == self.image_buffer.len());
    }

    /// The bytes of the image: rows from top to bottom, three bytes (red,
    /// green, blue) per pixel.
    pub fn image_buffer(&self) -> (bytes: &[u8])
        ensures
            bytes@ == self@.pixels,
    {
        self.image_buffer.as_slice()
    }

    /// The number of pixels in a row.
    pub fn width(&self) -> (width: usize)
        ensures
            width == self@.width,
    {
        self.width
    }

    /// The number of rows.
    pub fn height(&self) -> (height: usize)
        ensures
            height == self@.height,
    {
        self.height
    }

    /// The width of the image over its height.
    pub fn aspect_ratio(&self) -> (ratio: Ratio)
        requires
            self.wf(),
        ensures
            ratio.wf(),
            ratio.num == self@.width,
            ratio.den == self@.height,
    {
        proof {
            self.lemma_buffer_fits();
            lemma_dimensions_bounded(self.width as nat, self.height as nat);
        }
        Ratio { num: self.width as i64, den: self.height as u64 }
    }

    /// How long the last call of `trace` took to draw; zero before the first.
    pub fn frame_time(&self) -> (frame_time: FrameTime)
        ensures
            frame_time == self@.frame_time,
    {
        self.frame_time
    }
}

} // verus!

//! The pixel buffer that every stage of a conversion reads.

use vstd::prelude::*;
use vstd::string::*;
use crate::color::Color;
use crate::text::{decimal, push_decimal};

verus! {

/// The color of pixel `i` of a byte sequence that holds four bytes per pixel,
/// in the order red, green, blue, alpha.
pub open spec fn color_at(pixels: Seq<u8>, i: int) -> Color {
    Color { r: pixels[4 * i], g: pixels[4 * i + 1], b: pixels[4 * i + 2], a: pixels[4 * i + 3] }
}

/// A raster image: `width * height` pixels, row by row, four bytes each.
#[derive(Debug, Clone)]
pub struct PixelBuffer {
    pub pixels: Vec<u8>,
    pub width: usize,
    pub height: usize,
}

proof fn lemma_pixel_index(width: int, height: int, x: int, y: int)
    requires
        0 <= x < width,
        0 <= y < height,
    ensures
        0 <= y * width <= y * width + x < width * height,
        4 * (y * width + x) + 3 < width * height * 4,
        width * height <= width * height * 4,
{
    assert(y * width + x < width * height) by (nonlinear_arith)
        requires
            0 <= x < width,
            0 <= y < height,
    ;
    assert(0 <= y * width) by (nonlinear_arith)
        requires
            0 <= y,
            0 <= width,
    ;
}

impl PixelBuffer {
    /// The byte count matches the dimensions.
    pub open spec fn wf(&self) -> bool {
        self.pixels@.len() == self.width * self.height * 4
    }

    /// Number of pixels.
    pub open spec fn area(&self) -> nat {
        (self.width * self.height) as nat
    }

    /// A buffer without pixels.
    pub open spec fn is_empty(&self) -> bool {
        self.width == 0 || self.height == 0
    }

    /// The color of the pixel in column `x` of row `y`.
    pub open spec fn pixel(&self, x: int, y: int) -> Color {
        color_at(self.pixels@, y * self.width + x)
    }

    /// Whether `pixels` has the length that the dimensions call for.
    pub fn fits(width: usize, height: usize, len: usize) -> (ok: bool)
        ensures
            ok == (len == width * height * 4),
    {
        match width.checked_mul(height) {
            None => {
                assert(width * height * 4 > usize::MAX) by (nonlinear_arith)
                    requires
                        width * height > usize::MAX,
                ;
                false
            },
            Some(area) => match area.checked_mul(4) {
                None => false,
                Some(bytes) => len == bytes,
            },
        }
    }

    /// Builds a buffer, or returns `None` when the byte count does not match
    /// the dimensions.
    pub fn new(width: usize, height: usize, pixels: Vec<u8>) -> (buffer: Option<PixelBuffer>)
        ensures
            buffer is Some <==> pixels@.len() == width * height * 4,
            buffer matches Some(b) ==> b.wf() && b.width == width && b.height == height
                && b.pixels@ == pixels@,
    {
        if Self::fits(width, height, pixels.len()) {
            Some(PixelBuffer { pixels, width, height })
        } else {
            None
        }
    }

    /// Whether the byte count matches the dimensions.
    pub fn is_well_formed(&self) -> (ok: bool)
        ensures
            ok == self.wf(),
    {
        Self::fits(self.width, self.height, self.pixels.len())
    }

    /// Number of pixels of a well-formed buffer.
    pub fn pixel_count(&self) -> (n: usize)
        requires
            self.wf(),
        ensures
            n == self.area(),
            n == self.pixels@.len() / 4,
    {
        self.pixels.len() / 4
    }

    /// The color of the pixel in column `x` of row `y`.
    pub fn get_pixel(&self, x: usize, y: usize) -> (c: Color)
        requires
            self.wf(),
            x < self.width,
            y < self.height,
        ensures
            c == self.pixel(x as int, y as int),
    {
        proof {
            lemma_pixel_index(self.width as int, self.height as int, x as int, y as int);
        }
        let len = self.pixels.len();
        let index = (y * self.width + x) * 4;
        Color {
            r: self.pixels[index],
            g: self.pixels[index + 1],
            b: self.pixels[index + 2],
            a: self.pixels[index + 3],
        }
    }
}

/// The bytes of a list of pixels, four for each pixel.
pub open spec fn flattened(pixels: Seq<(u8, u8, u8, u8)>) -> Seq<u8> {
    Seq::new(
        4 * pixels.len(),
        |j: int|
            if j % 4 == 0 {
                pixels[j / 4].0
            } else if j % 4 == 1 {
                pixels[j / 4].1
            } else if j % 4 == 2 {
                pixels[j / 4].2
            } else {
                pixels[j / 4].3
            },
    )
}

/// The text of the failure when a list of pixels does not have as many
/// pixels as the size calls for.
pub open spec fn size_mismatch_message(width: nat, height: nat, given: nat) -> Seq<char> {
    "Length of rgba_pixels does not match given image size. Expected "@ + decimal(width * height)
        + " ("@ + decimal(width) + " * "@ + decimal(height) + "), got "@ + decimal(given)
        + ". "@
}

/// Builds a buffer of `size.0` by `size.1` pixels from a list of pixels. The
/// list is turned down when it does not have that many pixels.
pub fn pixels_to_buffer(rgba_pixels: &Vec<(u8, u8, u8, u8)>, size: (usize, usize)) -> (buffer:
    Result<PixelBuffer, String>)
    ensures
        match buffer {
            Ok(b) => {
                &&& rgba_pixels@.len() == size.0 * size.1
                &&& b.wf()
                &&& b.width == size.0
                &&& b.height == size.1
                &&& b.pixels@ == flattened(rgba_pixels@)
            },
            Err(message) => {
                &&& rgba_pixels@.len() != size.0 * size.1
                &&& message@ == size_mismatch_message(
                    size.0 as nat,
                    size.1 as nat,
                    rgba_pixels@.len(),
                )
            },
        },
{
    assert(size.0 * size.1 <= u64::MAX * u64::MAX) by (nonlinear_arith)
        requires
            size.0 <= u64::MAX,
            size.1 <= u64::MAX,
    ;
    let expected: u128 = (size.0 as u128) * (size.1 as u128);
    let given = rgba_pixels.len();
    if given as u128 != expected {
        let mut message = String::from_str(
            "Length of rgba_pixels does not match given image size. Expected ",
        );
        push_decimal(&mut message, expected);
        message.append(" (");
        push_decimal(&mut message, size.0 as u128);
        message.append(" * ");
        push_decimal(&mut message, size.1 as u128);
        message.append("), got ");
        push_decimal(&mut message, given as u128);
        message.append(". ");
        return Err(message);
    }
    let mut pixels: Vec<u8> = Vec::new();
    let mut i: usize = 0;
    while i < given
        invariant
            given == rgba_pixels@.len(),
            i <= given,
            pixels@ == flattened(rgba_pixels@.subrange(0, i as int)),
        decreases given - i,
    {
        let (r, g, b, a) = rgba_pixels[i];
        pixels.push(r);
        pixels.push(g);
        pixels.push(b);
        pixels.push(a);
        i = i + 1;
    }
    Ok(PixelBuffer { pixels, width: size.0, height: size.1 })
}

} // verus!

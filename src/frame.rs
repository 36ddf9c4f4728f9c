//! The picture the PPU draws into: 256 x 240 RGBA pixels held in an
//! `image::ImageBuffer`.

use image::{ImageBuffer, Rgba};
use vstd::prelude::*;

verus! {

pub const VISIBLE_WIDTH: usize = 256;

pub const VISIBLE_HEIGHT: usize = 240;

/// Bytes in a frame: four channels per pixel.
pub const FRAME_LEN: usize = 256 * 240 * 4;

/// The bytes of the frame, row by row, four per pixel in RGBA order.
pub uninterp spec fn frame_contents(f: Frame) -> Seq<u8>;

/// `s` with the four bytes of pixel (`x`, `y`) replaced by `rgba`.
pub open spec fn with_pixel(s: Seq<u8>, x: int, y: int, rgba: Seq<u8>) -> Seq<u8> {
    let base = (y * VISIBLE_WIDTH + x) * 4;
    Seq::new(
        s.len(),
        |i: int|
            if base <= i < base + 4 {
                rgba[i - base]
            } else {
                s[i]
            },
    )
}

/// An RGBA image buffer of the visible frame size. The buffer is held
/// behind this type because Verus cannot declare `ImageBuffer` itself: its
/// `P: Pixel` bound names a trait of the image crate.
#[verifier::external_body]
pub struct Frame {
    pixels: ImageBuffer<Rgba<u8>, Vec<u8>>,
}

impl Frame {
    /// Relies on `ImageBuffer::new`: a zero-filled buffer of width x height x 4 bytes.
    #[verifier::external_body]
    pub fn new() -> (r: Frame)
        ensures
            frame_contents(r) == Seq::new(FRAME_LEN as nat, |i: int| 0u8),
    {
        Frame { pixels: ImageBuffer::new(VISIBLE_WIDTH as u32, VISIBLE_HEIGHT as u32) }
    }

    /// Relies on `ImageBuffer::put_pixel`: it overwrites the four bytes at
    /// `(y * width + x) * 4` and panics outside the image.
    #[verifier::external_body]
    pub fn put_pixel(&mut self, x: u32, y: u32, rgba: [u8; 4])
        requires
            x < VISIBLE_WIDTH,
            y < VISIBLE_HEIGHT,
        ensures
            frame_contents(*final(self)) == with_pixel(
                frame_contents(*old(self)),
                x as int,
                y as int,
                rgba@,
            ),
    {
        self.pixels.put_pixel(x, y, Rgba(rgba))
    }

    /// Relies on `ImageBuffer::as_raw`: the buffer's bytes as stored.
    #[verifier::external_body]
    pub fn to_raw(&self) -> (r: Vec<u8>)
        ensures
            r@ == frame_contents(*self),
    {
        self.pixels.as_raw().clone()
    }
}

} // verus!

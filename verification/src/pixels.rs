//! Decoded images: RGBA bytes with their dimensions.

use vstd::prelude::*;

verus! {

/// An image as a mathematical value: its dimensions and its bytes, four per
/// pixel (red, green, blue, alpha, not premultiplied), row by row from the top.
pub struct Pixels {
    pub width: nat,
    pub height: nat,
    pub rgba: Seq<u8>,
}

/// A decoded image. It always holds four bytes for each of its
/// `width * height` pixels.
pub struct PixelBuffer {
    width: u32,
    height: u32,
    rgba: Vec<u8>,
}

impl View for PixelBuffer {
    type V = Pixels;

    closed spec fn view(&self) -> Pixels {
        Pixels { width: self.width as nat, height: self.height as nat, rgba: self.rgba@ }
    }
}

/// What decoding `bytes` as an image gives, as width, height and RGBA bytes,
/// or `None` where the bytes are no image in a format that the decoder knows.
/// It stands for `image::load_from_memory` followed by
/// `DynamicImage::to_rgba8`.
pub uninterp spec fn rgba_decoding(bytes: Seq<u8>) -> Option<(u32, u32, Seq<u8>)>;

/// The image that `bytes` decode to, where the decoder yields one whose byte
/// count fits its dimensions.
pub open spec fn decoded_pixels(bytes: Seq<u8>) -> Option<Pixels> {
    match rgba_decoding(bytes) {
        Some((width, height, rgba)) => if rgba.len() == 4 * width * height {
            Some(Pixels { width: width as nat, height: height as nat, rgba })
        } else {
            None
        },
        None => None,
    }
}

/// `image::load_from_memory`, which guesses the format from the bytes and
/// decodes them, then `DynamicImage::to_rgba8`, `width`, `height` and
/// `into_vec` to take the result apart. The decoder reads nothing but its
/// argument, so the result is named `rgba_decoding(bytes)`; an error of the
/// decoder is reported as `None`.
#[verifier::external_body]
fn decode_rgba(bytes: &[u8]) -> (decoded: Option<(u32, u32, Vec<u8>)>)
    ensures
        decoded matches Some(d) ==> rgba_decoding(bytes@) == Some((d.0, d.1, d.2@)),
        decoded is None ==> rgba_decoding(bytes@) is None,
{
    let rgba = image::load_from_memory(bytes).ok()?.to_rgba8();
    Some((rgba.width(), rgba.height(), rgba.into_vec()))
}

impl PixelBuffer {
    /// Four bytes per pixel.
    #[verifier::type_invariant]
    pub closed spec fn wf(self) -> bool {
        self.rgba@.len() == 4 * self.width * self.height
    }

    /// The buffer of `width * height` pixels held in `rgba`, if `rgba` has
    /// exactly four bytes for each of them.
    pub fn new(width: u32, height: u32, rgba: Vec<u8>) -> (buffer: Option<PixelBuffer>)
        ensures
            match buffer {
                Some(b) => rgba@.len() == 4 * width * height && b@ == (Pixels {
                    width: width as nat,
                    height: height as nat,
                    rgba: rgba@,
                }) && b.wf(),
                None => rgba@.len() != 4 * width * height,
            },
    {
        assert(0 <= width * height <= 0xffff_ffff * 0xffff_ffff && 4 * width * height == 4 * (width
            * height)) by (nonlinear_arith)
            requires
                0 <= width <= 0xffff_ffff,
                0 <= height <= 0xffff_ffff,
        ;
        let area: u64 = (width as u64) * (height as u64);
        let wanted: u128 = 4 * (area as u128);
        if rgba.len() as u128 == wanted {
            Some(PixelBuffer { width, height, rgba })
        } else {
            None
        }
    }

    /// Decodes `bytes` as an image, whatever its format.
    pub fn decode(bytes: &[u8]) -> (buffer: Option<PixelBuffer>)
        ensures
            match buffer {
                Some(b) => decoded_pixels(bytes@) == Some(b@) && b.wf(),
                None => decoded_pixels(bytes@) is None,
            },
    {
        match decode_rgba(bytes) {
            Some((width, height, rgba)) => PixelBuffer::new(width, height, rgba),
            None => None,
        }
    }

    pub fn width(&self) -> (width: u32)
        ensures
            width == self@.width,
    {
        self.width
    }

    pub fn height(&self) -> (height: u32)
        ensures
            height == self@.height,
    {
        self.height
    }

    /// The RGBA bytes, four per pixel.
    pub fn rgba(&self) -> (rgba: &Vec<u8>)
        ensures
            rgba@ == self@.rgba,
            rgba@.len() == 4 * self@.width * self@.height,
    {
        proof {
            use_type_invariant(self);
        }
        &self.rgba
    }
}

} // verus!

//! The decoded-image model and its canonical 8-bit RGBA form.

use vstd::prelude::*;
use crate::error::ConvertError;

verus! {

/// The pixel payload of a decoded image, one variant per supported color
/// representation.
///
/// Channel values are stored in row-major order, top row first, with the
/// channels of one pixel adjacent. `Paletted` holds one palette index per
/// pixel together with a palette of four-byte RGBA entries.
#[derive(Debug)]
pub enum PixelData {
    /// One 8-bit luminance value per pixel.
    Gray8(Vec<u8>),
    /// One 16-bit luminance value per pixel.
    Gray16(Vec<u16>),
    /// 8-bit luminance and alpha per pixel.
    GrayAlpha8(Vec<u8>),
    /// 16-bit luminance and alpha per pixel.
    GrayAlpha16(Vec<u16>),
    /// 8-bit red, green, blue per pixel.
    Rgb8(Vec<u8>),
    /// 16-bit red, green, blue per pixel.
    Rgb16(Vec<u16>),
    /// 8-bit red, green, blue, alpha per pixel.
    Rgba8(Vec<u8>),
    /// 16-bit red, green, blue, alpha per pixel.
    Rgba16(Vec<u16>),
    /// One palette index per pixel, and a palette of RGBA quadruples.
    Paletted(Vec<u8>, Vec<u8>),
}

/// A decoded raster image: dimensions plus pixel payload.
#[derive(Debug)]
pub struct DecodedImage {
    pub width: u32,
    pub height: u32,
    pub data: PixelData,
}

/// A 16-bit channel value is reduced to 8 bits by keeping its high byte
/// (truncation); this is the one rounding rule used everywhere.
pub open spec fn high_byte(v: u16) -> u8 {
    (v >> 8) as u8
}

/// For a channel index `k = 4 * p + c` of the canonical buffer, the pixel is
/// `p` and the channel is `c`.
pub proof fn lemma_chan_index(p: int, c: int)
    requires
        0 <= p,
        0 <= c < 4,
    ensures
        (4 * p + c) / 4 == p,
        (4 * p + c) % 4 == c,
{
    vstd::arithmetic::div_mod::lemma_fundamental_div_mod_converse(4 * p + c, 4, p, c);
}

/// The area of an image with u32 dimensions is nonnegative and fits
/// comfortably below the u128 range.
pub proof fn lemma_area_fits(w: u32, h: u32)
    ensures
        0 <= (w as int) * (h as int),
        (w as int) * (h as int) <= 0xffff_ffff * 0xffff_ffff,
{
    vstd::arithmetic::mul::lemma_mul_nonnegative(w as int, h as int);
    vstd::arithmetic::mul::lemma_mul_upper_bound(w as int, 0xffff_ffff, h as int, 0xffff_ffff);
}

impl DecodedImage {
    /// The number of pixels the dimensions call for.
    pub open spec fn pixel_count(self) -> int {
        (self.width as int) * (self.height as int)
    }

    /// The payload holds exactly one entry per pixel and channel, and every
    /// palette index points at a full four-byte palette entry.
    pub open spec fn wf(self) -> bool {
        let n = self.pixel_count();
        match self.data {
            PixelData::Gray8(d) => d@.len() == n,
            PixelData::Gray16(d) => d@.len() == n,
            PixelData::GrayAlpha8(d) => d@.len() == 2 * n,
            PixelData::GrayAlpha16(d) => d@.len() == 2 * n,
            PixelData::Rgb8(d) => d@.len() == 3 * n,
            PixelData::Rgb16(d) => d@.len() == 3 * n,
            PixelData::Rgba8(d) => d@.len() == 4 * n,
            PixelData::Rgba16(d) => d@.len() == 4 * n,
            PixelData::Paletted(idx, pal) => idx@.len() == n && pal@.len() % 4 == 0
                && forall|i: int| 0 <= i < idx@.len()
                    ==> 4 * ((#[trigger] idx@[i]) as int) + 4 <= pal@.len(),
        }
    }

    /// Channel `c` (0 = red, 1 = green, 2 = blue, 3 = alpha) of pixel `p` in
    /// the canonical 8-bit RGBA form.
    ///
    /// Grayscale luminance is replicated into red, green and blue; images
    /// without a source alpha channel get a fully opaque alpha of 255; 16-bit
    /// channels are truncated to their high byte; palette indices are resolved
    /// through the palette.
    pub open spec fn chan_at(self, p: int, c: int) -> u8 {
        match self.data {
            PixelData::Gray8(d) => if c == 3 { 255 } else { d@[p] },
            PixelData::Gray16(d) => if c == 3 { 255 } else { high_byte(d@[p]) },
            PixelData::GrayAlpha8(d) => if c == 3 { d@[2 * p + 1] } else { d@[2 * p] },
            PixelData::GrayAlpha16(d) => if c == 3 { high_byte(d@[2 * p + 1]) } else {
                high_byte(d@[2 * p])
            },
            PixelData::Rgb8(d) => if c == 3 { 255 } else { d@[3 * p + c] },
            PixelData::Rgb16(d) => if c == 3 { 255 } else { high_byte(d@[3 * p + c]) },
            PixelData::Rgba8(d) => d@[4 * p + c],
            PixelData::Rgba16(d) => high_byte(d@[4 * p + c]),
            PixelData::Paletted(idx, pal) => pal@[4 * (idx@[p] as int) + c],
        }
    }

    /// The canonical pixel buffer: width x height x 4 bytes, each four-byte
    /// group one pixel's (R, G, B, A), row-major, top row first, no padding.
    pub open spec fn canonical(self) -> Seq<u8> {
        Seq::new((4 * self.pixel_count()) as nat, |k: int| self.chan_at(k / 4, k % 4))
    }

    /// Whether the source representation carries an alpha channel of its own.
    /// Palette entries always carry alpha, so paletted images count.
    pub open spec fn has_alpha(self) -> bool {
        match self.data {
            PixelData::GrayAlpha8(_) => true,
            PixelData::GrayAlpha16(_) => true,
            PixelData::Rgba8(_) => true,
            PixelData::Rgba16(_) => true,
            PixelData::Paletted(_, _) => true,
            _ => false,
        }
    }

    /// The alpha value the source itself gives pixel `p`, already reduced to
    /// 8 bits; meaningful only when `has_alpha()` holds.
    pub open spec fn source_alpha(self, p: int) -> u8 {
        match self.data {
            PixelData::GrayAlpha8(d) => d@[2 * p + 1],
            PixelData::GrayAlpha16(d) => high_byte(d@[2 * p + 1]),
            PixelData::Rgba8(d) => d@[4 * p + 3],
            PixelData::Rgba16(d) => high_byte(d@[4 * p + 3]),
            PixelData::Paletted(idx, pal) => pal@[4 * (idx@[p] as int) + 3],
            _ => 255,
        }
    }

    /// Whether the source representation is single-channel luminance (with or
    /// without alpha).
    pub open spec fn is_grayscale(self) -> bool {
        match self.data {
            PixelData::Gray8(_) => true,
            PixelData::Gray16(_) => true,
            PixelData::GrayAlpha8(_) => true,
            PixelData::GrayAlpha16(_) => true,
            _ => false,
        }
    }

    /// The luminance the source gives pixel `p`, already reduced to 8 bits;
    /// meaningful only when `is_grayscale()` holds.
    pub open spec fn luma_at(self, p: int) -> u8 {
        match self.data {
            PixelData::Gray8(d) => d@[p],
            PixelData::Gray16(d) => high_byte(d@[p]),
            PixelData::GrayAlpha8(d) => d@[2 * p],
            PixelData::GrayAlpha16(d) => high_byte(d@[2 * p]),
            _ => 0,
        }
    }

    /// Checks that the payload length matches the dimensions, per `wf`.
    ///
    /// On success the image is handed back unchanged; a mismatch is reported
    /// as a decode error, since it means the decoded pixel payload does not
    /// fit its declared dimensions.
    pub fn validated(self) -> (r: Result<DecodedImage, ConvertError>)
        ensures
            r matches Ok(img) ==> img == self && img.wf(),
            r is Err ==> !self.wf() && r->Err_0 is Decode,
            self.wf() ==> r is Ok,
    {
        let ok = self.check_wf();
        if ok {
            Ok(self)
        } else {
            Err(ConvertError::Decode(String::from_str(
                "pixel payload does not match the image dimensions",
            )))
        }
    }

    /// Decides `wf` executably.
    #[verifier::loop_isolation(false)]
    fn check_wf(&self) -> (r: bool)
        ensures
            r == self.wf(),
    {
        proof {
            lemma_area_fits(self.width, self.height);
        }
        let n: u128 = (self.width as u128) * (self.height as u128);
        match &self.data {
            PixelData::Gray8(d) => d.len() as u128 == n,
            PixelData::Gray16(d) => d.len() as u128 == n,
            PixelData::GrayAlpha8(d) => d.len() as u128 == 2 * n,
            PixelData::GrayAlpha16(d) => d.len() as u128 == 2 * n,
            PixelData::Rgb8(d) => d.len() as u128 == 3 * n,
            PixelData::Rgb16(d) => d.len() as u128 == 3 * n,
            PixelData::Rgba8(d) => d.len() as u128 == 4 * n,
            PixelData::Rgba16(d) => d.len() as u128 == 4 * n,
            PixelData::Paletted(idx, pal) => {
                if !(idx.len() as u128 == n && pal.len() % 4 == 0) {
                    return false;
                }
                let mut i: usize = 0;
                while i < idx.len()
                    invariant
                        0 <= i <= idx@.len(),
                        forall|j: int| 0 <= j < i
                            ==> 4 * ((#[trigger] idx@[j]) as int) + 4 <= pal@.len(),
                    decreases idx@.len() - i,
                {
                    let e: usize = idx[i] as usize;
                    if 4 * e + 4 > pal.len() {
                        proof {
                            assert(4 * ((idx@[i as int]) as int) + 4 > pal@.len());
                        }
                        return false;
                    }
                    i += 1;
                }
                true
            },
        }
    }
}

/// Law: normalization never changes the dimensions. The canonical buffer of a
/// well-formed image has length exactly width x height x 4.
pub proof fn lemma_dimension_preservation(img: DecodedImage)
    requires
        img.wf(),
    ensures
        img.canonical().len() == 4 * (img.width as int) * (img.height as int),
{
    lemma_area_fits(img.width, img.height);
    vstd::arithmetic::mul::lemma_mul_is_associative(4, img.width as int, img.height as int);
}

/// Law: opacity is never invented or dropped. In the canonical buffer, the
/// alpha byte of every pixel of an image without a source alpha channel is
/// 255, and for an image with one it is exactly the source's alpha value,
/// reduced to 8 bits.
pub proof fn lemma_alpha_fidelity(img: DecodedImage, p: int)
    requires
        img.wf(),
        0 <= p < img.pixel_count(),
    ensures
        img.canonical()[4 * p + 3] == (if img.has_alpha() {
            img.source_alpha(p)
        } else {
            255u8
        }),
{
    lemma_area_fits(img.width, img.height);
    lemma_chan_index(p, 3);
}

/// Law: grayscale replication. For a single-channel source, every canonical
/// pixel replicates the pixel's luminance (reduced to 8 bits) into red, green
/// and blue, and carries the source's alpha where there is one, 255 where
/// there is none.
pub proof fn lemma_grayscale_replication(img: DecodedImage, p: int)
    requires
        img.wf(),
        img.is_grayscale(),
        0 <= p < img.pixel_count(),
    ensures
        img.canonical()[4 * p] == img.luma_at(p),
        img.canonical()[4 * p + 1] == img.luma_at(p),
        img.canonical()[4 * p + 2] == img.luma_at(p),
        img.canonical()[4 * p + 3] == (if img.has_alpha() {
            img.source_alpha(p)
        } else {
            255u8
        }),
{
    lemma_area_fits(img.width, img.height);
    lemma_chan_index(p, 0);
    lemma_chan_index(p, 1);
    lemma_chan_index(p, 2);
    lemma_chan_index(p, 3);
}

} // verus!

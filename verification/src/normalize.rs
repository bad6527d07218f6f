//! Normalization of a decoded image to the canonical 8-bit RGBA buffer.

use vstd::prelude::*;
use crate::image_data::lemma_chan_index;
use crate::image_data::DecodedImage;
use crate::image_data::PixelData;

verus! {

/// The four canonical channel values of pixel `p`, in (R, G, B, A) order.
fn pixel_at(img: &DecodedImage, p: usize) -> (px: (u8, u8, u8, u8))
    requires
        img.wf(),
        (p as int) < img.pixel_count(),
        4 * img.pixel_count() <= usize::MAX as int,
    ensures
        px.0 == img.chan_at(p as int, 0),
        px.1 == img.chan_at(p as int, 1),
        px.2 == img.chan_at(p as int, 2),
        px.3 == img.chan_at(p as int, 3),
{
    match &img.data {
        PixelData::Gray8(d) => {
            let v = d[p];
            (v, v, v, 255)
        },
        PixelData::Gray16(d) => {
            let v = (d[p] >> 8) as u8;
            (v, v, v, 255)
        },
        PixelData::GrayAlpha8(d) => {
            let v = d[2 * p];
            let a = d[2 * p + 1];
            (v, v, v, a)
        },
        PixelData::GrayAlpha16(d) => {
            let v = (d[2 * p] >> 8) as u8;
            let a = (d[2 * p + 1] >> 8) as u8;
            (v, v, v, a)
        },
        PixelData::Rgb8(d) => {
            (d[3 * p], d[3 * p + 1], d[3 * p + 2], 255)
        },
        PixelData::Rgb16(d) => {
            (
                (d[3 * p] >> 8) as u8,
                (d[3 * p + 1] >> 8) as u8,
                (d[3 * p + 2] >> 8) as u8,
                255,
            )
        },
        PixelData::Rgba8(d) => {
            (d[4 * p], d[4 * p + 1], d[4 * p + 2], d[4 * p + 3])
        },
        PixelData::Rgba16(d) => {
            (
                (d[4 * p] >> 8) as u8,
                (d[4 * p + 1] >> 8) as u8,
                (d[4 * p + 2] >> 8) as u8,
                (d[4 * p + 3] >> 8) as u8,
            )
        },
        PixelData::Paletted(idx, pal) => {
            let e: usize = idx[p] as usize;
            (pal[4 * e], pal[4 * e + 1], pal[4 * e + 2], pal[4 * e + 3])
        },
    }
}

/// Produces the canonical 8-bit RGBA buffer of a decoded image: length
/// width x height x 4, channel order (R, G, B, A), row-major.
///
/// Pure transformation: the image itself is not changed, so width and height
/// are preserved by construction.
pub fn normalize(img: &DecodedImage) -> (out: Vec<u8>)
    requires
        img.wf(),
        4 * img.pixel_count() <= usize::MAX as int,
    ensures
        out@ == img.canonical(),
        out@.len() == 4 * img.pixel_count(),
{
    let w = img.width as usize;
    let h = img.height as usize;
    let n = w * h;
    let mut out: Vec<u8> = Vec::new();
    let mut p: usize = 0;
    while p < n
        invariant
            img.wf(),
            4 * img.pixel_count() <= usize::MAX as int,
            n == img.pixel_count(),
            0 <= p <= n,
            out@.len() == 4 * p,
            forall|k: int| 0 <= k < 4 * p ==> out@[k] == img.chan_at(k / 4, k % 4),
        decreases n - p,
    {
        let (r, g, b, a) = pixel_at(img, p);
        out.push(r);
        out.push(g);
        out.push(b);
        out.push(a);
        proof {
            lemma_chan_index(p as int, 0);
            lemma_chan_index(p as int, 1);
            lemma_chan_index(p as int, 2);
            lemma_chan_index(p as int, 3);
        }
        p += 1;
    }
    proof {
        assert(out@ =~= img.canonical());
    }
    out
}

} // verus!

//! RGBA rasters: the decoded source image, the downsampled working image,
//! and the rendered output canvas, all as one plain buffer type.
//!
//! The buffer holds 8-bit RGBA bytes row by row: the pixel at `(x, y)`
//! occupies bytes `4 * (y * width + x) ..` in the order red, green, blue,
//! alpha. Resampling, decoding and compositing are done by the `image`
//! crate; each call stands behind a trusted wrapper whose result is named.

use vstd::prelude::*;
use crate::config::DownsamplingMethod;

verus! {

/// A decoded RGBA raster with 8-bit channels.
#[derive(Debug)]
pub struct RgbaBuffer {
    pub width: u32,
    pub height: u32,
    pub data: Vec<u8>,
}

impl RgbaBuffer {
    /// A buffer is well formed when it holds exactly four bytes per pixel.
    pub open spec fn wf(self) -> bool {
        self.data@.len() == 4 * (self.width as int) * (self.height as int)
    }
}

/// One channel of the pixel at `(x, y)`: channel 0 is red, 1 green, 2 blue,
/// 3 alpha.
pub open spec fn channel_at(data: Seq<u8>, w: int, x: int, y: int, c: int) -> u8 {
    data[4 * (y * w + x) + c]
}

/// The alpha channel of the pixel at `(x, y)`.
pub open spec fn alpha_at(data: Seq<u8>, w: int, x: int, y: int) -> u8 {
    channel_at(data, w, x, y, 3)
}

/// Every pixel of the buffer is fully transparent.
pub open spec fn all_transparent(data: Seq<u8>) -> bool {
    forall|i: int| 0 <= i < data.len() && i % 4 == 3 ==> data[i] == 0
}

/// The bytes of the raster that `image::imageops::resize` produces from the
/// given source bytes and dimensions under the given filter.
pub uninterp spec fn resampled(
    data: Seq<u8>,
    sw: int,
    sh: int,
    tw: int,
    th: int,
    filter: DownsamplingMethod,
) -> Seq<u8>;

/// The RGBA raster that `image::load_from_memory` decodes from the given
/// bytes, as (width, height, bytes), or `None` where the bytes do not
/// decode as an image.
pub uninterp spec fn decoded_rgba(bytes: Seq<u8>) -> Option<(int, int, Seq<u8>)>;

/// The bytes of the bottom raster after the top raster is composited onto
/// it at offset `(x, y)` with alpha blending, clipped to the bottom's
/// bounds.
pub uninterp spec fn overlaid(
    bottom: Seq<u8>,
    bw: int,
    bh: int,
    top: Seq<u8>,
    tw: int,
    th: int,
    x: int,
    y: int,
) -> Seq<u8>;

/// Relies on image::imageops::resize: the output raster has exactly the
/// requested dimensions, and its bytes depend only on the source pixels,
/// the dimensions and the filter. Every filter samples each output channel
/// as a weighted combination of that source channel alone, so a channel
/// that is zero everywhere in the source is zero everywhere in the output;
/// the alpha channel of a fully transparent source stays fully transparent.
#[verifier::external_body]
pub fn resize_rgba(img: &RgbaBuffer, tw: u32, th: u32, filter: &DownsamplingMethod) -> (r: RgbaBuffer)
    requires
        img.wf(),
        img.width >= 1,
        img.height >= 1,
        tw >= 1,
        th >= 1,
        4 * (tw as int) * (th as int) <= usize::MAX,
    ensures
        r.wf(),
        r.width == tw,
        r.height == th,
        r.data@ == resampled(img.data@, img.width as int, img.height as int, tw as int, th as int, *filter),
        all_transparent(img.data@) ==> all_transparent(r.data@),
{
    let src = image::RgbaImage::from_raw(img.width, img.height, img.data.clone()).unwrap();
    let f = match filter {
        DownsamplingMethod::Nearest => image::imageops::FilterType::Nearest,
        DownsamplingMethod::Triangle => image::imageops::FilterType::Triangle,
        DownsamplingMethod::CatmullRom => image::imageops::FilterType::CatmullRom,
        DownsamplingMethod::Gaussian => image::imageops::FilterType::Gaussian,
        DownsamplingMethod::Lanczos3 => image::imageops::FilterType::Lanczos3,
    };
    let out = image::imageops::resize(&src, tw, th, f);
    RgbaBuffer { width: tw, height: th, data: out.into_raw() }
}

/// Relies on image::load_from_memory and to_rgba8: whether the bytes decode
/// and what raster they decode to is a function of the bytes alone; a
/// decode failure returns an error rather than panicking.
#[verifier::external_body]
pub fn decode_rgba(bytes: &Vec<u8>) -> (r: Option<RgbaBuffer>)
    ensures
        r matches Some(img) ==> {
            &&& img.wf()
            &&& decoded_rgba(bytes@) matches Some(v)
            &&& img.width as int == v.0
            &&& img.height as int == v.1
            &&& img.data@ == v.2
        },
        r is None ==> decoded_rgba(bytes@) is None,
{
    match image::load_from_memory(bytes) {
        Ok(img) => {
            let rgba = img.to_rgba8();
            let (w, h) = rgba.dimensions();
            Some(RgbaBuffer { width: w, height: h, data: rgba.into_raw() })
        }
        Err(_) => None,
    }
}

/// Relies on image::imageops::overlay: composites the top raster onto the
/// bottom in place with alpha blending, clipped to the bottom's bounds, so
/// the bottom's dimensions are unchanged; the result depends only on the
/// two rasters and the offset.
#[verifier::external_body]
pub fn overlay_rgba(canvas: &mut RgbaBuffer, top: &RgbaBuffer, x: u32, y: u32)
    requires
        old(canvas).wf(),
        top.wf(),
    ensures
        final(canvas).width == old(canvas).width,
        final(canvas).height == old(canvas).height,
        final(canvas).wf(),
        final(canvas).data@ == overlaid(
            old(canvas).data@,
            old(canvas).width as int,
            old(canvas).height as int,
            top.data@,
            top.width as int,
            top.height as int,
            x as int,
            y as int,
        ),
{
    let taken = std::mem::take(&mut canvas.data);
    let mut bottom = image::RgbaImage::from_raw(canvas.width, canvas.height, taken).unwrap();
    let t = image::RgbaImage::from_raw(top.width, top.height, top.data.clone()).unwrap();
    image::imageops::overlay(&mut bottom, &t, x as i64, y as i64);
    canvas.data = bottom.into_raw();
}

/// A fully transparent canvas: every byte zero.
pub fn blank_canvas(w: u32, h: u32) -> (r: RgbaBuffer)
    requires
        4 * (w as int) * (h as int) <= usize::MAX,
    ensures
        r.wf(),
        r.width == w,
        r.height == h,
        r.data@ == Seq::new((4 * (w as int) * (h as int)) as nat, |i: int| 0u8),
        all_transparent(r.data@),
{
    proof {
        assert((w as int) * (h as int) * 4 == 4 * (w as int) * (h as int)) by (nonlinear_arith);
        assert((w as int) * (h as int) <= 4 * (w as int) * (h as int)) by (nonlinear_arith);
    }
    let n: usize = (w as usize) * (h as usize) * 4;
    let mut data: Vec<u8> = Vec::new();
    let mut i: usize = 0;
    while i < n
        invariant
            i <= n,
            data@.len() == i,
            forall|j: int| 0 <= j < i ==> data@[j] == 0u8,
        decreases n - i,
    {
        data.push(0u8);
        i = i + 1;
    }
    let r = RgbaBuffer { width: w, height: h, data };
    proof {
        assert(r.data@ =~= Seq::new((4 * (w as int) * (h as int)) as nat, |i: int| 0u8));
    }
    r
}

} // verus!

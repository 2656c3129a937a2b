//! The decoded-frame value type and its format conversions.
//!
//! A frame's byte buffer is sized exactly as its pixel format dictates.
//! `to_rgba` converts any format to RGBA; the YUV420P path evaluates the
//! conversion formula in exact fixed-point arithmetic (the coefficients are
//! decimal fractions), rounding to the nearest integer and saturating to
//! the byte range.

use crate::errors::DecodeError;
use vstd::arithmetic::div_mod::{lemma_fundamental_div_mod, lemma_fundamental_div_mod_converse};
use vstd::prelude::*;

verus! {

/// The pixel formats a decoded frame can carry.
#[derive(Debug, Clone, Copy, PartialEq, Eq, Structural)]
pub enum PixelFormat {
    /// 32-bit red, green, blue, alpha.
    RGBA,
    /// 24-bit red, green, blue.
    RGB,
    /// Planar 4:2:0: a full luma plane, then quarter-size U and V planes.
    YUV420P,
}

/// Frame geometry as the decoder reports it.
#[derive(Debug, Clone)]
pub struct FrameInfo {
    pub width: u32,
    pub height: u32,
    pub stride: u32,
    pub format: PixelFormat,
}

/// The byte count a frame of the given geometry occupies.
pub open spec fn frame_size(width: u32, height: u32, format: PixelFormat) -> int {
    match format {
        PixelFormat::RGBA => (width as int) * (height as int) * 4,
        PixelFormat::RGB => (width as int) * (height as int) * 3,
        PixelFormat::YUV420P => ((width as int) * (height as int) * 3) / 2,
    }
}

/// A decoded video frame.
#[derive(Debug, Clone, PartialEq)]
pub struct DecodedFrame {
    pub width: u32,
    pub height: u32,
    pub data: Vec<u8>,
    pub format: PixelFormat,
    pub timestamp: u64,
}

/// Saturating round-to-nearest of a value scaled by one million.
pub open spec fn clamp_scaled(num: int) -> u8 {
    if num <= 0 {
        0
    } else if (num + 500000) / 1000000 > 255 {
        255
    } else {
        ((num + 500000) / 1000000) as u8
    }
}

/// The red channel of a YUV sample: Y + 1.402 (V - 128), clamped.
pub open spec fn yuv_red(y: u8, v: u8) -> u8 {
    clamp_scaled((y as int) * 1000000 + 1402000 * ((v as int) - 128))
}

/// The green channel: Y - 0.344136 (U - 128) - 0.714136 (V - 128), clamped.
pub open spec fn yuv_green(y: u8, u: u8, v: u8) -> u8 {
    clamp_scaled((y as int) * 1000000 - 344136 * ((u as int) - 128) - 714136 * ((v as int) - 128))
}

/// The blue channel: Y + 1.772 (U - 128), clamped.
pub open spec fn yuv_blue(y: u8, u: u8) -> u8 {
    clamp_scaled((y as int) * 1000000 + 1772000 * ((u as int) - 128))
}

/// One 3-byte source group expanded to a 4-byte RGBA group: the three
/// channels carried over in order, alpha set to 255.
pub open spec fn rgb_group_ok(src: Seq<u8>, out: Seq<u8>, g: int) -> bool {
    &&& out[4 * g] == src[3 * g]
    &&& out[4 * g + 1] == src[3 * g + 1]
    &&& out[4 * g + 2] == src[3 * g + 2]
    &&& out[4 * g + 3] == 255
}

/// One YUV420P pixel converted to its RGBA quadruple. Pixel `p` sits at row
/// `p / w`, column `p % w`; its chroma sample sits in the quarter-size U and
/// V planes behind the luma plane.
pub open spec fn yuv_pixel_ok(src: Seq<u8>, out: Seq<u8>, w: int, h: int, p: int) -> bool {
    let i = p / w;
    let j = p % w;
    let uv = (i / 2) * (w / 2) + j / 2;
    let y = src[p];
    let u = src[w * h + uv];
    let v = src[w * h + (w * h) / 4 + uv];
    &&& out[4 * p] == yuv_red(y, v)
    &&& out[4 * p + 1] == yuv_green(y, u, v)
    &&& out[4 * p + 2] == yuv_blue(y, u)
    &&& out[4 * p + 3] == 255
}

/// A pixel index below `w * h` splits into a row below `h` and a column
/// below `w`.
proof fn lemma_pixel_split(p: int, w: int, h: int)
    requires
        0 < w,
        0 < h,
        0 <= p < w * h,
    ensures
        0 <= p / w < h,
        0 <= p % w < w,
        p == w * (p / w) + (p % w),
{
    lemma_fundamental_div_mod(p, w);
    assert(0 <= p / w < h) by (nonlinear_arith)
        requires
            0 < w,
            0 < h,
            0 <= p < w * h,
            p == w * (p / w) + (p % w),
            0 <= p % w < w;
}

/// With even dimensions, the chroma index of any in-range pixel stays
/// inside the quarter-size chroma plane.
proof fn lemma_uv_bound(w: int, h: int, i: int, j: int)
    requires
        0 < w,
        0 < h,
        w % 2 == 0,
        h % 2 == 0,
        0 <= i < h,
        0 <= j < w,
    ensures
        0 <= (i / 2) * (w / 2) + j / 2 < (w * h) / 4,
        (w / 2) * (h / 2) == (w * h) / 4,
{
    let a = w / 2;
    let b = h / 2;
    assert(w == 2 * a && h == 2 * b);
    assert((2 * a) * (2 * b) == 4 * (a * b)) by (nonlinear_arith);
    assert((w * h) / 4 == a * b);
    assert(i / 2 <= b - 1);
    assert(j / 2 <= a - 1);
    assert((i / 2) * a + j / 2 < a * b) by (nonlinear_arith)
        requires
            0 <= i / 2 <= b - 1,
            0 <= j / 2 <= a - 1,
            1 <= a,
            1 <= b;
    assert(0 <= (i / 2) * (w / 2)) by (nonlinear_arith)
        requires
            0 <= i / 2,
            0 <= w / 2;
}

/// Saturating round-to-nearest of a channel value scaled by one million.
fn clamp_scaled_exec(num: i64) -> (r: u8)
    requires
        -1000000000000 <= num <= 1000000000000,
    ensures
        r == clamp_scaled(num as int),
{
    if num <= 0 {
        0
    } else {
        let q = ((num as u64) + 500000) / 1000000;
        if q > 255 {
            255
        } else {
            q as u8
        }
    }
}

impl DecodedFrame {
    /// The frame's byte buffer is sized exactly as its geometry dictates.
    pub open spec fn wf(self) -> bool {
        self.data@.len() == frame_size(self.width, self.height, self.format)
    }

    /// Creates a zero-filled frame of the given geometry.
    pub fn new(width: u32, height: u32, format: PixelFormat) -> (r: DecodedFrame)
        requires
            (width as int) * (height as int) * 4 <= 0xFFFFFFFF,
        ensures
            r.width == width,
            r.height == height,
            r.format == format,
            r.timestamp == 0,
            r.wf(),
            forall|k: int| 0 <= k < r.data@.len() ==> r.data@[k] == 0,
    {
        let data_size: u32 = match format {
            PixelFormat::RGBA => width * height * 4,
            PixelFormat::RGB => width * height * 3,
            PixelFormat::YUV420P => (width * height * 3) / 2,
        };
        let data = vec![0u8; data_size as usize];
        assert(forall|k: int| 0 <= k < data@.len() ==> data@[k] == 0);
        DecodedFrame { width, height, data, format, timestamp: 0 }
    }

    /// The frame size in bytes.
    pub fn size(&self) -> (r: usize)
        ensures
            r == self.data@.len(),
    {
        self.data.len()
    }

    /// Returns the frame's pixels as RGBA bytes, converting if the format
    /// is not already RGBA.
    ///
    /// RGB input of length 3k yields 4k bytes: every fourth byte is 255 and
    /// the other three carry the input in order. YUV420P input yields one
    /// RGBA quadruple per pixel by the fixed conversion formula; it fails
    /// with `InvalidFrame` when the buffer is shorter than the three planes
    /// demand.
    pub fn to_rgba(&self) -> (r: Result<Vec<u8>, DecodeError>)
        requires
            self.format == PixelFormat::YUV420P ==> (self.width as int) % 2 == 0
                && (self.height as int) % 2 == 0 && (self.width as int) * (self.height as int) * 4
                <= 0xFFFFFFFF,
        ensures
            self.format == PixelFormat::RGBA ==> (r matches Ok(out) && out@ == self.data@),
            self.format == PixelFormat::RGB ==> (r matches Ok(out) && out@.len() == 4 * (
            self.data@.len() / 3) && (forall|g: int|
                0 <= g < self.data@.len() / 3 ==> #[trigger] rgb_group_ok(self.data@, out@, g))),
            self.format == PixelFormat::YUV420P ==> {
                let total = (self.width as int) * (self.height as int);
                if self.data@.len() >= total + (total / 4) * 2 {
                    r matches Ok(out) && out@.len() == 4 * total && (forall|p: int|
                        0 <= p < total ==> #[trigger] yuv_pixel_ok(
                            self.data@,
                            out@,
                            self.width as int,
                            self.height as int,
                            p,
                        ))
                } else {
                    r matches Err(e) && e matches DecodeError::InvalidFrame(_)
                }
            },
    {
        match self.format {
            PixelFormat::RGBA => Ok(self.data.clone()),
            PixelFormat::RGB => {
                let n = self.data.len();
                let groups = n / 3;
                let mut out: Vec<u8> = Vec::new();
                let mut g: usize = 0;
                while g < groups
                    invariant
                        n == self.data@.len(),
                        groups == n / 3,
                        g <= groups,
                        3 * (groups as int) <= n,
                        out@.len() == 4 * (g as int),
                        forall|q: int|
                            0 <= q < g ==> #[trigger] rgb_group_ok(self.data@, out@, q),
                    decreases groups - g,
                {
                    let ghost out_before = out@;
                    let base = 3 * g;
                    out.push(self.data[base]);
                    out.push(self.data[base + 1]);
                    out.push(self.data[base + 2]);
                    out.push(255);
                    assert(rgb_group_ok(self.data@, out@, g as int));
                    assert forall|q: int| 0 <= q < g implies #[trigger] rgb_group_ok(
                        self.data@,
                        out@,
                        q,
                    ) by {
                        assert(rgb_group_ok(self.data@, out_before, q));
                        assert(out@[4 * q] == out_before[4 * q]);
                        assert(out@[4 * q + 1] == out_before[4 * q + 1]);
                        assert(out@[4 * q + 2] == out_before[4 * q + 2]);
                        assert(out@[4 * q + 3] == out_before[4 * q + 3]);
                    }
                    g = g + 1;
                }
                Ok(out)
            },
            PixelFormat::YUV420P => self.yuv420p_to_rgba(),
        }
    }

    /// Converts a planar YUV420P buffer to RGBA, one pixel at a time.
    fn yuv420p_to_rgba(&self) -> (r: Result<Vec<u8>, DecodeError>)
        requires
            self.format == PixelFormat::YUV420P,
            (self.width as int) % 2 == 0,
            (self.height as int) % 2 == 0,
            (self.width as int) * (self.height as int) * 4 <= 0xFFFFFFFF,
        ensures
            ({
                let total = (self.width as int) * (self.height as int);
                if self.data@.len() >= total + (total / 4) * 2 {
                    r matches Ok(out) && out@.len() == 4 * total && (forall|p: int|
                        0 <= p < total ==> #[trigger] yuv_pixel_ok(
                            self.data@,
                            out@,
                            self.width as int,
                            self.height as int,
                            p,
                        ))
                } else {
                    r matches Err(e) && e matches DecodeError::InvalidFrame(_)
                }
            }),
    {
        let w = self.width;
        let h = self.height;
        let total32: u32 = w * h;
        let y_size = total32 as usize;
        let uv_size = y_size / 4;
        if self.data.len() < y_size + uv_size * 2 {
            return Err(DecodeError::InvalidFrame("Invalid YUV420P data".to_owned()));
        }
        let half_w = w / 2;
        let mut out: Vec<u8> = Vec::new();
        let mut i: u32 = 0;
        let mut j: u32 = 0;
        let mut p: u32 = 0;
        proof {
            if total32 > 0 {
                assert(w as int > 0 && h as int > 0) by (nonlinear_arith)
                    requires
                        (w as int) * (h as int) > 0;
            }
        }
        while p < total32
            invariant
                w == self.width,
                h == self.height,
                self.format == PixelFormat::YUV420P,
                (w as int) % 2 == 0,
                (h as int) % 2 == 0,
                (w as int) * (h as int) * 4 <= 0xFFFFFFFF,
                total32 as int == (w as int) * (h as int),
                y_size == total32 as usize,
                uv_size as int == (total32 as int) / 4,
                half_w == w / 2,
                self.data@.len() >= y_size + uv_size * 2,
                p <= total32,
                p as int == (i as int) * (w as int) + (j as int),
                p < total32 ==> (i < h && j < w),
                out@.len() == 4 * (p as int),
                forall|q: int|
                    0 <= q < p ==> #[trigger] yuv_pixel_ok(
                        self.data@,
                        out@,
                        w as int,
                        h as int,
                        q,
                    ),
            decreases total32 - p,
        {
            let ghost wi = w as int;
            let ghost hi = h as int;
            let ghost pi = p as int;
            proof {
                lemma_fundamental_div_mod_converse(pi, wi, i as int, j as int);
                lemma_uv_bound(wi, hi, i as int, j as int);
            }
            let iu: u32 = (i / 2) * half_w + (j / 2);
            assert(iu as int == ((i as int) / 2) * (wi / 2) + (j as int) / 2);
            assert((iu as int) < (total32 as int) / 4);
            let y_val = self.data[p as usize];
            let u_val = self.data[y_size + iu as usize];
            let v_val = self.data[y_size + uv_size + iu as usize];
            let yn: i64 = (y_val as i64) * 1000000;
            let un: i64 = (u_val as i64) - 128;
            let vn: i64 = (v_val as i64) - 128;
            let red = clamp_scaled_exec(yn + 1402000 * vn);
            let green = clamp_scaled_exec(yn - 344136 * un - 714136 * vn);
            let blue = clamp_scaled_exec(yn + 1772000 * un);
            let ghost out_before = out@;
            out.push(red);
            out.push(green);
            out.push(blue);
            out.push(255);
            assert(yuv_pixel_ok(self.data@, out@, wi, hi, pi)) by {
                assert(pi / wi == i as int && pi % wi == j as int);
                assert(out@[4 * pi] == red);
                assert(out@[4 * pi + 1] == green);
                assert(out@[4 * pi + 2] == blue);
                assert(out@[4 * pi + 3] == 255);
            }
            assert forall|q: int| 0 <= q < p implies #[trigger] yuv_pixel_ok(
                self.data@,
                out@,
                wi,
                hi,
                q,
            ) by {
                assert(yuv_pixel_ok(self.data@, out_before, wi, hi, q));
                assert(out@[4 * q] == out_before[4 * q]);
                assert(out@[4 * q + 1] == out_before[4 * q + 1]);
                assert(out@[4 * q + 2] == out_before[4 * q + 2]);
                assert(out@[4 * q + 3] == out_before[4 * q + 3]);
            }
            let ghost ii_old = i as int;
            let ghost ji_old = j as int;
            j = j + 1;
            if j == w {
                j = 0;
                i = i + 1;
                proof {
                    assert((ii_old + 1) * wi == ii_old * wi + wi) by (nonlinear_arith);
                }
            }
            p = p + 1;
            proof {
                let pi2 = p as int;
                let ii = i as int;
                let ji = j as int;
                assert(pi2 == ii * wi + ji);
                if p < total32 {
                    assert(ii < hi) by (nonlinear_arith)
                        requires
                            0 < wi,
                            0 < hi,
                            pi2 == ii * wi + ji,
                            0 <= ji,
                            ji < wi,
                            pi2 < wi * hi;
                }
            }
        }
        Ok(out)
    }
}

/// On an all-neutral planar frame (every byte 128), the whole converted
/// output is (128, 128, 128, 255) at every pixel: with the chroma offsets
/// at zero the conversion formula returns the luma unchanged.
pub proof fn lemma_yuv_neutral_frame(src: Seq<u8>, out: Seq<u8>, w: int, h: int)
    requires
        0 < w,
        0 < h,
        w % 2 == 0,
        h % 2 == 0,
        src.len() >= w * h + ((w * h) / 4) * 2,
        forall|k: int| 0 <= k < src.len() ==> src[k] == 128,
        forall|p: int| 0 <= p < w * h ==> #[trigger] yuv_pixel_ok(src, out, w, h, p),
    ensures
        forall|p: int|
            0 <= p < w * h ==> out[4 * p] == 128 && out[#[trigger] (4 * p) + 1] == 128 && out[4 * p
                + 2] == 128 && out[4 * p + 3] == 255,
{
    assert forall|p: int|
        0 <= p < w * h implies out[4 * p] == 128 && out[#[trigger] (4 * p) + 1] == 128 && out[4 * p
        + 2] == 128 && out[4 * p + 3] == 255 by {
        lemma_yuv_neutral_pixel(src, out, w, h, p);
    }
}

/// On an all-neutral frame (every byte 128), each converted pixel is
/// (128, 128, 128, 255): the chroma terms vanish and the luma carries
/// through unchanged.
pub proof fn lemma_yuv_neutral_pixel(src: Seq<u8>, out: Seq<u8>, w: int, h: int, p: int)
    requires
        0 < w,
        0 < h,
        w % 2 == 0,
        h % 2 == 0,
        0 <= p < w * h,
        src.len() >= w * h + ((w * h) / 4) * 2,
        forall|k: int| 0 <= k < src.len() ==> src[k] == 128,
        yuv_pixel_ok(src, out, w, h, p),
    ensures
        out[4 * p] == 128,
        out[4 * p + 1] == 128,
        out[4 * p + 2] == 128,
        out[4 * p + 3] == 255,
{
    lemma_pixel_split(p, w, h);
    lemma_uv_bound(w, h, p / w, p % w);
    let uv = ((p / w) / 2) * (w / 2) + (p % w) / 2;
    assert(src[p] == 128);
    assert(src[w * h + uv] == 128);
    assert(src[w * h + (w * h) / 4 + uv] == 128);
    assert(yuv_red(128, 128) == 128);
    assert(yuv_green(128, 128, 128) == 128);
    assert(yuv_blue(128, 128) == 128);
}

} // verus!

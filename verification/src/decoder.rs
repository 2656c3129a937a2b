//! The video decoder: consumes compressed payloads, produces decoded frames.
//!
//! The decoder is stateful: it must be initialized once before any other
//! operation, and it stamps each produced frame with a timestamp that
//! increases monotonically from zero. A key frame is one whose payload
//! begins, after the 4-byte start code, with byte 0x67 (an SPS unit) or
//! 0x65 (an IDR unit). The decoded pixel content is a generated pattern
//! standing in for the compressed stream's content.

use crate::errors::DecodeError;
use crate::frame::{DecodedFrame, FrameInfo, PixelFormat};
use vstd::pervasive::VecAdditionalExecFns;
use vstd::prelude::*;

verus! {

/// Decoder configuration, fixed at construction.
#[derive(Debug, Clone)]
pub struct DecoderConfig {
    pub width: u32,
    pub height: u32,
    pub enable_hardware_acceleration: bool,
    pub thread_count: usize,
}

impl Default for DecoderConfig {
    /// The default geometry: 1920 by 1080, software decoding, four threads.
    fn default() -> (r: DecoderConfig)
        ensures
            r.width == 1920,
            r.height == 1080,
            !r.enable_hardware_acceleration,
            r.thread_count == 4,
    {
        DecoderConfig { width: 1920, height: 1080, enable_hardware_acceleration: false, thread_count: 4 }
    }
}

/// Whether a payload carries a key frame: longer than the 4-byte start code,
/// with an SPS (0x67) or IDR (0x65) byte right after it.
pub open spec fn is_key_frame(nal: Seq<u8>) -> bool {
    nal.len() > 4 && (nal[4] == 0x67 || nal[4] == 0x65)
}

/// The H.264 decoder.
pub struct H264Decoder {
    config: DecoderConfig,
    initialized: bool,
    frame_count: u64,
}

impl H264Decoder {
    /// The decoder's configuration.
    pub closed spec fn cfg(self) -> DecoderConfig {
        self.config
    }

    /// Whether `initialize` has been called since construction or the last
    /// reset.
    pub closed spec fn is_init(self) -> bool {
        self.initialized
    }

    /// How many frames this decoder has produced; the next frame's
    /// timestamp.
    pub closed spec fn frames_decoded(self) -> u64 {
        self.frame_count
    }

    /// The configured geometry stays small enough that a frame's RGBA
    /// buffer size fits 32 bits.
    pub open spec fn wf(self) -> bool {
        (self.cfg().width as int) * (self.cfg().height as int) * 4 <= 0xFFFFFFFF
    }

    /// Creates a decoder; it must be initialized before use.
    pub fn new(config: DecoderConfig) -> (r: H264Decoder)
        requires
            (config.width as int) * (config.height as int) * 4 <= 0xFFFFFFFF,
        ensures
            r.cfg() == config,
            !r.is_init(),
            r.frames_decoded() == 0,
            r.wf(),
    {
        H264Decoder { config, initialized: false, frame_count: 0 }
    }

    /// Whether the decoder is ready for decoding.
    pub fn is_initialized(&self) -> (r: bool)
        ensures
            r == self.is_init(),
    {
        self.initialized
    }

    /// One-shot initialization; every decode operation fails with
    /// `NotInitialized` until it runs.
    pub fn initialize(&mut self) -> (r: Result<(), DecodeError>)
        ensures
            r == Ok::<(), DecodeError>(()),
            final(self).is_init(),
            final(self).cfg() == old(self).cfg(),
            final(self).frames_decoded() == old(self).frames_decoded(),
    {
        self.initialized = true;
        Ok(())
    }

    /// Decodes one NAL unit. Returns a frame exactly on key frames; the
    /// frame carries the configured geometry, RGBA pixels, and the next
    /// monotone timestamp.
    pub fn decode_nal(&mut self, nal_data: &[u8]) -> (r: Result<Option<DecodedFrame>, DecodeError>)
        requires
            old(self).wf(),
            old(self).frames_decoded() < u64::MAX,
        ensures
            final(self).cfg() == old(self).cfg(),
            final(self).wf(),
            !old(self).is_init() ==> r == Err::<Option<DecodedFrame>, DecodeError>(
                DecodeError::NotInitialized,
            ) && *final(self) == *old(self),
            old(self).is_init() ==> final(self).is_init() && (if is_key_frame(nal_data@) {
                r matches Ok(Some(f)) && f.wf() && f.width == old(self).cfg().width && f.height
                    == old(self).cfg().height && f.format == PixelFormat::RGBA && f.timestamp
                    == old(self).frames_decoded() && final(self).frames_decoded()
                    == old(self).frames_decoded() + 1
            } else {
                r == Ok::<Option<DecodedFrame>, DecodeError>(None) && *final(self) == *old(self)
            }),
    {
        if !self.initialized {
            return Err(DecodeError::NotInitialized);
        }
        let is_key = nal_data.len() > 4 && (nal_data[4] == 0x67 || nal_data[4] == 0x65);
        if is_key {
            let mut frame = DecodedFrame::new(self.config.width, self.config.height, PixelFormat::RGBA);
            generate_test_pattern(&mut frame.data, self.config.width, self.config.height);
            frame.timestamp = self.frame_count;
            self.frame_count = self.frame_count + 1;
            Ok(Some(frame))
        } else {
            Ok(None)
        }
    }

    /// Decodes a complete access unit; always yields a frame with the
    /// configured geometry and the next monotone timestamp.
    pub fn decode_frame(&mut self, frame_data: &[u8]) -> (r: Result<DecodedFrame, DecodeError>)
        requires
            old(self).wf(),
            old(self).frames_decoded() < u64::MAX,
        ensures
            final(self).cfg() == old(self).cfg(),
            final(self).wf(),
            !old(self).is_init() ==> r == Err::<DecodedFrame, DecodeError>(
                DecodeError::NotInitialized,
            ) && *final(self) == *old(self),
            old(self).is_init() ==> final(self).is_init() && (r matches Ok(f) && f.wf() && f.width
                == old(self).cfg().width && f.height == old(self).cfg().height && f.format
                == PixelFormat::RGBA && f.timestamp == old(self).frames_decoded()
                && final(self).frames_decoded() == old(self).frames_decoded() + 1),
    {
        if !self.initialized {
            return Err(DecodeError::NotInitialized);
        }
        let mut frame = DecodedFrame::new(self.config.width, self.config.height, PixelFormat::RGBA);
        generate_test_pattern(&mut frame.data, self.config.width, self.config.height);
        frame.timestamp = self.frame_count;
        self.frame_count = self.frame_count + 1;
        Ok(frame)
    }

    /// Drains any buffered frame; this decoder buffers none.
    pub fn flush(&mut self) -> (r: Result<Option<DecodedFrame>, DecodeError>)
        ensures
            *final(self) == *old(self),
            !old(self).is_init() ==> r == Err::<Option<DecodedFrame>, DecodeError>(
                DecodeError::NotInitialized,
            ),
            old(self).is_init() ==> r == Ok::<Option<DecodedFrame>, DecodeError>(None),
    {
        if !self.initialized {
            return Err(DecodeError::NotInitialized);
        }
        Ok(None)
    }

    /// The geometry and pixel format the decoder produces.
    pub fn get_info(&self) -> (r: FrameInfo)
        ensures
            r.width == self.cfg().width,
            r.height == self.cfg().height,
            r.stride == self.cfg().width,
            r.format == PixelFormat::RGBA,
    {
        FrameInfo {
            width: self.config.width,
            height: self.config.height,
            stride: self.config.width,
            format: PixelFormat::RGBA,
        }
    }

    /// Returns the decoder to its created state: uninitialized, counters at
    /// zero, configuration kept.
    pub fn reset(&mut self) -> (r: Result<(), DecodeError>)
        ensures
            r == Ok::<(), DecodeError>(()),
            !final(self).is_init(),
            final(self).frames_decoded() == 0,
            final(self).cfg() == old(self).cfg(),
    {
        self.initialized = false;
        self.frame_count = 0;
        Ok(())
    }
}

/// One of the four pattern colors, as an RGBA quadruple.
fn pattern_color(index: u32) -> (u8, u8, u8, u8) {
    if index == 0 {
        (0x1E, 0x88, 0xE5, 0xFF)
    } else if index == 1 {
        (0x43, 0xA0, 0x47, 0xFF)
    } else if index == 2 {
        (0xFF, 0x98, 0x00, 0xFF)
    } else {
        (0xE9, 0x1E, 0x63, 0xFF)
    }
}

/// Fills an RGBA buffer with a checkerboard of four colors and, when the
/// frame is large enough, a white rectangle at the center. Stands in for
/// decoded pixel content; only the buffer's length is relied on.
fn generate_test_pattern(data: &mut Vec<u8>, width: u32, height: u32)
    requires
        (width as int) * (height as int) * 4 <= 0xFFFFFFFF,
    ensures
        final(data)@.len() == old(data)@.len(),
{
    let mut y: u32 = 0;
    while y < height
        invariant
            data@.len() == old(data)@.len(),
            y <= height,
            (width as int) * (height as int) * 4 <= 0xFFFFFFFF,
        decreases height - y,
    {
        let mut x: u32 = 0;
        while x < width
            invariant
                data@.len() == old(data)@.len(),
                x <= width,
                y < height,
                (width as int) * (height as int) * 4 <= 0xFFFFFFFF,
            decreases width - x,
        {
            let block_x = (x / 64) % 4;
            let block_y = (y / 64) % 4;
            let color_index = (block_x + block_y) % 4;
            let (c0, c1, c2, c3) = pattern_color(color_index);
            proof {
                lemma_cell_index_fits(width as int, height as int, x as int, y as int);
            }
            let idx: u32 = (y * width + x) * 4;
            let idxu = idx as usize;
            if idxu + 4 <= data.len() {
                data.set(idxu, c0);
                data.set(idxu + 1, c1);
                data.set(idxu + 2, c2);
                data.set(idxu + 3, c3);
            }
            x = x + 1;
        }
        y = y + 1;
    }
    if width >= 200 && height >= 40 {
        let center_x = width / 2 - 100;
        let center_y = height / 2 - 20;
        let mut ry: u32 = center_y;
        while ry < center_y + 40
            invariant
                data@.len() == old(data)@.len(),
                center_y <= ry <= center_y + 40,
                center_y + 40 <= height,
                center_x + 200 <= width,
                (width as int) * (height as int) * 4 <= 0xFFFFFFFF,
            decreases center_y + 40 - ry,
        {
            let mut rx: u32 = center_x;
            while rx < center_x + 200
                invariant
                    data@.len() == old(data)@.len(),
                    center_x <= rx <= center_x + 200,
                    center_x + 200 <= width,
                    ry < height,
                    (width as int) * (height as int) * 4 <= 0xFFFFFFFF,
                decreases center_x + 200 - rx,
            {
                proof {
                    lemma_cell_index_fits(width as int, height as int, rx as int, ry as int);
                }
                let idx: u32 = (ry * width + rx) * 4;
                let idxu = idx as usize;
                if idxu + 4 <= data.len() {
                    data.set(idxu, 255);
                    data.set(idxu + 1, 255);
                    data.set(idxu + 2, 255);
                    data.set(idxu + 3, 255);
                }
                rx = rx + 1;
            }
            ry = ry + 1;
        }
    }
}

/// The RGBA byte index of an in-range cell stays within 32 bits.
proof fn lemma_cell_index_fits(w: int, h: int, x: int, y: int)
    requires
        w * h * 4 <= 0xFFFFFFFF,
        0 <= x < w,
        0 <= y < h,
    ensures
        (y * w + x) * 4 + 4 <= w * h * 4,
{
    assert((y * w + x) * 4 + 4 <= w * h * 4) by (nonlinear_arith)
        requires
            0 <= x < w,
            0 <= y < h;
}

} // verus!

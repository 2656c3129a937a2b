use deskcore::decoder::{DecoderConfig, H264Decoder};
use deskcore::errors::DecodeError;
use deskcore::frame::{DecodedFrame, PixelFormat};
use deskcore::framebuf::FrameBuffer;

#[test]
fn test_decoder_creation() {
    let config = DecoderConfig::default();
    let mut decoder = H264Decoder::new(config);

    decoder.initialize().unwrap();
    assert!(decoder.is_initialized());
}

#[test]
fn test_frame_creation() {
    let frame = DecodedFrame::new(1920, 1080, PixelFormat::RGBA);
    assert_eq!(frame.width, 1920);
    assert_eq!(frame.height, 1080);
    assert_eq!(frame.size(), 1920 * 1080 * 4);
}

#[test]
fn test_frame_buffer() {
    let mut buffer = FrameBuffer::new(3);

    let frame1 = DecodedFrame::new(800, 600, PixelFormat::RGBA);
    let frame2 = DecodedFrame::new(800, 600, PixelFormat::RGBA);

    buffer.push(frame1);
    assert_eq!(buffer.len(), 1);

    buffer.push(frame2);
    assert_eq!(buffer.len(), 2);

    assert!(buffer.get_latest().is_some());
}

#[test]
fn frame_sizes_by_format() {
    assert_eq!(DecodedFrame::new(4, 2, PixelFormat::RGBA).size(), 32);
    assert_eq!(DecodedFrame::new(4, 2, PixelFormat::RGB).size(), 24);
    assert_eq!(DecodedFrame::new(4, 2, PixelFormat::YUV420P).size(), 12);
}

#[test]
fn rgba_to_rgba_is_identity() {
    let mut frame = DecodedFrame::new(2, 1, PixelFormat::RGBA);
    frame.data = vec![1, 2, 3, 4, 5, 6, 7, 8];
    assert_eq!(frame.to_rgba().unwrap(), vec![1, 2, 3, 4, 5, 6, 7, 8]);
}

#[test]
fn rgb_to_rgba_inserts_alpha() {
    let mut frame = DecodedFrame::new(2, 1, PixelFormat::RGB);
    frame.data = vec![10, 20, 30, 40, 50, 60];
    let rgba = frame.to_rgba().unwrap();
    assert_eq!(rgba, vec![10, 20, 30, 255, 40, 50, 60, 255]);
}

#[test]
fn yuv_neutral_gray_converts_to_gray() {
    // Y = U = V = 128 at every pixel of a 2x2 frame.
    let mut frame = DecodedFrame::new(2, 2, PixelFormat::YUV420P);
    frame.data = vec![128; 6];
    let rgba = frame.to_rgba().unwrap();
    assert_eq!(rgba.len(), 16);
    for px in rgba.chunks(4) {
        assert_eq!(px, &[128, 128, 128, 255]);
    }
}

#[test]
fn yuv_conversion_matches_formula() {
    // Y = 100, U = 178, V = 153 everywhere: R = 135, G = 65, B = 189.
    let mut frame = DecodedFrame::new(2, 2, PixelFormat::YUV420P);
    frame.data = vec![100, 100, 100, 100, 178, 153];
    let rgba = frame.to_rgba().unwrap();
    for px in rgba.chunks(4) {
        assert_eq!(px, &[135, 65, 189, 255]);
    }
}

#[test]
fn yuv_short_buffer_is_invalid_frame() {
    let mut frame = DecodedFrame::new(2, 2, PixelFormat::YUV420P);
    frame.data = vec![128; 5];
    match frame.to_rgba() {
        Err(DecodeError::InvalidFrame(_)) => {},
        other => panic!("expected InvalidFrame, got {:?}", other),
    }
}

#[test]
fn decoder_rejects_before_initialize() {
    let mut decoder = H264Decoder::new(DecoderConfig::default());
    assert_eq!(decoder.decode_nal(&[0, 0, 0, 1, 0x67]), Err(DecodeError::NotInitialized));
    assert!(matches!(decoder.decode_frame(&[1, 2, 3]), Err(DecodeError::NotInitialized)));
    assert_eq!(decoder.flush(), Err(DecodeError::NotInitialized));
}

#[test]
fn decode_nal_detects_key_frames() {
    let mut decoder = H264Decoder::new(DecoderConfig::default());
    decoder.initialize().unwrap();

    // SPS and IDR bytes after the start code are key frames.
    let sps = decoder.decode_nal(&[0, 0, 0, 1, 0x67, 0xAA]).unwrap();
    assert!(sps.is_some());
    let idr = decoder.decode_nal(&[0, 0, 0, 1, 0x65]).unwrap();
    assert!(idr.is_some());

    // Anything else, and anything too short, yields no frame.
    assert!(decoder.decode_nal(&[0, 0, 0, 1, 0x41]).unwrap().is_none());
    assert!(decoder.decode_nal(&[0, 0, 0, 1]).unwrap().is_none());
}

#[test]
fn decoder_timestamps_increase_from_zero() {
    let mut decoder = H264Decoder::new(DecoderConfig::default());
    decoder.initialize().unwrap();
    let f0 = decoder.decode_frame(&[1]).unwrap();
    let f1 = decoder.decode_frame(&[2]).unwrap();
    let f2 = decoder.decode_nal(&[0, 0, 0, 1, 0x65]).unwrap().unwrap();
    assert_eq!(f0.timestamp, 0);
    assert_eq!(f1.timestamp, 1);
    assert_eq!(f2.timestamp, 2);
}

#[test]
fn decoded_frame_matches_config_geometry() {
    let config = DecoderConfig { width: 640, height: 480, enable_hardware_acceleration: false, thread_count: 1 };
    let mut decoder = H264Decoder::new(config);
    decoder.initialize().unwrap();
    let frame = decoder.decode_frame(&[0x55]).unwrap();
    assert_eq!(frame.width, 640);
    assert_eq!(frame.height, 480);
    assert_eq!(frame.format, PixelFormat::RGBA);
    assert_eq!(frame.size(), 640 * 480 * 4);
}

#[test]
fn decoder_reset_requires_reinitialize() {
    let mut decoder = H264Decoder::new(DecoderConfig::default());
    decoder.initialize().unwrap();
    decoder.decode_frame(&[1]).unwrap();
    decoder.reset().unwrap();
    assert!(!decoder.is_initialized());
    assert!(matches!(decoder.decode_frame(&[1]), Err(DecodeError::NotInitialized)));
    decoder.initialize().unwrap();
    assert_eq!(decoder.decode_frame(&[1]).unwrap().timestamp, 0);
}

#[test]
fn decoder_info_reports_geometry() {
    let decoder = H264Decoder::new(DecoderConfig::default());
    let info = decoder.get_info();
    assert_eq!(info.width, 1920);
    assert_eq!(info.height, 1080);
    assert_eq!(info.stride, 1920);
    assert_eq!(info.format, PixelFormat::RGBA);
}

#[test]
fn frame_buffer_evicts_oldest_on_overflow() {
    let mut buffer = FrameBuffer::new(3);
    for ts in 0..5u64 {
        let mut frame = DecodedFrame::new(2, 2, PixelFormat::RGBA);
        frame.timestamp = ts;
        buffer.push(frame);
        assert!(buffer.len() <= 3);
        assert_eq!(buffer.get_latest().unwrap().timestamp, ts);
    }
    assert_eq!(buffer.len(), 3);
    // The two oldest frames were evicted.
    assert_eq!(buffer.get(0).unwrap().timestamp, 2);
    assert_eq!(buffer.get(1).unwrap().timestamp, 3);
    assert_eq!(buffer.get(2).unwrap().timestamp, 4);
    assert!(buffer.get(3).is_none());
}

#[test]
fn frame_buffer_clear_empties() {
    let mut buffer = FrameBuffer::new(2);
    buffer.push(DecodedFrame::new(2, 2, PixelFormat::RGBA));
    buffer.clear();
    assert_eq!(buffer.len(), 0);
    assert!(buffer.is_empty());
    assert!(buffer.get_latest().is_none());
}

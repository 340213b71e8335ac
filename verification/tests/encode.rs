use idesk::capture::frame::CaptureFrame;
use idesk::encode::encoder::Encoder;
use idesk::encode::ffmpeg_encoder::FfmpegEncoder;
use idesk::encode::openh264_encoder::{
    encoded_frame_of, h264_settings, H264FrameType, OpenH264Encoder, KEYFRAME_INTERVAL,
};
use idesk::error::AppError;

#[test]
fn openh264_encodes_a_keyframe_first() {
    let mut enc = OpenH264Encoder::new(16, 16, 2_000_000).unwrap();
    let frame = CaptureFrame { data: vec![128; 16 * 16 * 4], width: 16, height: 16, stride: 64, timestamp_ms: 42 };
    let out = enc.encode(&frame).unwrap();
    assert_eq!(out.len(), 1);
    assert!(out[0].is_keyframe);
    assert_eq!(out[0].timestamp_ms, 42);
    assert!(!out[0].data.is_empty());
    // an H.264 Annex B stream starts with a start code
    assert!(out[0].data.starts_with(&[0, 0, 0, 1]));
    assert!(enc.flush().unwrap().is_empty());
}

#[test]
fn encoded_frame_keyframe_flag() {
    assert!(encoded_frame_of(vec![1], H264FrameType::Idr, 3).is_keyframe);
    assert!(encoded_frame_of(vec![1], H264FrameType::I, 3).is_keyframe);
    assert!(!encoded_frame_of(vec![1], H264FrameType::P, 3).is_keyframe);
    assert!(!encoded_frame_of(vec![], H264FrameType::Skip, 3).is_keyframe);
    let f = encoded_frame_of(vec![9, 8], H264FrameType::Invalid, 77);
    assert_eq!((f.data, f.timestamp_ms), (vec![9, 8], 77));
}

#[test]
fn openh264_keyframes_come_every_interval() {
    let mut enc = OpenH264Encoder::new(16, 16, 500_000).unwrap();
    let mut keyframes = Vec::new();
    for i in 0..61u64 {
        let frame = CaptureFrame {
            data: vec![(i * 4) as u8; 16 * 16 * 4],
            width: 16,
            height: 16,
            stride: 64,
            timestamp_ms: i,
        };
        let out = enc.encode(&frame).unwrap();
        if out[0].is_keyframe {
            keyframes.push(i);
        }
    }
    assert_eq!(keyframes[0], 0);
    for w in keyframes.windows(2) {
        assert!(w[1] - w[0] <= 30);
    }
}

#[test]
fn openh264_bitrate_can_be_retargeted() {
    let mut enc = OpenH264Encoder::new(16, 16, 2_000_000).unwrap();
    assert!(enc.set_bitrate(1_800_000).is_ok());
    let frame = CaptureFrame { data: vec![7; 16 * 16 * 4], width: 16, height: 16, stride: 64, timestamp_ms: 5 };
    let out = enc.encode(&frame).unwrap();
    assert_eq!(out.len(), 1);
    assert!(out[0].is_keyframe);
}

#[test]
fn h264_settings_hold_bitrate_and_interval() {
    let s = h264_settings(750_000);
    assert_eq!(s.bitrate_bps, 750_000);
    assert_eq!(s.keyframe_interval, KEYFRAME_INTERVAL);
    assert_eq!(KEYFRAME_INTERVAL, 30);
}

#[test]
fn ffmpeg_frame_input_checks_size() {
    let enc = FfmpegEncoder::new(2, 1, 30);
    assert_eq!(enc.input_format(), (2, 1, 30));
    let good = CaptureFrame { data: vec![1, 2, 3, 4, 5, 6, 7, 8], width: 2, height: 1, stride: 8, timestamp_ms: 0 };
    assert_eq!(enc.frame_input(&good).unwrap(), &[1, 2, 3, 4, 5, 6, 7, 8]);
    let bad = CaptureFrame { data: vec![1, 2, 3, 4], width: 2, height: 1, stride: 8, timestamp_ms: 0 };
    match enc.frame_input(&bad) {
        Err(AppError::Encode(m)) => assert_eq!(m, "Frame size mismatch"),
        _ => panic!("expected an encoding error"),
    }
}

#[test]
fn ffmpeg_output_is_cut_into_access_units() {
    let mut enc = FfmpegEncoder::new(2, 2, 30);
    // AUD, SPS, IDR slice; then AUD, P slice; then the start of a third unit
    let unit1: Vec<u8> = vec![0, 0, 1, 9, 0xf0, 0, 0, 1, 0x67, 1, 2, 0, 0, 1, 0x65, 3, 4];
    let unit2: Vec<u8> = vec![0, 0, 1, 9, 0x30, 0, 0, 1, 0x41, 5, 6];
    let head3: Vec<u8> = vec![0, 0, 1, 9, 0x50];
    // the first chunk ends inside the second unit: only the first comes out
    let mut chunk1 = unit1.clone();
    chunk1.extend_from_slice(&unit2[..6]);
    let out = enc.take_output(&chunk1, 10);
    assert_eq!(out.len(), 1);
    assert_eq!(out[0].data, unit1);
    assert!(out[0].is_keyframe);
    assert_eq!(out[0].timestamp_ms, 10);
    let mut chunk2 = unit2[6..].to_vec();
    chunk2.extend_from_slice(&head3);
    let out = enc.take_output(&chunk2, 20);
    assert_eq!(out.len(), 1);
    assert_eq!(out[0].data, unit2);
    assert!(!out[0].is_keyframe);
    let last = enc.finish(30);
    assert_eq!(last.len(), 1);
    assert_eq!(last[0].data, head3);
    assert!(enc.finish(40).is_empty());
}

use idesk::capture::mock_capturer::MockCapturer;
use idesk::encode::encoder::EncodedFrame;
use idesk::encode::openh264_encoder::OpenH264Encoder;
use idesk::stream::pipeline::StreamPipeline;

fn pipeline(fps: u32) -> StreamPipeline {
    StreamPipeline::new(Box::new(MockCapturer::new(16, 16)), Box::new(OpenH264Encoder::new(16, 16, 2_000_000).unwrap()), fps)
}

#[test]
fn pipeline_starts_stopped_at_two_megabit() {
    let mut p = pipeline(30);
    assert!(!p.is_running());
    assert_eq!(p.bitrate(), 2_000_000);
    assert_eq!(p.frame_count(), 0);
    assert_eq!(p.dimensions(), (16, 16));
    p.start();
    assert!(p.is_running());
    p.stop();
    assert!(!p.is_running());
}

#[test]
fn pipeline_frame_interval() {
    assert_eq!(pipeline(30).frame_interval_ms(), 33);
    assert_eq!(pipeline(60).frame_interval_ms(), 16);
    assert_eq!(pipeline(10).frame_interval_ms(), 100);
}

#[test]
fn pipeline_keyframes_get_sps_pps() {
    let mut p = pipeline(30);
    let key = EncodedFrame { data: vec![5, 6], is_keyframe: true, timestamp_ms: 9 };
    let out = p.package(key.clone());
    assert_eq!(out.data, vec![5, 6]);
    p.set_sps_pps(vec![0, 0, 0, 1]);
    let out = p.package(key);
    assert_eq!(out.data, vec![0, 0, 0, 1, 5, 6]);
    assert!(out.is_keyframe);
    assert_eq!(out.timestamp_ms, 9);
    let delta = p.package(EncodedFrame { data: vec![7], is_keyframe: false, timestamp_ms: 10 });
    assert_eq!(delta.data, vec![7]);
    assert!(!delta.is_keyframe);
}

#[test]
fn pipeline_reduces_bitrate_by_a_tenth() {
    let mut p = pipeline(30);
    assert!(p.reduce_bitrate().is_ok());
    assert_eq!(p.bitrate(), 1_800_000);
    p.set_bitrate(150_000);
    assert!(p.reduce_bitrate().is_ok());
    assert_eq!(p.bitrate(), 135_000);
}

#[test]
fn pipeline_counts_encoded_frames() {
    let mut p = pipeline(30);
    let frame = p.capture().unwrap();
    assert_eq!(frame.data.len(), 1024);
    assert!(p.encoder_takes(&frame));
    let out = p.encode(&frame).unwrap();
    assert_eq!(out.len(), 1);
    assert_eq!(p.frame_count(), 1);
}

#[test]
fn pipeline_packages_frames_in_order() {
    let mut p = pipeline(30);
    p.set_sps_pps(vec![0, 0, 0, 1]);
    let frames = vec![
        EncodedFrame { data: vec![1], is_keyframe: true, timestamp_ms: 1 },
        EncodedFrame { data: vec![2], is_keyframe: false, timestamp_ms: 2 },
        EncodedFrame { data: vec![3], is_keyframe: true, timestamp_ms: 3 },
    ];
    let out = p.package_all(frames);
    assert_eq!(out.len(), 3);
    assert_eq!(out[0].data, vec![0, 0, 0, 1, 1]);
    assert_eq!(out[1].data, vec![2]);
    assert_eq!(out[2].data, vec![0, 0, 0, 1, 3]);
    assert_eq!((out[0].timestamp_ms, out[1].timestamp_ms, out[2].timestamp_ms), (1, 2, 3));
}


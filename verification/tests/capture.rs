use idesk::capture::capturer::Capturer;
use idesk::capture::factory::{create_capturer, CaptureBackend, TargetOs};
use idesk::capture::frame::{bgra_layout, CaptureFrame};
use idesk::capture::mock_capturer::{render_mock_frame, MockCapturer};
use idesk::capture::pipewire_capturer::PipeWireCapturer;
use idesk::error::AppError;

#[test]
fn mock_capturer_produces_frames() {
    let mut capturer = MockCapturer::new(640, 480);
    capturer.start().unwrap();
    let frame = capturer.capture_frame().unwrap();
    assert_eq!(frame.width, 640);
    assert_eq!(frame.height, 480);
    assert_eq!(frame.data.len(), 640 * 480 * 4);
}

#[test]
fn mock_frame_solid_colour_values() {
    let f = render_mock_frame(640, 480, 1, 77);
    assert_eq!(f.stride, 2560);
    assert_eq!(f.timestamp_ms, 77);
    // frame 1: hue 15, every pixel the same colour
    for px in f.data.chunks(4) {
        assert_eq!(px, &[15, 15, 15, 255]);
    }
    // hue wraps at 360: frame 24 has hue 0
    let g = render_mock_frame(4, 2, 24, 0);
    assert_eq!(&g.data[28..32], &[0, 0, 0, 255]);
    // hue 300 (frame 20) is level 300 % 256 = 44
    let h = render_mock_frame(3, 1, 20, 0);
    assert_eq!(h.data, vec![44, 44, 44, 255, 44, 44, 44, 255, 44, 44, 44, 255]);
}

#[test]
fn mock_capturer_frames_change() {
    let mut capturer = MockCapturer::new(2, 2);
    let a = capturer.capture_frame().unwrap();
    let b = capturer.capture_frame().unwrap();
    assert_eq!(a.data[0], 15);
    assert_eq!(b.data[0], 30);
    assert_eq!(capturer.width(), 2);
    assert_eq!(capturer.height(), 2);
}

#[test]
fn to_rgba_swaps_red_and_blue() {
    let frame = CaptureFrame {
        data: vec![1, 2, 3, 4, 5, 6, 7, 8, 9, 10],
        width: 2,
        height: 1,
        stride: 8,
        timestamp_ms: 0,
    };
    assert_eq!(frame.to_rgba(), vec![3, 2, 1, 4, 7, 6, 5, 8]);
}

#[test]
fn to_rgba_twice_restores_whole_pixels() {
    let frame = CaptureFrame {
        data: vec![10, 20, 30, 40, 50, 60, 70, 80, 90],
        width: 2,
        height: 1,
        stride: 8,
        timestamp_ms: 0,
    };
    let once = CaptureFrame { data: frame.to_rgba(), width: 2, height: 1, stride: 8, timestamp_ms: 0 };
    assert_eq!(once.to_rgba(), vec![10, 20, 30, 40, 50, 60, 70, 80]);
}

#[test]
fn to_rgba_of_empty_frame() {
    let frame = CaptureFrame { data: vec![9, 9, 9], width: 0, height: 0, stride: 0, timestamp_ms: 0 };
    assert!(frame.to_rgba().is_empty());
}

#[test]
fn pipewire_capturer_reports_size_and_not_implemented() {
    let mut c = PipeWireCapturer::new().unwrap();
    assert_eq!((c.width(), c.height()), (1280, 720));
    assert!(c.start().is_ok());
    match c.capture_frame() {
        Err(AppError::Capture(m)) => assert_eq!(m, "PipeWire capturer not yet implemented"),
        _ => panic!("expected a capture error"),
    }
}

#[test]
fn create_capturer_picks_backend() {
    assert_eq!(create_capturer(TargetOs::Linux, false).unwrap(), CaptureBackend::X11);
    assert_eq!(create_capturer(TargetOs::Linux, true).unwrap(), CaptureBackend::PipeWire);
    assert_eq!(create_capturer(TargetOs::MacOs, false).unwrap(), CaptureBackend::Scap);
    assert_eq!(create_capturer(TargetOs::Windows, true).unwrap(), CaptureBackend::Scap);
    match create_capturer(TargetOs::Other, false) {
        Err(AppError::Capture(m)) => assert_eq!(m, "Unsupported platform"),
        _ => panic!("expected a capture error"),
    }
}

#[test]
fn app_error_text() {
    assert_eq!(AppError::Capture("x".to_string()).to_string(), "Capture error: x");
    assert_eq!(AppError::Encode("y".to_string()).to_string(), "Encoding error: y");
    assert_eq!(AppError::Connection("z".to_string()).to_string(), "Connection error: z");
    let io = AppError::Io(std::io::Error::new(std::io::ErrorKind::Other, "disk"));
    assert_eq!(io.to_string(), "IO error: disk");
}

#[test]
fn bgra_layout_of_large_screens() {
    assert_eq!(bgra_layout(1920, 1080), (7680, 7680 * 1080));
    assert_eq!(bgra_layout(65535, 65535), (262140, 262140 * 65535));
}

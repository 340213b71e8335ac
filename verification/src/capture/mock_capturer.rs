use vstd::prelude::*;
use crate::capture::capturer::Capturer;
use crate::capture::frame::{now_unix_millis, CaptureFrame};
use crate::error::AppError;

verus! {

/// The hue of frame number `count` (the first frame is number one).
pub open spec fn mock_hue(count: int) -> int {
    (count * 15) % 360
}

/// The grey level of mock frame number `count`: its hue taken modulo 256.
pub open spec fn mock_level(count: int) -> u8 {
    (mock_hue(count) % 256) as u8
}

/// Byte `i` of mock frame number `count`: every pixel is the same colour, its
/// blue, green and red bytes all the frame's level, its alpha byte 255.
pub open spec fn mock_byte(count: int, i: int) -> u8 {
    if i % 4 == 3 {
        255u8
    } else {
        mock_level(count)
    }
}

/// The bytes of mock frame number `count`: one solid colour, which cycles from
/// frame to frame with the hue.
pub open spec fn mock_pixels(width: int, height: int, count: int) -> Seq<u8> {
    Seq::new((width * height * 4) as nat, |i: int| mock_byte(count, i))
}

/// Mock capturer for tests: produces solid-colour frames of a fixed size,
/// the colour cycling from frame to frame.
pub struct MockCapturer {
    width: u32,
    height: u32,
    frame_count: u64,
}

impl MockCapturer {
    pub closed spec fn width_spec(&self) -> u32 {
        self.width
    }

    pub closed spec fn height_spec(&self) -> u32 {
        self.height
    }

    /// How many frames have been captured.
    pub closed spec fn frames_spec(&self) -> u64 {
        self.frame_count
    }

    pub fn new(width: u32, height: u32) -> (r: Self)
        ensures
            r.width_spec() == width,
            r.height_spec() == height,
            r.frames_spec() == 0,
    {
        MockCapturer { width, height, frame_count: 0 }
    }
}

/// Whether a frame of this size, numbered `count`, can be produced without overflow.
pub open spec fn mock_frame_fits(width: u32, height: u32, count: u64) -> bool {
    width * height * 4 <= u32::MAX && width * 4 <= u32::MAX && count * 15 <= u64::MAX
}

/// Mock frame number `count` of the given size, stamped `timestamp_ms`.
pub fn render_mock_frame(width: u32, height: u32, count: u64, timestamp_ms: u64) -> (f: CaptureFrame)
    requires
        mock_frame_fits(width, height, count),
    ensures
        f.data@ == mock_pixels(width as int, height as int, count as int),
        f.width == width,
        f.height == height,
        f.stride == width * 4,
        f.timestamp_ms == timestamp_ms,
{
    let hue: u64 = (count * 15) % 360;
    let level: u8 = (hue % 256) as u8;
    assert(width * height <= u32::MAX) by (nonlinear_arith)
        requires
            width * height * 4 <= u32::MAX,
    ;
    let pixels: u32 = width * height;
    let mut data: Vec<u8> = Vec::new();
    let mut k: u32 = 0;
    while k < pixels
        invariant
            pixels == width * height,
            level == mock_level(count as int),
            k <= pixels,
            data@.len() == k * 4,
            forall|i: int| 0 <= i < data@.len() ==> #[trigger] data@[i] == mock_byte(count as int, i),
        decreases pixels - k,
    {
        let ghost before = data@;
        data.push(level);
        data.push(level);
        data.push(level);
        data.push(255u8);
        assert forall|i: int| 0 <= i < data@.len() implies #[trigger] data@[i] == mock_byte(
            count as int,
            i,
        ) by {
            if i < before.len() {
                assert(data@[i] == before[i]);
            }
        }
        k = k + 1;
    }
    assert(data@ =~= mock_pixels(width as int, height as int, count as int));
    CaptureFrame { data, width, height, stride: width * 4, timestamp_ms }
}

impl Capturer for MockCapturer {
    open spec fn can_capture(&self) -> bool {
        self.frames_spec() < u64::MAX && mock_frame_fits(
            self.width_spec(),
            self.height_spec(),
            (self.frames_spec() + 1) as u64,
        )
    }

    fn ready(&self) -> (r: bool) {
        if self.frame_count == u64::MAX {
            return false;
        }
        let count = self.frame_count + 1;
        let w = self.width as u64;
        let h = self.height as u64;
        assert(w * h <= 0xffff_fffe_0000_0001) by (nonlinear_arith)
            requires
                w <= 0xffff_ffff,
                h <= 0xffff_ffff,
        ;
        let pixels: u64 = w * h;
        if pixels > 0x3fff_ffff {
            return false;
        }
        pixels * 4 <= 0xffff_ffff && w * 4 <= 0xffff_ffff && count <= u64::MAX / 15
    }

    fn start(&mut self) -> (r: Result<(), AppError>)
        ensures
            r is Ok,
            *final(self) == *old(self),
    {
        Ok(())
    }

    fn stop(&mut self) -> (r: Result<(), AppError>)
        ensures
            r is Ok,
            *final(self) == *old(self),
    {
        Ok(())
    }

    /// The next solid-colour frame, stamped with the current time.
    fn capture_frame(&mut self) -> (r: Result<CaptureFrame, AppError>)
        ensures
            final(self).frames_spec() == old(self).frames_spec() + 1,
            final(self).width_spec() == old(self).width_spec(),
            final(self).height_spec() == old(self).height_spec(),
            r matches Ok(f) && f.data@ == mock_pixels(
                old(self).width_spec() as int,
                old(self).height_spec() as int,
                final(self).frames_spec() as int,
            ) && f.width == old(self).width_spec() && f.height == old(self).height_spec() && f.stride
                == old(self).width_spec() * 4,
    {
        self.frame_count = self.frame_count + 1;
        let ts = now_unix_millis();
        Ok(render_mock_frame(self.width, self.height, self.frame_count, ts))
    }

    /// The next solid-colour frame, of this capturer's size.
    open spec fn captures(&self, r: Result<CaptureFrame, AppError>) -> bool {
        r matches Ok(f) && f.data@ == mock_pixels(
            self.width_spec() as int,
            self.height_spec() as int,
            self.frames_spec() + 1,
        ) && f.width == self.width_spec() && f.height == self.height_spec() && f.stride
            == self.width_spec() * 4
    }

    open spec fn frame_width(&self) -> u32 {
        self.width_spec()
    }

    open spec fn frame_height(&self) -> u32 {
        self.height_spec()
    }

    fn width(&self) -> (r: u32)
        ensures
            r == self.width_spec(),
    {
        self.width
    }

    fn height(&self) -> (r: u32)
        ensures
            r == self.height_spec(),
    {
        self.height
    }
}

} // verus!

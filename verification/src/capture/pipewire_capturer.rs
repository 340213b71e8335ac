use vstd::prelude::*;
use vstd::string::*;
use crate::capture::capturer::Capturer;
use crate::capture::frame::CaptureFrame;
use crate::error::{is_capture_error, AppError};

verus! {

/// Wayland capturer through PipeWire: reports a 1280x720 screen; capturing is
/// not available yet.
pub struct PipeWireCapturer {
    width: u32,
    height: u32,
}

impl PipeWireCapturer {
    pub closed spec fn width_spec(&self) -> u32 {
        self.width
    }

    pub closed spec fn height_spec(&self) -> u32 {
        self.height
    }

    pub fn new() -> (r: Result<Self, AppError>)
        ensures
            r matches Ok(c) && c.width_spec() == 1280 && c.height_spec() == 720,
    {
        Ok(PipeWireCapturer { width: 1280, height: 720 })
    }
}

impl Capturer for PipeWireCapturer {
    open spec fn can_capture(&self) -> bool {
        true
    }

    fn ready(&self) -> (r: bool) {
        true
    }

    fn start(&mut self) -> (r: Result<(), AppError>)
        ensures
            r is Ok,
    {
        Ok(())
    }

    fn stop(&mut self) -> (r: Result<(), AppError>)
        ensures
            r is Ok,
    {
        Ok(())
    }

    fn capture_frame(&mut self) -> (r: Result<CaptureFrame, AppError>)
        ensures
            r matches Err(e) && is_capture_error(e, "PipeWire capturer not yet implemented"@),
    {
        Err(AppError::Capture(String::from_str("PipeWire capturer not yet implemented")))
    }

    /// Always the "not yet implemented" capture error.
    open spec fn captures(&self, r: Result<CaptureFrame, AppError>) -> bool {
        r matches Err(e) && is_capture_error(e, "PipeWire capturer not yet implemented"@)
    }

    open spec fn frame_width(&self) -> u32 {
        self.width_spec()
    }

    open spec fn frame_height(&self) -> u32 {
        self.height_spec()
    }

    fn width(&self) -> (r: u32)
        ensures
            r == self.width_spec(),
    {
        self.width
    }

    fn height(&self) -> (r: u32)
        ensures
            r == self.height_spec(),
    {
        self.height
    }
}

} // verus!

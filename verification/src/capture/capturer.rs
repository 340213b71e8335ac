use vstd::prelude::*;
use crate::capture::frame::CaptureFrame;
use crate::error::AppError;

verus! {

/// A source of screen frames.
pub trait Capturer: Send + Sync {
    /// Whether the next `capture_frame` can run (it would otherwise overflow).
    spec fn can_capture(&self) -> bool;

    /// Whether the next `capture_frame` can run.
    fn ready(&self) -> (r: bool)
        ensures
            r == self.can_capture(),
    ;

    fn start(&mut self) -> Result<(), AppError>;

    fn stop(&mut self) -> Result<(), AppError>;

    /// Whether `r` is what `capture_frame` may give in this capturer's present state.
    spec fn captures(&self, r: Result<CaptureFrame, AppError>) -> bool;

    fn capture_frame(&mut self) -> (r: Result<CaptureFrame, AppError>)
        requires
            old(self).can_capture(),
        ensures
            old(self).captures(r),
    ;

    /// The width of the frames this capturer delivers.
    spec fn frame_width(&self) -> u32;

    /// The height of the frames this capturer delivers.
    spec fn frame_height(&self) -> u32;

    fn width(&self) -> (r: u32)
        ensures
            r == self.frame_width(),
    ;

    fn height(&self) -> (r: u32)
        ensures
            r == self.frame_height(),
    ;
}

} // verus!

use vstd::prelude::*;
use crate::capture::frame::CaptureFrame;
use crate::error::AppError;

verus! {

/// One encoded video frame.
#[derive(Debug, Clone)]
pub struct EncodedFrame {
    pub data: Vec<u8>,
    pub is_keyframe: bool,
    pub timestamp_ms: u64,
}

/// A video encoder: turns captured frames into encoded ones.
pub trait Encoder: Send + Sync {
    /// Whether `encode` can take this frame.
    spec fn accepts(&self, frame: CaptureFrame) -> bool;

    /// Whether `encode` can take this frame.
    fn accepts_frame(&self, frame: &CaptureFrame) -> (r: bool)
        ensures
            r == self.accepts(*frame),
    ;

    /// Whether `r` is what `encode` may give for `frame` in this encoder's present state.
    spec fn encodes(&self, frame: CaptureFrame, r: Result<Vec<EncodedFrame>, AppError>) -> bool;

    fn encode(&mut self, frame: &CaptureFrame) -> (r: Result<Vec<EncodedFrame>, AppError>)
        requires
            old(self).accepts(*frame),
        ensures
            old(self).encodes(*frame, r),
    ;

    fn flush(&mut self) -> Result<Vec<EncodedFrame>, AppError>;

    /// The bitrate the encoder targets, in bits per second, if it has one.
    spec fn target_bitrate(&self) -> Option<u32>;

    /// Retargets the encoder to `bitrate_bps` bits per second; on success it
    /// targets that bitrate.
    fn set_bitrate(&mut self, bitrate_bps: u32) -> (r: Result<(), AppError>)
        ensures
            r is Ok ==> final(self).target_bitrate() == Some(bitrate_bps),
    ;
}

} // verus!

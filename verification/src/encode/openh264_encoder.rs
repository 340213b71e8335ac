use vstd::prelude::*;
use vstd::string::*;
use crate::capture::frame::CaptureFrame;
use crate::encode::encoder::{EncodedFrame, Encoder};
use crate::error::AppError;
use crate::encode::h264_call::{h264_encode, EncodeAttempt};
use openh264::encoder::Encoder as H264Encoder;
use openh264::formats::{YUVBuffer, YUVSource};

verus! {

/// The H.264 encoder of the openh264 crate.
#[verifier::external_type_specification]
#[verifier::external_body]
pub struct ExH264Encoder(H264Encoder);

/// The kinds of frame the H.264 encoder reports.
#[derive(Debug, Clone, Copy, PartialEq, Eq, Structural)]
pub enum H264FrameType {
    Invalid,
    Idr,
    I,
    P,
    Skip,
    IpMixed,
}

/// Whether frames of this kind are keyframes (IDR or I frames).
pub open spec fn is_key_frame_type(t: H264FrameType) -> bool {
    t == H264FrameType::Idr || t == H264FrameType::I
}

/// The number of frames from one keyframe to the next.
pub const KEYFRAME_INTERVAL: u32 = 30;

/// What an H.264 encoder is configured with.
#[derive(Debug, Clone, Copy, PartialEq, Eq, Structural)]
pub struct H264Settings {
    /// The target bitrate, in bits per second.
    pub bitrate_bps: u32,
    /// A keyframe every this many frames.
    pub keyframe_interval: u32,
}

/// The settings for a low-latency encoder at `bitrate` bits per second: a
/// keyframe every `KEYFRAME_INTERVAL` frames.
pub open spec fn h264_settings_for(bitrate: u32) -> H264Settings {
    H264Settings { bitrate_bps: bitrate, keyframe_interval: KEYFRAME_INTERVAL }
}

/// The settings for a low-latency encoder at `bitrate` bits per second.
pub fn h264_settings(bitrate: u32) -> (r: H264Settings)
    ensures
        r == h264_settings_for(bitrate),
{
    H264Settings { bitrate_bps: bitrate, keyframe_interval: KEYFRAME_INTERVAL }
}

/// `openh264::encoder::Encoder::with_api_config` with the bundled OpenH264 build
/// and a configuration of `settings.bitrate_bps` (`EncoderConfig::bitrate`) and
/// `settings.keyframe_interval` (`EncoderConfig::intra_frame_period`); the
/// settings come back beside the encoder, an error as its message. Whether the
/// encoder starts depends on the native library, which is not stated.
#[verifier::external_body]
fn h264_encoder_new(settings: H264Settings) -> (r: Result<(H264Encoder, H264Settings), String>)
    ensures
        r matches Ok((_, s)) ==> s == settings,
{
    let config = openh264::encoder::EncoderConfig::new()
        .bitrate(openh264::encoder::BitRate::from_bps(settings.bitrate_bps))
        .intra_frame_period(openh264::encoder::IntraFramePeriod::from_num_frames(settings.keyframe_interval));
    match H264Encoder::with_api_config(openh264::OpenH264API::from_source(), config) {
        Ok(encoder) => Ok((encoder, settings)),
        Err(e) => Err(e.to_string()),
    }
}

/// The YUV 4:2:0 picture (Y plane, then U, then V) that openh264 converts a
/// `width` x `height` BGRA picture into.
pub uninterp spec fn bgra_to_yuv(width: u32, height: u32, bgra: Seq<u8>) -> Seq<u8>;

/// `YUVBuffer::from_rgb_source` on a `BgraSliceU8` of the picture, its planes
/// read out as bytes (`YUVSource::y`, `u`, `v`). The crate panics unless both
/// sides are even and the data holds exactly four bytes per pixel, hence the
/// `requires`; the buffer it fills holds `3 * (width * height) / 2` bytes.
#[verifier::external_body]
fn yuv_from_bgra(width: u32, height: u32, data: &[u8]) -> (r: Vec<u8>)
    requires
        width % 2 == 0,
        height % 2 == 0,
        data@.len() == (width as int) * (height as int) * 4,
    ensures
        r@ == bgra_to_yuv(width, height, data@),
        r@.len() == 3 * ((width as int) * (height as int)) / 2,
{
    let yuv = YUVBuffer::from_rgb_source(openh264::formats::BgraSliceU8::new(data, (width as usize, height as usize)));
    let mut planes = yuv.y().to_vec();
    planes.extend_from_slice(yuv.u());
    planes.extend_from_slice(yuv.v());
    planes
}

/// The encoded frame made of an encoder's output: its bytes, keyframe when the
/// frame type is IDR or I, stamped with the captured frame's time.
pub fn encoded_frame_of(data: Vec<u8>, frame_type: H264FrameType, timestamp_ms: u64) -> (r: EncodedFrame)
    ensures
        r.data@ == data@,
        r.is_keyframe == is_key_frame_type(frame_type),
        r.timestamp_ms == timestamp_ms,
{
    let is_keyframe = match frame_type {
        H264FrameType::Idr => true,
        H264FrameType::I => true,
        _ => false,
    };
    EncodedFrame { data, is_keyframe, timestamp_ms }
}

/// An error message with a fixed prefix.
fn prefixed(prefix: &str, msg: String) -> (r: String)
    ensures
        r@ == prefix@ + msg@,
{
    let mut s = String::from_str(prefix);
    s.append(msg.as_str());
    s
}

/// Whether `e` is an encoding error whose message starts with `prefix`.
pub open spec fn is_encode_error_with_prefix(e: AppError, prefix: Seq<char>) -> bool {
    e matches AppError::Encode(m) && m@.len() >= prefix.len() && m@.subrange(0, prefix.len() as int)
        == prefix
}

/// H.264 encoder (Cisco OpenH264), for frames of a fixed size; it keeps the
/// last picture it handed to OpenH264.
pub struct OpenH264Encoder {
    encoder: H264Encoder,
    settings: H264Settings,
    width: u32,
    height: u32,
    last: Option<EncodeAttempt>,
}

impl OpenH264Encoder {
    pub closed spec fn width_spec(&self) -> u32 {
        self.width
    }

    pub closed spec fn height_spec(&self) -> u32 {
        self.height
    }

    /// What the OpenH264 encoder was configured with.
    pub closed spec fn settings_spec(&self) -> H264Settings {
        self.settings
    }

    /// The YUV picture last handed to OpenH264 (empty before the first frame).
    pub closed spec fn last_picture_spec(&self) -> Seq<u8> {
        match self.last {
            Some(a) => a.picture_spec(),
            None => Seq::empty(),
        }
    }

    /// What OpenH264 gave back for that picture, if it was handed one.
    pub closed spec fn last_outcome_spec(&self) -> Option<Result<(Seq<u8>, H264FrameType), Seq<char>>> {
        match self.last {
            Some(a) => Some(a.outcome_spec()),
            None => None,
        }
    }

    /// An encoder for `width` x `height` frames at `bitrate` bits per second,
    /// with a keyframe every `KEYFRAME_INTERVAL` frames; when OpenH264 refuses,
    /// an encoding error "Failed to create encoder: ...".
    pub fn new(width: u32, height: u32, bitrate: u32) -> (r: Result<Self, AppError>)
        ensures
            r matches Ok(enc) ==> enc.width_spec() == width && enc.height_spec() == height
                && enc.settings_spec() == h264_settings_for(bitrate) && enc.last_picture_spec().len() == 0 && enc.last_outcome_spec() is None,
            r matches Err(e) ==> is_encode_error_with_prefix(e, "Failed to create encoder: "@),
    {
        match h264_encoder_new(h264_settings(bitrate)) {
            Ok((encoder, settings)) => Ok(
                OpenH264Encoder { encoder, settings, width, height, last: None },
            ),
            Err(msg) => {
                let m = prefixed("Failed to create encoder: ", msg);
                assert(m@.subrange(0, "Failed to create encoder: "@.len() as int) =~= "Failed to create encoder: "@);
                Err(AppError::Encode(m))
            },
        }
    }
}

impl Encoder for OpenH264Encoder {
    open spec fn accepts(&self, frame: CaptureFrame) -> bool {
        &&& self.width_spec() % 2 == 0
        &&& self.height_spec() % 2 == 0
        &&& frame.data@.len() == (self.width_spec() as int) * (self.height_spec() as int) * 4
    }

    /// One access unit stamped with the frame's time, or an encoding error
    /// "Encoding failed: ...".
    open spec fn encodes(&self, frame: CaptureFrame, r: Result<Vec<EncodedFrame>, AppError>) -> bool {
        &&& r matches Ok(v) ==> v@.len() == 1 && v@[0].timestamp_ms == frame.timestamp_ms
        &&& r matches Err(e) ==> is_encode_error_with_prefix(e, "Encoding failed: "@)
    }

    fn accepts_frame(&self, frame: &CaptureFrame) -> (r: bool) {
        if self.width % 2 != 0 || self.height % 2 != 0 {
            return false;
        }
        let w = self.width as u64;
        let h = self.height as u64;
        assert(w * h <= 0xffff_fffe_0000_0001) by (nonlinear_arith)
            requires
                w <= 0xffff_ffff,
                h <= 0xffff_ffff,
        ;
        let pixels: u64 = w * h;
        let len: u64 = frame.data.len() as u64;
        if pixels > 0x3fff_ffff_ffff_ffff {
            return false;
        }
        len == pixels * 4
    }

    /// Encodes one frame into one H.264 access unit, stamped with the frame's
    /// time; an encoder failure is an encoding error "Encoding failed: ...".
    fn encode(&mut self, frame: &CaptureFrame) -> (r: Result<Vec<EncodedFrame>, AppError>)
        ensures
            final(self).width_spec() == old(self).width_spec(),
            final(self).height_spec() == old(self).height_spec(),
            final(self).settings_spec() == old(self).settings_spec(),
            final(self).last_picture_spec() == bgra_to_yuv(
                old(self).width_spec(),
                old(self).height_spec(),
                frame.data@,
            ),
            match final(self).last_outcome_spec() {
                Some(Ok((data, kind))) => r matches Ok(v) && v@.len() == 1 && v@[0].data@ == data
                    && v@[0].is_keyframe == is_key_frame_type(kind) && v@[0].timestamp_ms
                    == frame.timestamp_ms,
                Some(Err(msg)) => r matches Err(AppError::Encode(m)) && m@ == "Encoding failed: "@
                    + msg,
                None => false,
            },
    {
        let yuv = yuv_from_bgra(self.width, self.height, frame.data.as_slice());
        let attempt = h264_encode(&mut self.encoder, self.width, self.height, yuv);
        let result = attempt.outcome();
        self.last = Some(attempt);
        match result {
            Ok((data, kind)) => {
                let mut out: Vec<EncodedFrame> = Vec::new();
                out.push(encoded_frame_of(data, kind, frame.timestamp_ms));
                assert(out@.len() == 1 && out@[0].timestamp_ms == frame.timestamp_ms);
                Ok(out)
            },
            Err(msg) => {
                let m = prefixed("Encoding failed: ", msg);
                assert(m@.subrange(0, "Encoding failed: "@.len() as int) =~= "Encoding failed: "@);
                Err(AppError::Encode(m))
            },
        }
    }

    open spec fn target_bitrate(&self) -> Option<u32> {
        Some(self.settings_spec().bitrate_bps)
    }

    /// Starts a fresh OpenH264 encoder at the new bitrate (same keyframe
    /// interval); when OpenH264 refuses, the encoder stays as it was and the
    /// error is "Failed to create encoder: ...".
    fn set_bitrate(&mut self, bitrate_bps: u32) -> (r: Result<(), AppError>)
        ensures
            r is Ok ==> final(self).settings_spec() == h264_settings_for(bitrate_bps),
            r is Err ==> final(self).settings_spec() == old(self).settings_spec(),
            r matches Err(e) ==> is_encode_error_with_prefix(e, "Failed to create encoder: "@),
            final(self).width_spec() == old(self).width_spec(),
            final(self).height_spec() == old(self).height_spec(),
            final(self).last_picture_spec() == old(self).last_picture_spec(),
    {
        match h264_encoder_new(h264_settings(bitrate_bps)) {
            Ok((encoder, settings)) => {
                self.encoder = encoder;
                self.settings = settings;
                Ok(())
            },
            Err(msg) => {
                let m = prefixed("Failed to create encoder: ", msg);
                assert(m@.subrange(0, "Failed to create encoder: "@.len() as int) =~= "Failed to create encoder: "@);
                Err(AppError::Encode(m))
            },
        }
    }

    fn flush(&mut self) -> (r: Result<Vec<EncodedFrame>, AppError>)
        ensures
            r matches Ok(v) && v@.len() == 0,
    {
        Ok(Vec::new())
    }
}

} // verus!

use vstd::prelude::*;
use crate::encode::openh264_encoder::H264FrameType;
use openh264::encoder::Encoder as H264Encoder;
use openh264::encoder::FrameType;
use openh264::formats::YUVBuffer;

verus! {

/// One call of the OpenH264 encoder: the YUV picture it was handed and what it
/// gave back (the bitstream's bytes and frame type, or an error message). Only
/// `h264_encode` makes one, so its picture is the one OpenH264 received.
pub struct EncodeAttempt {
    picture: Vec<u8>,
    outcome: Result<(Vec<u8>, H264FrameType), String>,
}

/// The plain values of an encoder outcome.
pub open spec fn outcome_view(o: Result<(Vec<u8>, H264FrameType), String>) -> Result<
    (Seq<u8>, H264FrameType),
    Seq<char>,
> {
    match o {
        Ok((data, kind)) => Ok((data@, kind)),
        Err(m) => Err(m@),
    }
}

impl EncodeAttempt {
    /// The picture handed to OpenH264.
    pub closed spec fn picture_spec(&self) -> Seq<u8> {
        self.picture@
    }

    /// What OpenH264 gave back.
    pub closed spec fn outcome_spec(&self) -> Result<(Seq<u8>, H264FrameType), Seq<char>> {
        outcome_view(self.outcome)
    }

    /// A copy of what OpenH264 gave back.
    pub fn outcome(&self) -> (r: Result<(Vec<u8>, H264FrameType), String>)
        ensures
            outcome_view(r) == self.outcome_spec(),
    {
        match &self.outcome {
            Ok((data, kind)) => Ok((data.clone(), *kind)),
            Err(m) => Err(m.clone()),
        }
    }
}

/// `openh264::encoder::Encoder::encode` of the picture `YUVBuffer::from_vec`
/// makes of (a copy of) the planes. The planes come back in the attempt as
/// they were handed over; the bitstream is turned into plain values, its bytes
/// (`to_vec`) and its frame type (`frame_type`, one variant for one), an error
/// into its message. What OpenH264 gives back depends on the encoder's state
/// (keyframe interval, rate control), so nothing is stated of it.
#[verifier::external_body]
pub(crate) fn h264_encode(encoder: &mut H264Encoder, width: u32, height: u32, planes: Vec<u8>) -> (r: EncodeAttempt)
    requires
        width % 2 == 0,
        height % 2 == 0,
        planes@.len() == 3 * ((width as int) * (height as int)) / 2,
    ensures
        r.picture_spec() == planes@,
{
    let yuv = YUVBuffer::from_vec(planes.clone(), width as usize, height as usize);
    let outcome = match encoder.encode(&yuv) {
        Ok(b) => Ok((b.to_vec(), match b.frame_type() {
            FrameType::Invalid => H264FrameType::Invalid,
            FrameType::IDR => H264FrameType::Idr,
            FrameType::I => H264FrameType::I,
            FrameType::P => H264FrameType::P,
            FrameType::Skip => H264FrameType::Skip,
            FrameType::IPMixed => H264FrameType::IpMixed,
        })),
        Err(e) => Err(e.to_string()),
    };
    EncodeAttempt { picture: planes, outcome }
}

} // verus!

use vstd::prelude::*;
use crate::capture::capturer::Capturer;
use crate::capture::frame::CaptureFrame;
use crate::encode::encoder::{EncodedFrame, Encoder};
use crate::error::AppError;

verus! {

/// What the pipeline hands on for sending.
#[derive(Debug)]
pub struct PipelineOutput {
    pub data: Vec<u8>,
    pub is_keyframe: bool,
    pub timestamp_ms: u64,
}

/// The bytes sent for an encoded frame: keyframes get the SPS/PPS data (when
/// known) in front, so that a decoder can start from them.
pub open spec fn output_bytes(sps_pps: Option<Seq<u8>>, frame_data: Seq<u8>, is_keyframe: bool) -> Seq<u8> {
    match sps_pps {
        Some(p) => if is_keyframe {
            p + frame_data
        } else {
            frame_data
        },
        None => frame_data,
    }
}

/// The bitrate after the encoder was found too slow: ten percent less, rounded down.
pub open spec fn slowed_bitrate(b: u32) -> int {
    b * 9 / 10
}

/// The default target bitrate: 2 Mbit/s.
pub const DEFAULT_BITRATE: u32 = 2_000_000;

/// Capture -> encode -> send pipeline: the capturer, the encoder and the state
/// that decides what is sent. Sending and pacing are done by the caller.
pub struct StreamPipeline {
    capturer: Box<dyn Capturer>,
    encoder: Box<dyn Encoder>,
    fps: u32,
    running: bool,
    sps_pps: Option<Vec<u8>>,
    target_bitrate: u32,
    frame_count: u64,
}

impl StreamPipeline {
    pub closed spec fn fps_spec(&self) -> u32 {
        self.fps
    }

    pub closed spec fn running_spec(&self) -> bool {
        self.running
    }

    pub closed spec fn sps_pps_spec(&self) -> Option<Seq<u8>> {
        match self.sps_pps {
            Some(v) => Some(v@),
            None => None,
        }
    }

    pub closed spec fn bitrate_spec(&self) -> u32 {
        self.target_bitrate
    }

    pub closed spec fn frames_spec(&self) -> u64 {
        self.frame_count
    }

    /// The size of the frames the capturer delivers.
    pub closed spec fn capture_size(&self) -> (u32, u32) {
        (self.capturer.frame_width(), self.capturer.frame_height())
    }

    /// Whether `r` is what the capturer may give for its next frame.
    pub closed spec fn capturer_gives(&self, r: Result<CaptureFrame, AppError>) -> bool {
        self.capturer.captures(r)
    }

    /// Whether `r` is what the encoder may give for `frame`.
    pub closed spec fn encoder_gives(&self, frame: CaptureFrame, r: Result<Vec<EncodedFrame>, AppError>) -> bool {
        self.encoder.encodes(frame, r)
    }

    /// Whether the encoder can take `frame`.
    pub closed spec fn encoder_accepts(&self, frame: CaptureFrame) -> bool {
        self.encoder.accepts(frame)
    }

    /// Whether the capturer can deliver its next frame.
    pub closed spec fn capturer_ready(&self) -> bool {
        self.capturer.can_capture()
    }

    /// A stopped pipeline at `fps` frames per second, 2 Mbit/s, no frame encoded yet.
    pub fn new(capturer: Box<dyn Capturer>, encoder: Box<dyn Encoder>, fps: u32) -> (r: Self)
        ensures
            r.fps_spec() == fps,
            !r.running_spec(),
            r.sps_pps_spec() is None,
            r.bitrate_spec() == DEFAULT_BITRATE,
            r.frames_spec() == 0,
    {
        StreamPipeline {
            capturer,
            encoder,
            fps,
            running: false,
            sps_pps: None,
            target_bitrate: DEFAULT_BITRATE,
            frame_count: 0,
        }
    }

    /// Marks the pipeline as running (the loop runs while it is).
    pub fn start(&mut self)
        ensures
            final(self).running_spec(),
            final(self).fps_spec() == old(self).fps_spec(),
            final(self).sps_pps_spec() == old(self).sps_pps_spec(),
            final(self).bitrate_spec() == old(self).bitrate_spec(),
            final(self).frames_spec() == old(self).frames_spec(),
            final(self).capture_size() == old(self).capture_size(),
    {
        self.running = true;
    }

    pub fn is_running(&self) -> (r: bool)
        ensures
            r == self.running_spec(),
    {
        self.running
    }

    /// Makes the loop end after the current frame.
    pub fn stop(&mut self)
        ensures
            !final(self).running_spec(),
            final(self).fps_spec() == old(self).fps_spec(),
            final(self).sps_pps_spec() == old(self).sps_pps_spec(),
            final(self).bitrate_spec() == old(self).bitrate_spec(),
            final(self).frames_spec() == old(self).frames_spec(),
            final(self).capture_size() == old(self).capture_size(),
    {
        self.running = false;
    }

    pub fn set_bitrate(&mut self, bitrate: u32)
        ensures
            final(self).bitrate_spec() == bitrate,
            final(self).running_spec() == old(self).running_spec(),
            final(self).fps_spec() == old(self).fps_spec(),
            final(self).sps_pps_spec() == old(self).sps_pps_spec(),
            final(self).frames_spec() == old(self).frames_spec(),
            final(self).capture_size() == old(self).capture_size(),
    {
        self.target_bitrate = bitrate;
    }

    /// Sets the SPS/PPS data that keyframes are sent with.
    pub fn set_sps_pps(&mut self, data: Vec<u8>)
        ensures
            final(self).sps_pps_spec() == Some(data@),
            final(self).running_spec() == old(self).running_spec(),
            final(self).fps_spec() == old(self).fps_spec(),
            final(self).bitrate_spec() == old(self).bitrate_spec(),
            final(self).frames_spec() == old(self).frames_spec(),
            final(self).capture_size() == old(self).capture_size(),
    {
        self.sps_pps = Some(data);
    }

    pub fn fps(&self) -> (r: u32)
        ensures
            r == self.fps_spec(),
    {
        self.fps
    }

    pub fn bitrate(&self) -> (r: u32)
        ensures
            r == self.bitrate_spec(),
    {
        self.target_bitrate
    }

    /// How many captured frames have been encoded.
    pub fn frame_count(&self) -> (r: u64)
        ensures
            r == self.frames_spec(),
    {
        self.frame_count
    }

    /// The capture size.
    pub fn dimensions(&self) -> (r: (u32, u32))
        ensures
            r == self.capture_size(),
    {
        (self.capturer.width(), self.capturer.height())
    }

    /// The time budget of one frame, in whole milliseconds.
    pub fn frame_interval_ms(&self) -> (r: u64)
        requires
            self.fps_spec() > 0,
        ensures
            r == 1000int / (self.fps_spec() as int),
    {
        1000 / (self.fps as u64)
    }

    /// Whether the capturer can deliver its next frame.
    pub fn capturer_is_ready(&self) -> (r: bool)
        ensures
            r == self.capturer_ready(),
    {
        self.capturer.ready()
    }

    /// Whether the encoder can take `frame`.
    pub fn encoder_takes(&self, frame: &CaptureFrame) -> (r: bool)
        ensures
            r == self.encoder_accepts(*frame),
    {
        self.encoder.accepts_frame(frame)
    }

    /// Captures the next frame.
    pub fn capture(&mut self) -> (r: Result<CaptureFrame, AppError>)
        requires
            old(self).capturer_ready(),
        ensures
            old(self).capturer_gives(r),
            final(self).running_spec() == old(self).running_spec(),
            final(self).fps_spec() == old(self).fps_spec(),
            final(self).sps_pps_spec() == old(self).sps_pps_spec(),
            final(self).bitrate_spec() == old(self).bitrate_spec(),
            final(self).frames_spec() == old(self).frames_spec(),
    {
        self.capturer.capture_frame()
    }

    /// Encodes a captured frame; a frame encoded without error is counted.
    pub fn encode(&mut self, frame: &CaptureFrame) -> (r: Result<Vec<EncodedFrame>, AppError>)
        requires
            old(self).frames_spec() < u64::MAX,
            old(self).encoder_accepts(*frame),
        ensures
            old(self).encoder_gives(*frame, r),
            final(self).frames_spec() == if r is Ok {
                old(self).frames_spec() + 1
            } else {
                old(self).frames_spec() as int
            },
            final(self).running_spec() == old(self).running_spec(),
            final(self).fps_spec() == old(self).fps_spec(),
            final(self).sps_pps_spec() == old(self).sps_pps_spec(),
            final(self).bitrate_spec() == old(self).bitrate_spec(),
            final(self).capturer_ready() == old(self).capturer_ready(),
            final(self).capture_size() == old(self).capture_size(),
    {
        let r = self.encoder.encode(frame);
        if r.is_ok() {
            self.frame_count = self.frame_count + 1;
        }
        r
    }

    /// What is sent for an encoded frame: its data, with the SPS/PPS data in
    /// front for keyframes, its keyframe flag and its timestamp.
    pub fn package(&self, frame: EncodedFrame) -> (r: PipelineOutput)
        ensures
            r.data@ == output_bytes(self.sps_pps_spec(), frame.data@, frame.is_keyframe),
            r.is_keyframe == frame.is_keyframe,
            r.timestamp_ms == frame.timestamp_ms,
    {
        let data = if frame.is_keyframe {
            match &self.sps_pps {
                Some(sps_pps_data) => {
                    let mut combined = sps_pps_data.clone();
                    let mut extra = frame.data;
                    combined.append(&mut extra);
                    combined
                },
                None => frame.data,
            }
        } else {
            frame.data
        };
        PipelineOutput { data, is_keyframe: frame.is_keyframe, timestamp_ms: frame.timestamp_ms }
    }

    /// What is sent for the frames of one encode, in their order: one output
    /// for each frame, as `package` makes it.
    pub fn package_all(&self, frames: Vec<EncodedFrame>) -> (r: Vec<PipelineOutput>)
        ensures
            r@.len() == frames@.len(),
            forall|k: int|
                0 <= k < r@.len() ==> (#[trigger] r@[k]).data@ == output_bytes(
                    self.sps_pps_spec(),
                    frames@[k].data@,
                    frames@[k].is_keyframe,
                ) && r@[k].is_keyframe == frames@[k].is_keyframe && r@[k].timestamp_ms
                    == frames@[k].timestamp_ms,
    {
        let ghost input = frames@;
        let mut frames = frames;
        let mut out: Vec<PipelineOutput> = Vec::new();
        let n = frames.len();
        let mut k: usize = 0;
        while k < n
            invariant
                n == input.len(),
                k <= n,
                frames@ =~= input.subrange(k as int, n as int),
                out@.len() == k,
                forall|j: int|
                    0 <= j < k ==> (#[trigger] out@[j]).data@ == output_bytes(
                        self.sps_pps_spec(),
                        input[j].data@,
                        input[j].is_keyframe,
                    ) && out@[j].is_keyframe == input[j].is_keyframe && out@[j].timestamp_ms
                        == input[j].timestamp_ms,
            decreases n - k,
        {
            let f = frames.remove(0);
            assert(f == input[k as int]);
            let o = self.package(f);
            let ghost before = out@;
            out.push(o);
            assert forall|j: int| 0 <= j < k + 1 implies (#[trigger] out@[j]).data@ == output_bytes(
                self.sps_pps_spec(),
                input[j].data@,
                input[j].is_keyframe,
            ) && out@[j].is_keyframe == input[j].is_keyframe && out@[j].timestamp_ms
                == input[j].timestamp_ms by {
                if j < k {
                    assert(out@[j] == before[j]);
                }
            }
            k = k + 1;
        }
        out
    }

    /// The bitrate the encoder targets, if it has one.
    pub closed spec fn encoder_bitrate(&self) -> Option<u32> {
        self.encoder.target_bitrate()
    }

    /// Called when encoding took too long for the frame budget: lowers the
    /// target bitrate by ten percent and retargets the encoder to it.
    pub fn reduce_bitrate(&mut self) -> (r: Result<(), AppError>)
        ensures
            final(self).bitrate_spec() == slowed_bitrate(old(self).bitrate_spec()),
            r is Ok ==> final(self).encoder_bitrate() == Some(final(self).bitrate_spec()),
            final(self).running_spec() == old(self).running_spec(),
            final(self).fps_spec() == old(self).fps_spec(),
            final(self).sps_pps_spec() == old(self).sps_pps_spec(),
            final(self).frames_spec() == old(self).frames_spec(),
            final(self).capturer_ready() == old(self).capturer_ready(),
            final(self).capture_size() == old(self).capture_size(),
    {
        self.target_bitrate = ((self.target_bitrate as u64) * 9 / 10) as u32;
        self.encoder.set_bitrate(self.target_bitrate)
    }
}

/// What is sent for a frame: once SPS/PPS data `p` is known, a keyframe goes
/// out as `p` followed by the frame's bytes, whatever they are; every other
/// frame, and every frame while no SPS/PPS data is known, goes out as its bytes
/// alone.
pub proof fn lemma_keyframes_carry_sps_pps(p: Seq<u8>, data: Seq<u8>)
    ensures
        output_bytes(Some(p), data, true) == p + data,
        output_bytes(Some(p), data, false) == data,
        output_bytes(None, data, true) == data,
        output_bytes(None, data, false) == data,
{
}

/// Slowing down lowers the bitrate by a tenth, rounded down, from every
/// starting bitrate: the result is the largest whole number of bits per second
/// that is at most nine tenths of it.
pub proof fn lemma_slowing_down_takes_a_tenth(b: u32)
    ensures
        10 * slowed_bitrate(b) <= 9 * b,
        9 * b < 10 * slowed_bitrate(b) + 10,
        b > 0 ==> slowed_bitrate(b) < b,
{
}

} // verus!

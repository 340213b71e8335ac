use vstd::prelude::*;
use vstd::string::*;
use crate::capture::frame::CaptureFrame;
use crate::encode::encoder::EncodedFrame;
use crate::error::AppError;

verus! {

/// Whether a NAL unit of type `nal_type` starts at `i`: a three-byte start code
/// `00 00 01`, then a header byte whose low five bits are the type.
pub open spec fn nal_at(s: Seq<u8>, i: int, nal_type: int) -> bool {
    &&& 0 <= i
    &&& i + 3 < s.len()
    &&& s[i] == 0
    &&& s[i + 1] == 0
    &&& s[i + 2] == 1
    &&& s[i + 3] % 32 == nal_type
}

/// The NAL unit type of an access unit delimiter, which opens each access unit.
pub open spec fn aud_type() -> int {
    9
}

/// The NAL unit type of an IDR slice, which makes an access unit a keyframe.
pub open spec fn idr_type() -> int {
    5
}

/// The first position from `from` on where an access unit delimiter starts, or
/// the length of `s` when there is none.
pub open spec fn next_aud(s: Seq<u8>, from: int) -> int
    decreases s.len() - from,
{
    if from < 0 || from + 3 >= s.len() {
        s.len() as int
    } else if nal_at(s, from, aud_type()) {
        from
    } else {
        next_aud(s, from + 1)
    }
}

/// An H.264 byte stream cut into the access units that are complete (each ends
/// where the next access unit delimiter starts) and the bytes still open.
pub open spec fn complete_units(s: Seq<u8>) -> (Seq<Seq<u8>>, Seq<u8>)
    decreases s.len(),
{
    let e = next_aud(s, 1);
    if e >= s.len() || e < 1 {
        (Seq::empty(), s)
    } else {
        let rest = complete_units(s.subrange(e, s.len() as int));
        (seq![s.subrange(0, e)] + rest.0, rest.1)
    }
}

/// Whether an access unit holds an IDR slice.
pub open spec fn has_idr(unit: Seq<u8>) -> bool {
    exists|i: int| nal_at(unit, i, idr_type())
}

/// Whether `frames` are the access units `units`, in order, stamped `timestamp_ms`.
pub open spec fn frames_of_units(frames: Seq<EncodedFrame>, units: Seq<Seq<u8>>, timestamp_ms: u64) -> bool {
    &&& frames.len() == units.len()
    &&& forall|k: int|
        0 <= k < frames.len() ==> (#[trigger] frames[k]).data@ == units[k] && frames[k].is_keyframe
            == has_idr(units[k]) && frames[k].timestamp_ms == timestamp_ms
}

/// Fallback encoder that streams raw BGRA frames through an FFmpeg process
/// (run by the caller) and cuts the H.264 byte stream that comes back into
/// access units. It holds the frame size, the frame rate and the bytes of the
/// access unit still being received.
pub struct FfmpegEncoder {
    width: u32,
    height: u32,
    fps: u32,
    pending: Vec<u8>,
}

/// Whether the NAL unit of type `nal_type` starts at `i` of `s`.
fn nal_at_exec(s: &Vec<u8>, i: usize, nal_type: u8) -> (r: bool)
    requires
        i + 3 < s@.len(),
    ensures
        r == nal_at(s@, i as int, nal_type as int),
{
    let n = s.len();
    s[i] == 0 && s[i + 1] == 0 && s[i + 2] == 1 && s[i + 3] % 32 == nal_type
}

/// Whether the access unit holds an IDR slice.
fn unit_has_idr(unit: &Vec<u8>) -> (r: bool)
    ensures
        r == has_idr(unit@),
{
    let n = unit.len();
    let mut i: usize = 0;
    while n > 3 && i < n - 3
        invariant
            n == unit@.len(),
            forall|j: int| 0 <= j < i ==> !nal_at(unit@, j, idr_type()),
        decreases n - i,
    {
        if nal_at_exec(unit, i, 5) {
            assert(nal_at(unit@, i as int, idr_type()));
            return true;
        }
        i = i + 1;
    }
    assert forall|j: int| !nal_at(unit@, j, idr_type()) by {
        if 0 <= j && j < i {
        }
    }
    false
}

/// The position of the first access unit delimiter from position one on, or
/// the length when there is none.
fn find_next_aud(s: &Vec<u8>) -> (r: usize)
    ensures
        r as int == next_aud(s@, 1),
        r < s@.len() ==> 1 <= r,
{
    let n = s.len();
    let mut i: usize = 1;
    while n > 3 && i < n - 3 && !nal_at_exec(s, i, 9)
        invariant
            n == s@.len(),
            1 <= i,
            next_aud(s@, 1) == next_aud(s@, i as int),
        decreases n - i,
    {
        i = i + 1;
    }
    if n > 3 && i < n - 3 {
        i
    } else {
        n
    }
}

impl FfmpegEncoder {
    pub closed spec fn settings(&self) -> (u32, u32, u32) {
        (self.width, self.height, self.fps)
    }

    /// Whether `frame` has this encoder's size, four bytes a pixel.
    pub closed spec fn fits(&self, frame: CaptureFrame) -> bool {
        frame.width == self.width && frame.height == self.height && frame.data@.len() == (
        frame.width as int) * (frame.height as int) * 4
    }

    /// The bytes received that make no complete access unit yet.
    pub closed spec fn pending_spec(&self) -> Seq<u8> {
        self.pending@
    }

    /// An encoder for `width` x `height` frames at `fps` frames per second,
    /// with nothing received yet.
    pub fn new(width: u32, height: u32, fps: u32) -> (r: Self)
        ensures
            r.settings() == (width, height, fps),
            r.pending_spec().len() == 0,
    {
        FfmpegEncoder { width, height, fps, pending: Vec::new() }
    }

    /// The frame size and rate the FFmpeg process is started with.
    pub fn input_format(&self) -> (r: (u32, u32, u32))
        ensures
            r == self.settings(),
    {
        (self.width, self.height, self.fps)
    }

    /// What goes to the FFmpeg process for a frame: its raw BGRA bytes, when
    /// the frame has this encoder's size; otherwise an encoding error "Frame size
    /// mismatch".
    pub fn frame_input<'a>(&self, frame: &'a CaptureFrame) -> (r: Result<&'a [u8], AppError>)
        ensures
            match r {
                Ok(b) => self.fits(*frame) && b@ == frame.data@,
                Err(e) => !self.fits(*frame) && e == AppError::Encode(e->Encode_0)
                    && e->Encode_0@ == "Frame size mismatch"@,
            },
    {
        let w = self.width as u64;
        let h = self.height as u64;
        assert(w * h <= 0xffff_fffe_0000_0001) by (nonlinear_arith)
            requires
                w <= 0xffff_ffff,
                h <= 0xffff_ffff,
        ;
        let pixels: u64 = w * h;
        let len: u64 = frame.data.len() as u64;
        if frame.width == self.width && frame.height == self.height && pixels <= 0x3fff_ffff_ffff_ffff
            && len == pixels * 4 {
            Ok(frame.data.as_slice())
        } else {
            Err(AppError::Encode(String::from_str("Frame size mismatch")))
        }
    }

    /// Takes bytes read from the FFmpeg process: every access unit completed by
    /// them comes out as an encoded frame, in order, stamped `timestamp_ms` (a
    /// keyframe when it holds an IDR slice); the rest waits for more bytes.
    pub fn take_output(&mut self, bytes: &[u8], timestamp_ms: u64) -> (r: Vec<EncodedFrame>)
        ensures
            frames_of_units(r@, complete_units(old(self).pending_spec() + bytes@).0, timestamp_ms),
            final(self).pending_spec() == complete_units(old(self).pending_spec() + bytes@).1,
            final(self).settings() == old(self).settings(),
    {
        let ghost all = self.pending@ + bytes@;
        let mut rest: Vec<u8> = Vec::new();
        std::mem::swap(&mut rest, &mut self.pending);
        rest.extend_from_slice(bytes);
        assert(rest@ == all);
        let mut out: Vec<EncodedFrame> = Vec::new();
        let ghost mut units: Seq<Seq<u8>> = Seq::empty();
        loop
            invariant
                complete_units(all).0 == units + complete_units(rest@).0,
                complete_units(all).1 == complete_units(rest@).1,
                frames_of_units(out@, units, timestamp_ms),
            ensures
                complete_units(rest@).0.len() == 0,
                complete_units(all).0 == units,
                complete_units(all).1 == rest@,
                frames_of_units(out@, units, timestamp_ms),
            decreases rest@.len(),
        {
            let e = find_next_aud(&rest);
            if e >= rest.len() {
                assert(complete_units(rest@).0 =~= Seq::<Seq<u8>>::empty());
                assert(complete_units(all).0 =~= units);
                break;
            }
            let ghost before = rest@;
            let tail = rest.split_off(e);
            let unit = rest;
            rest = tail;
            proof {
                assert(complete_units(before).0 == seq![before.subrange(0, e as int)] + complete_units(
                    rest@,
                ).0);
                assert(units + complete_units(before).0 =~= units.push(unit@) + complete_units(rest@).0);
                units = units.push(unit@);
            }
            let key = unit_has_idr(&unit);
            let ghost out_before = out@;
            out.push(EncodedFrame { data: unit, is_keyframe: key, timestamp_ms });
            assert forall|k: int| 0 <= k < out@.len() implies (#[trigger] out@[k]).data@ == units[k]
                && out@[k].is_keyframe == has_idr(units[k]) && out@[k].timestamp_ms == timestamp_ms by {
                if k < out_before.len() {
                    assert(out@[k] == out_before[k]);
                }
            }
        }
        self.pending = rest;
        out
    }

    /// At the end of the stream: the bytes still open, if any, as a last
    /// encoded frame stamped `timestamp_ms`; nothing is left pending.
    pub fn finish(&mut self, timestamp_ms: u64) -> (r: Vec<EncodedFrame>)
        ensures
            old(self).pending_spec().len() == 0 ==> r@.len() == 0,
            old(self).pending_spec().len() > 0 ==> frames_of_units(
                r@,
                seq![old(self).pending_spec()],
                timestamp_ms,
            ),
            final(self).pending_spec().len() == 0,
            final(self).settings() == old(self).settings(),
    {
        let mut rest: Vec<u8> = Vec::new();
        std::mem::swap(&mut rest, &mut self.pending);
        let mut out: Vec<EncodedFrame> = Vec::new();
        if rest.len() > 0 {
            let key = unit_has_idr(&rest);
            out.push(EncodedFrame { data: rest, is_keyframe: key, timestamp_ms });
        }
        out
    }
}

} // verus!

use vstd::prelude::*;
use crate::connection::{clamp_fps, clamped_fps};

verus! {

/// The highest quality level.
pub const MAX_QUALITY: u32 = 2;

/// A quality level brought into `0..=2`.
pub open spec fn bounded_quality(q: u32) -> u32 {
    if q > MAX_QUALITY {
        MAX_QUALITY
    } else {
        q
    }
}

/// The target bitrate of a quality level, in bits per second: 500 kbit/s at
/// level 0, 2 Mbit/s at level 1, 5 Mbit/s at level 2 and above.
pub open spec fn quality_bitrate(q: u32) -> u32 {
    if q == 0 {
        500_000
    } else if q == 1 {
        2_000_000
    } else {
        5_000_000
    }
}

/// The user's streaming settings: frames per second (10 to 60) and a quality
/// level (0 to 2).
pub struct AppSettings {
    fps: u32,
    quality: u32,
}

impl AppSettings {
    pub closed spec fn fps_spec(&self) -> u32 {
        self.fps
    }

    pub closed spec fn quality_spec(&self) -> u32 {
        self.quality
    }

    /// 30 frames per second at quality 1.
    pub fn new() -> (r: Self)
        ensures
            r.fps_spec() == 30,
            r.quality_spec() == 1,
    {
        AppSettings { fps: 30, quality: 1 }
    }

    /// Sets the quality level; levels above 2 count as 2.
    pub fn set_quality(&mut self, quality: u32)
        ensures
            final(self).quality_spec() == bounded_quality(quality),
            final(self).fps_spec() == old(self).fps_spec(),
    {
        self.quality = if quality > MAX_QUALITY {
            MAX_QUALITY
        } else {
            quality
        };
    }

    /// Sets the frame rate, brought into 10..=60.
    pub fn set_fps(&mut self, fps: u32)
        ensures
            final(self).fps_spec() == clamped_fps(fps),
            final(self).quality_spec() == old(self).quality_spec(),
    {
        self.fps = clamp_fps(fps);
    }

    pub fn fps(&self) -> (r: u32)
        ensures
            r == self.fps_spec(),
    {
        self.fps
    }

    /// The bitrate that encoding runs at for the quality level set.
    pub fn bitrate(&self) -> (r: u32)
        ensures
            r == quality_bitrate(self.quality_spec()),
    {
        if self.quality == 0 {
            500_000
        } else if self.quality == 1 {
            2_000_000
        } else {
            5_000_000
        }
    }

    pub fn quality(&self) -> (r: u32)
        ensures
            r == self.quality_spec(),
    {
        self.quality
    }
}

/// Whatever is asked for, the frame rate stays within 10..=60 and the quality
/// within 0..=2, and values already in range are kept as they are.
pub proof fn lemma_settings_stay_in_range(fps: u32, quality: u32)
    ensures
        10 <= clamped_fps(fps) <= 60,
        bounded_quality(quality) <= MAX_QUALITY,
        10 <= fps <= 60 ==> clamped_fps(fps) == fps,
        quality <= MAX_QUALITY ==> bounded_quality(quality) == quality,
{
}

} // verus!

use vstd::prelude::*;

verus! {

/// A captured screen image: `width * height` pixels of four bytes each (BGRA),
/// `stride` bytes per row.
#[derive(Debug, Clone)]
pub struct CaptureFrame {
    pub data: Vec<u8>,
    pub width: u32,
    pub height: u32,
    pub stride: u32,
    pub timestamp_ms: u64,
}

/// Where, inside its four-byte pixel, byte `c` of an RGBA pixel comes from in
/// the BGRA pixel: red and blue trade places.
pub open spec fn bgra_source(c: int) -> int {
    if c == 0 {
        2
    } else if c == 2 {
        0
    } else {
        c
    }
}

/// BGRA bytes turned into RGBA: every whole four-byte pixel with its first and
/// third byte swapped; trailing bytes that make no whole pixel are dropped.
pub open spec fn rgba_of(data: Seq<u8>) -> Seq<u8> {
    Seq::new(
        (data.len() / 4 * 4) as nat,
        |i: int| data[i / 4 * 4 + bgra_source(i % 4)],
    )
}

/// Milliseconds since the Unix epoch by the system clock
/// (`SystemTime::now().duration_since(UNIX_EPOCH)`, zero when the clock is
/// before the epoch, truncated to 64 bits). It depends on the time, so nothing
/// is stated of it.
#[verifier::external_body]
pub(crate) fn now_unix_millis() -> u64 {
    std::time::SystemTime::now().duration_since(std::time::UNIX_EPOCH).unwrap_or_default().as_millis() as u64
}

/// The row stride and the total size, in bytes, of a `width` x `height` BGRA
/// picture: four bytes a pixel, rows packed.
pub fn bgra_layout(width: u16, height: u16) -> (r: (u32, u64))
    ensures
        r.0 == width * 4,
        r.1 == (width as int) * 4 * (height as int),
{
    let stride: u32 = (width as u32) * 4;
    assert((stride as int) * (height as int) <= 0x3_fffc_0004) by (nonlinear_arith)
        requires
            stride <= 0x3_fffc,
            height <= 0xffff,
    ;
    let size: u64 = (stride as u64) * (height as u64);
    (stride, size)
}

impl CaptureFrame {
    /// The pixels converted from BGRA to RGBA.
    pub fn to_rgba(&self) -> (r: Vec<u8>)
        ensures
            r@ == rgba_of(self.data@),
    {
        let n = self.data.len();
        let pixels = n / 4;
        let mut rgba: Vec<u8> = Vec::new();
        let mut k: usize = 0;
        while k < pixels
            invariant
                n == self.data@.len(),
                pixels == n / 4,
                k <= pixels,
                rgba@.len() == k * 4,
                forall|i: int| 0 <= i < k * 4 ==> #[trigger] rgba@[i] == self.data@[i / 4 * 4 + bgra_source(i % 4)],
            decreases pixels - k,
        {
            let base = k * 4;
            let ghost before = rgba@;
            rgba.push(self.data[base + 2]);
            rgba.push(self.data[base + 1]);
            rgba.push(self.data[base]);
            rgba.push(self.data[base + 3]);
            assert forall|i: int| 0 <= i < (k + 1) * 4 implies #[trigger] rgba@[i] == self.data@[i / 4 * 4
                + bgra_source(i % 4)] by {
                if i < k * 4 {
                    assert(rgba@[i] == before[i]);
                } else {
                    assert(i / 4 == k);
                }
            }
            k = k + 1;
        }
        assert(rgba@ =~= rgba_of(self.data@));
        rgba
    }
}

/// Swapping red and blue twice gives the pixels back: converting the RGBA
/// bytes once more yields the whole pixels of the data it started from.
pub proof fn lemma_rgba_swap_twice(data: Seq<u8>)
    ensures
        rgba_of(rgba_of(data)) == data.subrange(0, (data.len() / 4 * 4) as int),
{
    let once = rgba_of(data);
    let twice = rgba_of(once);
    assert(once.len() / 4 * 4 == once.len());
    assert forall|i: int| 0 <= i < twice.len() implies twice[i] == data[i] by {
        let j = i / 4 * 4 + bgra_source(i % 4);
        assert(j / 4 == i / 4 && j % 4 == bgra_source(i % 4));
    }
    assert(twice =~= data.subrange(0, (data.len() / 4 * 4) as int));
}

} // verus!

use vstd::prelude::*;
use crate::network::ice::IceServer;
use crate::stream::pipeline::PipelineOutput;

verus! {

/// `256` to the power `n`.
pub open spec fn pow256(n: nat) -> nat
    decreases n,
{
    if n == 0 {
        1
    } else {
        256 * pow256((n - 1) as nat)
    }
}

/// The eight bytes of `v`, least significant first.
pub open spec fn le_bytes(v: u64) -> Seq<u8> {
    Seq::new(8, |i: int| ((v as nat / pow256(i as nat)) % 256) as u8)
}

/// The data-channel message for an encoded frame: one byte that is 1 for a
/// keyframe and 0 otherwise, the timestamp as eight little-endian bytes, then
/// the frame data.
pub open spec fn frame_packet(is_keyframe: bool, timestamp_ms: u64, data: Seq<u8>) -> Seq<u8> {
    seq![if is_keyframe { 1u8 } else { 0u8 }] + le_bytes(timestamp_ms) + data
}

/// Frames a pipeline output for the data channel (what `send_frame` sends).
pub fn frame_message(output: &PipelineOutput) -> (r: Vec<u8>)
    ensures
        r@ == frame_packet(output.is_keyframe, output.timestamp_ms, output.data@),
{
    let mut msg: Vec<u8> = Vec::new();
    msg.push(if output.is_keyframe { 1u8 } else { 0u8 });
    let mut t: u64 = output.timestamp_ms;
    let mut i: usize = 0;
    assert(pow256(0) == 1);
    while i < 8
        invariant
            i <= 8,
            msg@.len() == 1 + i,
            msg@[0] == (if output.is_keyframe { 1u8 } else { 0u8 }),
            t == output.timestamp_ms as nat / pow256(i as nat),
            forall|k: int| 0 <= k < i ==> #[trigger] msg@[1 + k] == le_bytes(output.timestamp_ms)[k],
        decreases 8 - i,
    {
        proof {
            lemma_pow256_positive(i as nat);
            vstd::arithmetic::div_mod::lemma_div_denominator(
                output.timestamp_ms as int,
                pow256(i as nat) as int,
                256,
            );
            assert(pow256((i + 1) as nat) == 256 * pow256(i as nat));
            assert(pow256(i as nat) > 0) by {
                lemma_pow256_positive(i as nat);
            }
        }
        msg.push((t % 256) as u8);
        t = t / 256;
        i = i + 1;
    }
    let ghost head = msg@;
    let mut data = output.data.clone();
    msg.append(&mut data);
    assert(msg@ =~= frame_packet(output.is_keyframe, output.timestamp_ms, output.data@)) by {
        let expect = seq![if output.is_keyframe { 1u8 } else { 0u8 }] + le_bytes(output.timestamp_ms);
        assert forall|k: int| 0 <= k < 9 implies head[k] == expect[k] by {
            if k > 0 {
                assert(head[1 + (k - 1)] == le_bytes(output.timestamp_ms)[k - 1]);
            }
        }
        assert(head =~= expect);
    }
    msg
}

proof fn lemma_pow256_positive(n: nat)
    ensures
        pow256(n) > 0,
    decreases n,
{
    if n > 0 {
        lemma_pow256_positive((n - 1) as nat);
    }
}

/// The number that bytes stand for, least significant first.
pub open spec fn le_value(bytes: Seq<u8>) -> nat
    decreases bytes.len(),
{
    if bytes.len() == 0 {
        0
    } else {
        bytes[0] as nat + 256 * le_value(bytes.drop_first())
    }
}

/// The first `n` base-256 digits of `v`, least significant first.
spec fn digits256(v: nat, n: nat) -> Seq<u8> {
    Seq::new(n, |i: int| ((v / pow256(i as nat)) % 256) as u8)
}

proof fn lemma_digits256_value(v: nat, n: nat)
    requires
        v < pow256(n),
    ensures
        le_value(digits256(v, n)) == v,
    decreases n,
{
    if n == 0 {
        assert(v == 0);
    } else {
        let d = digits256(v, n);
        let rest = digits256(v / 256, (n - 1) as nat);
        assert forall|i: int| 0 <= i < n - 1 implies #[trigger] d.drop_first()[i] == rest[i] by {
            lemma_pow256_positive(i as nat);
            vstd::arithmetic::div_mod::lemma_div_denominator(v as int, 256, pow256(i as nat) as int);
            assert(pow256((i + 1) as nat) == 256 * pow256(i as nat));
            assert(256 * pow256(i as nat) == pow256(i as nat) * 256) by (nonlinear_arith);
        }
        assert(d.drop_first() =~= rest);
        assert(v / 256 < pow256((n - 1) as nat)) by {
            vstd::arithmetic::div_mod::lemma_div_by_multiple_is_strongly_ordered(
                v as int,
                pow256(n) as int,
                pow256((n - 1) as nat) as int,
                256,
            );
            assert(pow256(n) == pow256((n - 1) as nat) * 256) by (nonlinear_arith)
                requires
                    pow256(n) == 256 * pow256((n - 1) as nat),
            ;
        }
        lemma_digits256_value(v / 256, (n - 1) as nat);
        assert(pow256(0) == 1);
        assert(v / 1 == v);
        assert(d[0] as nat == v % 256);
        vstd::arithmetic::div_mod::lemma_fundamental_div_mod(v as int, 256);
    }
}

/// A frame message reads back as what was framed: its first byte tells a
/// keyframe (1) from another frame (0), the next eight bytes are the timestamp,
/// least significant first, and the rest is the frame data.
pub proof fn lemma_frame_packet_reads_back(is_keyframe: bool, timestamp_ms: u64, data: Seq<u8>)
    ensures
        ({
            let p = frame_packet(is_keyframe, timestamp_ms, data);
            &&& p.len() == 9 + data.len()
            &&& (p[0] == 1) == is_keyframe
            &&& le_value(p.subrange(1, 9)) == timestamp_ms
            &&& p.subrange(9, p.len() as int) == data
        }),
{
    let p = frame_packet(is_keyframe, timestamp_ms, data);
    assert(p.subrange(1, 9) =~= digits256(timestamp_ms as nat, 8));
    assert(pow256(8) == 0x1_0000_0000_0000_0000) by {
        reveal_with_fuel(pow256, 9);
    }
    lemma_digits256_value(timestamp_ms as nat, 8);
    assert(p.subrange(9, p.len() as int) =~= data);
}

/// WebRTC peer settings: the signaling URL and the ICE servers that
/// connections are made with.
pub struct WebRtcPeer {
    signaling_url: String,
    ice_servers: Vec<IceServer>,
}

impl WebRtcPeer {
    pub closed spec fn signaling_url_spec(&self) -> Seq<char> {
        self.signaling_url@
    }

    pub closed spec fn ice_servers_spec(&self) -> Seq<IceServer> {
        self.ice_servers@
    }

    pub fn new(signaling_url: String, ice_servers: Vec<IceServer>) -> (r: Self)
        ensures
            r.signaling_url_spec() == signaling_url@,
            r.ice_servers_spec() == ice_servers@,
    {
        WebRtcPeer { signaling_url, ice_servers }
    }

    /// The ICE servers connections are made with.
    pub fn ice_servers(&self) -> (r: &Vec<IceServer>)
        ensures
            r@ == self.ice_servers_spec(),
    {
        &self.ice_servers
    }
}

} // verus!

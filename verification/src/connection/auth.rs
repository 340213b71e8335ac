use vstd::prelude::*;
use vstd::string::*;
use vstd::utf8::encode_utf8;
use crate::text::push_char;
use vstd::hash_map::StringHashMap;

verus! {

/// FNV-1a offset basis (64 bit).
pub const FNV_OFFSET: u64 = 0xcbf29ce484222325;

/// FNV-1a prime (64 bit).
pub const FNV_PRIME: u64 = 0x100000001b3;

/// The 64-bit FNV-1a hash of a byte string: start from the offset basis; for
/// each byte, xor it in and multiply by the prime, modulo `2^64`.
pub open spec fn fnv1a(bytes: Seq<u8>) -> u64
    decreases bytes.len(),
{
    if bytes.len() == 0 {
        FNV_OFFSET
    } else {
        (fnv1a(bytes.drop_last()) ^ (bytes.last() as u64)).wrapping_mul(FNV_PRIME)
    }
}

/// The lowercase hex digit of `d` (`d < 16`).
pub open spec fn hex_digit(d: int) -> char {
    if d < 10 {
        (d + 48) as char
    } else {
        (d + 87) as char
    }
}

/// `n` in lowercase hexadecimal, without leading zeros (`"0"` for zero).
pub open spec fn hex_text(n: nat) -> Seq<char>
    decreases n,
{
    if n < 16 {
        seq![hex_digit(n as int)]
    } else {
        hex_text(n / 16).push(hex_digit((n % 16) as int))
    }
}

/// What is stored for a PIN: the hex text of the FNV-1a hash of its UTF-8 bytes.
pub open spec fn pin_digest(pin: Seq<char>) -> Seq<char> {
    hex_text(fnv1a(encode_utf8(pin)) as nat)
}

/// Whether `pin` is accepted for `session` when the stored digests are `pins`.
pub open spec fn pin_accepted(
    pins: Map<Seq<char>, Seq<char>>,
    session: Seq<char>,
    pin: Seq<char>,
) -> bool {
    pins.contains_key(session) && pins[session] == pin_digest(pin)
}

/// The digests held in a map of strings, as plain values.
pub open spec fn digest_views(m: Map<Seq<char>, String>) -> Map<Seq<char>, Seq<char>> {
    m.map_values(|v: String| v@)
}

/// PIN-based authentication: holds, per session, the digest of its PIN.
pub struct AuthManager {
    pins: StringHashMap<String>,
}

impl AuthManager {
    /// The stored digests, by session.
    pub closed spec fn pins(&self) -> Map<Seq<char>, Seq<char>> {
        digest_views(self.pins@)
    }

    /// A manager with no PIN set.
    pub fn new() -> (r: Self)
        ensures
            r.pins() == Map::<Seq<char>, Seq<char>>::empty(),
    {
        let r = AuthManager { pins: StringHashMap::new() };
        assert(r.pins() =~= Map::<Seq<char>, Seq<char>>::empty());
        r
    }

    /// Sets (or replaces) the PIN of a session; only its digest is kept.
    pub fn set_pin(&mut self, session_id: &str, pin: &str)
        ensures
            final(self).pins() == old(self).pins().insert(session_id@, pin_digest(pin@)),
    {
        let hash = simple_hash(pin);
        self.pins.insert(String::from_str(session_id), hash);
        assert(self.pins() =~= old(self).pins().insert(session_id@, pin_digest(pin@)));
    }

    /// Whether `pin` matches the PIN set for the session (false when none is set).
    pub fn verify_pin(&self, session_id: &str, pin: &str) -> (r: bool)
        ensures
            r == pin_accepted(self.pins(), session_id@, pin@),
    {
        match self.pins.get(session_id) {
            Some(stored) => {
                let hash = simple_hash(pin);
                *stored == hash
            },
            None => false,
        }
    }
}

/// The stored form of a PIN: the 64-bit FNV-1a hash of its UTF-8 bytes, as
/// lowercase hex.
pub fn simple_hash(s: &str) -> (r: String)
    ensures
        r@ == pin_digest(s@),
{
    let bytes = s.as_bytes();
    let n = bytes.len();
    let mut h: u64 = FNV_OFFSET;
    let mut i: usize = 0;
    while i < n
        invariant
            n == bytes@.len(),
            bytes@ == encode_utf8(s@),
            i <= n,
            h == fnv1a(bytes@.take(i as int)),
        decreases n - i,
    {
        assert(bytes@.take(i as int + 1).drop_last() =~= bytes@.take(i as int));
        h = h ^ (bytes[i] as u64);
        h = h.wrapping_mul(FNV_PRIME);
        i = i + 1;
    }
    assert(bytes@.take(n as int) =~= bytes@);
    let mut out = String::new();
    push_hex(&mut out, h);
    out
}

fn hex_digit_char(d: u64) -> (c: char)
    requires
        d < 16,
    ensures
        c == hex_digit(d as int),
{
    match d {
        0 => '0',
        1 => '1',
        2 => '2',
        3 => '3',
        4 => '4',
        5 => '5',
        6 => '6',
        7 => '7',
        8 => '8',
        9 => '9',
        10 => 'a',
        11 => 'b',
        12 => 'c',
        13 => 'd',
        14 => 'e',
        _ => 'f',
    }
}

fn push_hex(out: &mut String, n: u64)
    ensures
        final(out)@ == old(out)@ + hex_text(n as nat),
    decreases n,
{
    if n >= 16 {
        push_hex(out, n / 16);
    }
    let ghost mid = out@;
    push_char(out, hex_digit_char(n % 16));
    proof {
        if n >= 16 {
            assert(hex_text(n as nat) == hex_text((n / 16) as nat).push(hex_digit((n % 16) as int)));
        }
    }
    assert(out@ =~= old(out)@ + hex_text(n as nat));
}

} // verus!

verus! {

/// After `set_pin(session, pin)`, `verify_pin(session, pin)` accepts, whatever
/// was stored before.
pub proof fn lemma_pin_set_then_accepted(
    pins: Map<Seq<char>, Seq<char>>,
    session: Seq<char>,
    pin: Seq<char>,
)
    ensures
        pin_accepted(pins.insert(session, pin_digest(pin)), session, pin),
{
}

/// Setting the PIN of one session leaves what every other session accepts as it was.
pub proof fn lemma_pin_set_leaves_other_sessions(
    pins: Map<Seq<char>, Seq<char>>,
    session: Seq<char>,
    pin: Seq<char>,
    other: Seq<char>,
    attempt: Seq<char>,
)
    requires
        other != session,
    ensures
        pin_accepted(pins.insert(session, pin_digest(pin)), other, attempt) == pin_accepted(
            pins,
            other,
            attempt,
        ),
{
}

/// A session without a PIN accepts no PIN, so a fresh manager accepts nothing.
pub proof fn lemma_no_pin_rejects(pins: Map<Seq<char>, Seq<char>>, session: Seq<char>, attempt: Seq<char>)
    requires
        !pins.contains_key(session),
    ensures
        !pin_accepted(pins, session, attempt),
{
}

/// After `set_pin(session, pin)`, an attempt is accepted exactly when its digest
/// equals that of `pin`.
pub proof fn lemma_pin_set_accepts_same_digest(
    pins: Map<Seq<char>, Seq<char>>,
    session: Seq<char>,
    pin: Seq<char>,
    attempt: Seq<char>,
)
    ensures
        pin_accepted(pins.insert(session, pin_digest(pin)), session, attempt) == (pin_digest(
            attempt,
        ) == pin_digest(pin)),
{
}

} // verus!

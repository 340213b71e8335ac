use vstd::prelude::*;
use vstd::string::*;
use crate::text::{digit_char, digit_to_char, digit_value, is_ascii_digit, push_char};
use rand::Rng;

verus! {

/// The ASCII digits of `s`, in order, with every other char left out.
pub open spec fn ascii_digits(s: Seq<char>) -> Seq<char>
    decreases s.len(),
{
    if s.len() == 0 {
        Seq::empty()
    } else {
        ascii_digits(s.drop_last()) + if is_ascii_digit(s.last()) {
            seq![s.last()]
        } else {
            Seq::empty()
        }
    }
}

/// The number that a sequence of decimal digits spells, most significant first.
pub open spec fn decimal_value(ds: Seq<char>) -> int
    decreases ds.len(),
{
    if ds.len() == 0 {
        0
    } else {
        decimal_value(ds.drop_last()) * 10 + digit_value(ds.last())
    }
}

/// `10` to the power `n`.
pub open spec fn pow10(n: nat) -> nat
    decreases n,
{
    if n == 0 {
        1
    } else {
        10 * pow10((n - 1) as nat)
    }
}

/// What parsing a session ID out of `s` gives: the number spelled by the ASCII
/// digits of `s`, provided there are exactly nine of them.
pub open spec fn parse_session_id(s: Seq<char>) -> Option<u32> {
    let ds = ascii_digits(s);
    if ds.len() == 9 {
        Some(decimal_value(ds) as u32)
    } else {
        None
    }
}

/// Three decimal digits of `n` (`n < 1000`), zero padded.
pub open spec fn group3(n: int) -> Seq<char> {
    seq![digit_char(n / 100 % 10), digit_char(n / 10 % 10), digit_char(n % 10)]
}

/// The leading group of a session ID: at least three digits, zero padded
/// (`n < 10000`).
pub open spec fn leading_group(n: int) -> Seq<char> {
    if n >= 1000 {
        seq![digit_char(n / 1000)] + group3(n % 1000)
    } else {
        group3(n)
    }
}

/// The text of a session ID: `XXX-XXX-XXX`, each group zero padded to three digits.
pub open spec fn session_id_text(id: u32) -> Seq<char> {
    let n = id as int;
    leading_group(n / 1_000_000) + seq!['-'] + group3(n / 1000 % 1000) + seq!['-'] + group3(
        n % 1000,
    )
}

/// 9-digit session ID, written as `XXX-XXX-XXX`.
#[derive(Debug, Clone, PartialEq, Eq, Hash, Structural)]
pub struct SessionId(pub u32);

/// `rand::rng().random_range(0..bound)` from the rand crate: a value drawn by the
/// thread-local generator from `0..bound`; which value comes is left open.
#[verifier::external_body]
fn random_below(bound: u32) -> (r: u32)
    requires
        bound > 0,
    ensures
        r < bound,
{
    rand::rng().random_range(0..bound)
}

impl SessionId {
    /// A fresh random ID below one billion, so that it has nine digits.
    pub fn random() -> (id: Self)
        ensures
            id.0 < 1_000_000_000,
    {
        SessionId(random_below(1_000_000_000))
    }

    /// Reads an ID out of text: the ASCII digits are kept, everything else is
    /// skipped, and there must be exactly nine digits.
    pub fn parse(s: &str) -> (r: Option<Self>)
        ensures
            r == match parse_session_id(s@) {
                Some(v) => Some(SessionId(v)),
                None => None::<SessionId>,
            },
            r matches Some(id) ==> id.0 < 1_000_000_000,
    {
        let n = s.unicode_len();
        let mut digits: Vec<char> = Vec::new();
        let mut i: usize = 0;
        while i < n
            invariant
                n == s@.len(),
                i <= n,
                digits@ == ascii_digits(s@.take(i as int)),
            decreases n - i,
        {
            let c = s.get_char(i);
            assert(s@.take(i as int + 1).drop_last() =~= s@.take(i as int));
            if '0' <= c && c <= '9' {
                digits.push(c);
            }
            i = i + 1;
        }
        assert(s@.take(n as int) =~= s@);
        if digits.len() != 9 {
            return None;
        }
        proof {
            lemma_ascii_digits_are_digits(s@);
        }
        let mut value: u32 = 0;
        let mut j: usize = 0;
        while j < 9
            invariant
                digits@ == ascii_digits(s@),
                digits@.len() == 9,
                j <= 9,
                value == decimal_value(digits@.take(j as int)),
                value < pow10(j as nat),
                forall|k: int| 0 <= k < digits@.len() ==> is_ascii_digit(#[trigger] digits@[k]),
            decreases 9 - j,
        {
            proof {
                lemma_pow10_small(j as nat);
            }
            let c = digits[j];
            let d = (c as u32) - 48;
            assert(digits@.take(j as int + 1).drop_last() =~= digits@.take(j as int));
            assert(value * 10 + d < pow10(j as nat) * 10) by (nonlinear_arith)
                requires
                    value < pow10(j as nat),
                    d < 10,
            ;
            value = value * 10 + d;
            j = j + 1;
        }
        assert(digits@.take(9) =~= digits@);
        proof {
            lemma_pow10_small(9);
        }
        Some(SessionId(value))
    }

    /// The ID as text, `XXX-XXX-XXX`; each group is zero padded to three digits.
    pub fn to_string(&self) -> (s: String)
        ensures
            s@ == session_id_text(self.0),
    {
        let id = self.0;
        let mut out = String::new();
        let top = id / 1_000_000;
        if top >= 1000 {
            push_char(&mut out, digit_to_char(top / 1000));
            push_group3(&mut out, top % 1000);
        } else {
            push_group3(&mut out, top);
        }
        push_char(&mut out, '-');
        push_group3(&mut out, id / 1000 % 1000);
        push_char(&mut out, '-');
        push_group3(&mut out, id % 1000);
        out
    }
}

fn push_group3(out: &mut String, n: u32)
    requires
        n < 1000,
    ensures
        final(out)@ == old(out)@ + group3(n as int),
{
    push_char(out, digit_to_char(n / 100 % 10));
    push_char(out, digit_to_char(n / 10 % 10));
    push_char(out, digit_to_char(n % 10));
}

proof fn lemma_pow10_small(j: nat)
    requires
        j <= 9,
    ensures
        pow10(j) <= 1_000_000_000,
        j < 9 ==> pow10(j) * 10 <= 1_000_000_000,
        pow10(j + 1) == pow10(j) * 10,
{
    reveal_with_fuel(pow10, 11);
}

proof fn lemma_ascii_digits_are_digits(s: Seq<char>)
    ensures
        forall|k: int| 0 <= k < ascii_digits(s).len() ==> is_ascii_digit(#[trigger] ascii_digits(s)[k]),
    decreases s.len(),
{
    if s.len() > 0 {
        lemma_ascii_digits_are_digits(s.drop_last());
        let prev = ascii_digits(s.drop_last());
        let tail = if is_ascii_digit(s.last()) {
            seq![s.last()]
        } else {
            Seq::<char>::empty()
        };
        assert forall|k: int| 0 <= k < ascii_digits(s).len() implies is_ascii_digit(
            #[trigger] ascii_digits(s)[k],
        ) by {
            if k < prev.len() {
                assert(ascii_digits(s)[k] == prev[k]);
            } else {
                assert(ascii_digits(s)[k] == tail[k - prev.len()]);
            }
        }
    }
}

} // verus!

verus! {

proof fn lemma_ascii_digits_concat(a: Seq<char>, b: Seq<char>)
    ensures
        ascii_digits(a + b) == ascii_digits(a) + ascii_digits(b),
    decreases b.len(),
{
    if b.len() == 0 {
        assert(a + b =~= a);
        assert(ascii_digits(a) + ascii_digits(b) =~= ascii_digits(a));
    } else {
        lemma_ascii_digits_concat(a, b.drop_last());
        assert((a + b).drop_last() =~= a + b.drop_last());
        assert((a + b).last() == b.last());
        let tail = if is_ascii_digit(b.last()) {
            seq![b.last()]
        } else {
            Seq::<char>::empty()
        };
        assert(ascii_digits(a) + ascii_digits(b.drop_last()) + tail =~= ascii_digits(a) + (
        ascii_digits(b.drop_last()) + tail));
    }
}

proof fn lemma_decimal_value_concat(a: Seq<char>, b: Seq<char>)
    ensures
        decimal_value(a + b) == decimal_value(a) * pow10(b.len()) + decimal_value(b),
    decreases b.len(),
{
    if b.len() == 0 {
        assert(a + b =~= a);
        assert(pow10(0) == 1);
        assert(decimal_value(b) == 0);
    } else {
        lemma_decimal_value_concat(a, b.drop_last());
        assert((a + b).drop_last() =~= a + b.drop_last());
        assert((a + b).last() == b.last());
        let p = pow10(b.drop_last().len());
        assert(pow10(b.len()) == 10 * p);
        let da = decimal_value(a);
        let db = decimal_value(b.drop_last());
        assert((da * p + db) * 10 == da * (10 * p) + db * 10) by (nonlinear_arith);
        assert(decimal_value(a + b) == decimal_value((a + b).drop_last()) * 10 + digit_value(
            b.last(),
        ));
        assert(decimal_value(b) == db * 10 + digit_value(b.last()));
    }
}

proof fn lemma_digit_char(d: int)
    requires
        0 <= d < 10,
    ensures
        is_ascii_digit(digit_char(d)),
        digit_value(digit_char(d)) == d,
{
}

proof fn lemma_group3(n: int)
    requires
        0 <= n < 1000,
    ensures
        ascii_digits(group3(n)) == group3(n),
        decimal_value(group3(n)) == n,
        group3(n).len() == 3,
{
    let g = group3(n);
    lemma_digit_char(n / 100 % 10);
    lemma_digit_char(n / 10 % 10);
    lemma_digit_char(n % 10);
    reveal_with_fuel(ascii_digits, 4);
    reveal_with_fuel(decimal_value, 4);
    assert(g.drop_last().drop_last().drop_last() =~= Seq::<char>::empty());
    assert(g.drop_last().drop_last() =~= seq![digit_char(n / 100 % 10)]);
    assert(g.drop_last() =~= seq![digit_char(n / 100 % 10), digit_char(n / 10 % 10)]);
    assert(ascii_digits(g) =~= g);
    assert(n / 100 % 10 == n / 100);
    assert((n / 100 * 10 + n / 10 % 10) * 10 + n % 10 == n);
}

proof fn lemma_dash_has_no_digits()
    ensures
        ascii_digits(seq!['-']) == Seq::<char>::empty(),
{
    reveal_with_fuel(ascii_digits, 2);
    assert(seq!['-'].drop_last() =~= Seq::<char>::empty());
    assert(ascii_digits(seq!['-']) =~= Seq::<char>::empty());
}

proof fn lemma_text_digits(id: u32)
    requires
        id < 1_000_000_000,
    ensures
        ascii_digits(session_id_text(id)) == group3(id as int / 1_000_000) + group3(
            id as int / 1000 % 1000,
        ) + group3(id as int % 1000),
        session_id_text(id).len() == 11,
{
    let n = id as int;
    let top = n / 1_000_000;
    let mid = n / 1000 % 1000;
    let low = n % 1000;
    lemma_group3(top);
    lemma_group3(mid);
    lemma_group3(low);
    lemma_dash_has_no_digits();
    let dash = seq!['-'];
    let a = group3(top);
    let b = group3(mid);
    let c = group3(low);
    assert(session_id_text(id) == a + dash + b + dash + c);
    lemma_ascii_digits_concat(a, dash);
    lemma_ascii_digits_concat(a + dash, b);
    lemma_ascii_digits_concat(a + dash + b, dash);
    lemma_ascii_digits_concat(a + dash + b + dash, c);
    assert(ascii_digits(session_id_text(id)) =~= a + b + c);
}

proof fn lemma_groups_value(top: int, mid: int, low: int)
    requires
        0 <= top < 1000,
        0 <= mid < 1000,
        0 <= low < 1000,
    ensures
        decimal_value(group3(top) + group3(mid) + group3(low)) == (top * 1000 + mid) * 1000 + low,
{
    lemma_group3(top);
    lemma_group3(mid);
    lemma_group3(low);
    lemma_decimal_value_concat(group3(top), group3(mid));
    lemma_decimal_value_concat(group3(top) + group3(mid), group3(low));
    reveal_with_fuel(pow10, 4);
}

proof fn lemma_split_thousands(n: int)
    requires
        0 <= n < 1_000_000_000,
    ensures
        n / 1_000_000 < 1000,
        n == ((n / 1_000_000) * 1000 + n / 1000 % 1000) * 1000 + n % 1000,
{
    let k = n / 1000;
    assert(n == k * 1000 + n % 1000);
    assert(k == (k / 1000) * 1000 + k % 1000);
    vstd::arithmetic::div_mod::lemma_div_denominator(n, 1000, 1000);
    assert(k / 1000 == n / 1_000_000);
}

/// Round trip of the ID format: the text of any nine-digit ID is eleven chars
/// long (`XXX-XXX-XXX`), and parsing it gives the same ID back.
pub proof fn lemma_session_id_text_round_trip(id: u32)
    requires
        id < 1_000_000_000,
    ensures
        session_id_text(id).len() == 11,
        parse_session_id(session_id_text(id)) == Some(id),
{
    let n = id as int;
    lemma_split_thousands(n);
    lemma_text_digits(id);
    lemma_groups_value(n / 1_000_000, n / 1000 % 1000, n % 1000);
}

} // verus!

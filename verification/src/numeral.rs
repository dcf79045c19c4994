//! Decimal text for the integer values that appear on the wire: subscription
//! identifiers, window identifiers, seek positions and volume levels.
//!
//! The spec-level representation is proved injective, which is what makes a
//! window identifier embedded in an endpoint path collision-free.

use vstd::prelude::*;
use vstd::string::StringExecFns;

verus! {

broadcast use vstd::seq::group_seq_axioms;

/// The character for one decimal digit.
pub open spec fn digit_char(d: int) -> char {
    if d == 0 {
        '0'
    } else if d == 1 {
        '1'
    } else if d == 2 {
        '2'
    } else if d == 3 {
        '3'
    } else if d == 4 {
        '4'
    } else if d == 5 {
        '5'
    } else if d == 6 {
        '6'
    } else if d == 7 {
        '7'
    } else if d == 8 {
        '8'
    } else {
        '9'
    }
}

/// The decimal digits of `n`, most significant first, with no sign and no
/// leading zeros (except for `n == 0` itself).
pub open spec fn dec_digits(n: nat) -> Seq<char>
    decreases n,
{
    if n < 10 {
        seq![digit_char(n as int)]
    } else {
        dec_digits(n / 10) + seq![digit_char((n % 10) as int)]
    }
}

/// The decimal text of a signed value: the digits of the magnitude, with a
/// leading minus sign when the value is negative.
pub open spec fn signed_dec(v: int) -> Seq<char> {
    if v < 0 {
        seq!['-'] + dec_digits((-v) as nat)
    } else {
        dec_digits(v as nat)
    }
}

proof fn lemma_dec_digits_len(n: nat)
    ensures
        dec_digits(n).len() >= 1,
        n >= 10 ==> dec_digits(n).len() >= 2,
    decreases n,
{
    if n >= 10 {
        lemma_dec_digits_len(n / 10);
    }
}

proof fn lemma_digit_char_ne_minus(d: int)
    requires
        0 <= d < 10,
    ensures
        digit_char(d) != '-',
{
}

/// Distinct digits never share a character.
pub proof fn lemma_digit_char_injective(a: int, b: int)
    requires
        0 <= a < 10,
        0 <= b < 10,
        digit_char(a) == digit_char(b),
    ensures
        a == b,
{
}

proof fn lemma_dec_digits_no_minus(n: nat)
    ensures
        forall|i: int| 0 <= i < dec_digits(n).len() ==> dec_digits(n)[i] != '-',
    decreases n,
{
    if n < 10 {
        lemma_digit_char_ne_minus(n as int);
        assert(dec_digits(n) == seq![digit_char(n as int)]);
        assert(forall|i: int|
            0 <= i < dec_digits(n).len() ==> dec_digits(n)[i] == seq![digit_char(n as int)][i]);
    } else {
        lemma_dec_digits_no_minus(n / 10);
        lemma_digit_char_ne_minus((n % 10) as int);
        let prefix = dec_digits(n / 10);
        let last = seq![digit_char((n % 10) as int)];
        assert(dec_digits(n) == prefix + last);
        assert forall|i: int| 0 <= i < dec_digits(n).len() implies dec_digits(n)[i] != '-' by {
            assert((prefix + last).len() == prefix.len() + 1);
            if i < prefix.len() {
                assert((prefix + last)[i] == prefix[i]);
            } else {
                assert((prefix + last)[i] == last[i - prefix.len()]);
                assert(last[0] == digit_char((n % 10) as int));
            }
        }
    }
}

/// Distinct magnitudes never print as the same digit string.
pub proof fn lemma_dec_digits_injective(a: nat, b: nat)
    requires
        dec_digits(a) == dec_digits(b),
    ensures
        a == b,
    decreases a + b,
{
    lemma_dec_digits_len(a);
    lemma_dec_digits_len(b);
    if a < 10 && b < 10 {
        assert(dec_digits(a) == seq![digit_char(a as int)]);
        assert(dec_digits(b) == seq![digit_char(b as int)]);
        assert(seq![digit_char(a as int)][0] == digit_char(a as int));
        assert(seq![digit_char(b as int)][0] == digit_char(b as int));
        lemma_digit_char_injective(a as int, b as int);
    } else if a < 10 {
        assert(dec_digits(a).len() == 1);
        assert(false);
    } else if b < 10 {
        assert(dec_digits(b).len() == 1);
        assert(false);
    } else {
        let pa = dec_digits(a / 10);
        let pb = dec_digits(b / 10);
        let da = seq![digit_char((a % 10) as int)];
        let db = seq![digit_char((b % 10) as int)];
        assert(dec_digits(a) == pa + da);
        assert(dec_digits(b) == pb + db);
        assert((pa + da).len() == pa.len() + 1);
        assert((pb + db).len() == pb.len() + 1);
        assert(pa.len() == pb.len());
        let la = dec_digits(a).len() as int;
        assert((pa + da)[la - 1] == da[0]);
        assert((pb + db)[la - 1] == db[0]);
        lemma_digit_char_injective((a % 10) as int, (b % 10) as int);
        assert forall|i: int| 0 <= i < pa.len() implies pa[i] == pb[i] by {
            assert((pa + da)[i] == pa[i]);
            assert((pb + db)[i] == pb[i]);
        }
        assert(pa =~= pb);
        lemma_dec_digits_injective(a / 10, b / 10);
    }
}

/// Cancelling a shared prefix of two equal character sequences.
pub proof fn lemma_prefix_cancel(p: Seq<char>, x: Seq<char>, y: Seq<char>)
    requires
        p + x == p + y,
    ensures
        x == y,
{
    assert((p + x).len() == p.len() + x.len());
    assert((p + y).len() == p.len() + y.len());
    assert(x.len() == y.len());
    assert forall|i: int| 0 <= i < x.len() implies x[i] == y[i] by {
        assert((p + x)[p.len() + i] == x[i]);
        assert((p + y)[p.len() + i] == y[i]);
    }
    assert(x =~= y);
}

/// Distinct signed values never print as the same text.
pub proof fn lemma_signed_dec_injective(v1: int, v2: int)
    requires
        signed_dec(v1) == signed_dec(v2),
    ensures
        v1 == v2,
{
    lemma_dec_digits_len((-v1) as nat);
    lemma_dec_digits_len((-v2) as nat);
    lemma_dec_digits_len(v1 as nat);
    lemma_dec_digits_len(v2 as nat);
    if v1 < 0 && v2 < 0 {
        lemma_prefix_cancel(seq!['-'], dec_digits((-v1) as nat), dec_digits((-v2) as nat));
        lemma_dec_digits_injective((-v1) as nat, (-v2) as nat);
    } else if v1 >= 0 && v2 >= 0 {
        lemma_dec_digits_injective(v1 as nat, v2 as nat);
    } else if v1 < 0 {
        assert(signed_dec(v1)[0] == '-');
        lemma_dec_digits_no_minus(v2 as nat);
        assert(signed_dec(v2)[0] != '-');
        assert(false);
    } else {
        assert(signed_dec(v2)[0] == '-');
        lemma_dec_digits_no_minus(v1 as nat);
        assert(signed_dec(v1)[0] != '-');
        assert(false);
    }
}

/// One decimal digit as a string slice.
fn digit_str(d: u64) -> (r: &'static str)
    requires
        d < 10,
    ensures
        r@ == seq![digit_char(d as int)],
{
    proof {
        reveal_strlit("0");
        reveal_strlit("1");
        reveal_strlit("2");
        reveal_strlit("3");
        reveal_strlit("4");
        reveal_strlit("5");
        reveal_strlit("6");
        reveal_strlit("7");
        reveal_strlit("8");
        reveal_strlit("9");
    }
    let r = match d {
        0 => "0",
        1 => "1",
        2 => "2",
        3 => "3",
        4 => "4",
        5 => "5",
        6 => "6",
        7 => "7",
        8 => "8",
        _ => "9",
    };
    proof {
        assert(r@ =~= seq![digit_char(d as int)]);
    }
    r
}

/// The decimal text of an unsigned value.
pub fn u64_to_dec(n: u64) -> (r: String)
    ensures
        r@ == dec_digits(n as nat),
    decreases n,
{
    if n < 10 {
        String::from_str(digit_str(n))
    } else {
        let mut s = u64_to_dec(n / 10);
        s.append(digit_str(n % 10));
        s
    }
}

/// The decimal text of a signed value.
pub fn i64_to_dec(v: i64) -> (r: String)
    ensures
        r@ == signed_dec(v as int),
{
    if v >= 0 {
        u64_to_dec(v as u64)
    } else {
        let mag: u64 = ((-(v + 1)) as u64) + 1;
        proof {
            assert(mag as int == -(v as int));
            reveal_strlit("-");
        }
        let mut s = String::from_str("-");
        let digits = u64_to_dec(mag);
        s.append(digits.as_str());
        proof {
            assert("-"@ =~= seq!['-']);
        }
        s
    }
}

} // verus!

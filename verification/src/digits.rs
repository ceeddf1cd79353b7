//! Decimal rendering and reading of unsigned integers.
//!
//! Numeric path segments (an SMS number, an attachment id), numeric query
//! parameters and numeric JSON fields are all written as plain base-10
//! digits. `spec_dec` is the canonical rendering; `dec_to_u64` accepts
//! exactly the strings that `spec_dec` produces.

use vstd::prelude::*;
use vstd::string::StrSliceExecFns;
use vstd::string::StringExecFns;

verus! {

/// The digit character for a value below ten.
pub open spec fn dec_digit(d: nat) -> char {
    if d == 0 {
        '0'
    } else if d == 1 {
        '1'
    } else if d == 2 {
        '2'
    } else if d == 3 {
        '3'
    } else if d == 4 {
        '4'
    } else if d == 5 {
        '5'
    } else if d == 6 {
        '6'
    } else if d == 7 {
        '7'
    } else if d == 8 {
        '8'
    } else {
        '9'
    }
}

/// The value of a digit character; non-digits are mapped like '9' and are
/// ruled out separately by `is_dec_digit`.
pub open spec fn dec_digit_val(c: char) -> nat {
    if c == '0' {
        0
    } else if c == '1' {
        1
    } else if c == '2' {
        2
    } else if c == '3' {
        3
    } else if c == '4' {
        4
    } else if c == '5' {
        5
    } else if c == '6' {
        6
    } else if c == '7' {
        7
    } else if c == '8' {
        8
    } else {
        9
    }
}

pub open spec fn is_dec_digit(c: char) -> bool {
    c == '0' || c == '1' || c == '2' || c == '3' || c == '4' || c == '5' || c == '6' || c == '7'
        || c == '8' || c == '9'
}

/// The base-10 rendering of `n`, most significant digit first, no sign, no
/// leading zeros.
pub open spec fn spec_dec(n: nat) -> Seq<char>
    decreases n,
{
    if n < 10 {
        seq![dec_digit(n)]
    } else {
        spec_dec(n / 10) + seq![dec_digit(n % 10)]
    }
}

/// The numeric value of a digit string, most significant digit first.
pub open spec fn digits_val(s: Seq<char>) -> nat
    decreases s.len(),
{
    if s.len() == 0 {
        0
    } else {
        digits_val(s.drop_last()) * 10 + dec_digit_val(s.last())
    }
}

pub open spec fn all_dec_digits(s: Seq<char>) -> bool {
    forall|i: int| 0 <= i < s.len() ==> is_dec_digit(#[trigger] s[i])
}

/// A string is a canonical `u64` decimal when it is exactly what `spec_dec`
/// produces for some `u64`: nonempty, all digits, no leading zero, and its
/// value fits.
pub open spec fn is_canonical_dec(s: Seq<char>) -> bool {
    &&& s.len() > 0
    &&& all_dec_digits(s)
    &&& (s[0] != '0' || s.len() == 1)
    &&& digits_val(s) <= u64::MAX
}

/// The one-character string for a digit value.
fn digit_str(d: u64) -> (r: &'static str)
    requires
        d < 10,
    ensures
        r@ =~= seq![dec_digit(d as nat)],
{
    proof {
        reveal_strlit("0");
        reveal_strlit("1");
        reveal_strlit("2");
        reveal_strlit("3");
        reveal_strlit("4");
        reveal_strlit("5");
        reveal_strlit("6");
        reveal_strlit("7");
        reveal_strlit("8");
        reveal_strlit("9");
    }
    match d {
        0 => "0",
        1 => "1",
        2 => "2",
        3 => "3",
        4 => "4",
        5 => "5",
        6 => "6",
        7 => "7",
        8 => "8",
        _ => "9",
    }
}

/// Renders `n` in base 10.
pub fn u64_to_dec(n: u64) -> (r: String)
    ensures
        r@ == spec_dec(n as nat),
    decreases n,
{
    if n < 10 {
        digit_str(n).to_owned()
    } else {
        let mut s = u64_to_dec(n / 10);
        s.append(digit_str(n % 10));
        proof {
            assert(s@ =~= spec_dec((n / 10) as nat) + seq![dec_digit((n % 10) as nat)]);
        }
        s
    }
}

/// Renders a `usize` in base 10.
pub fn usize_to_dec(n: usize) -> (r: String)
    ensures
        r@ == spec_dec(n as nat),
{
    u64_to_dec(n as u64)
}

/// Appending one more digit multiplies the value by ten and adds the digit.
proof fn lemma_digits_val_step(s: Seq<char>, i: int)
    requires
        0 <= i < s.len(),
    ensures
        digits_val(s.take(i + 1)) == digits_val(s.take(i)) * 10 + dec_digit_val(s[i]),
{
    assert(s.take(i + 1).drop_last() =~= s.take(i));
    assert(s.take(i + 1).last() == s[i]);
}

/// The value of a digit string never shrinks as the string grows.
proof fn lemma_digits_val_take_le(s: Seq<char>, i: int)
    requires
        0 <= i <= s.len(),
    ensures
        digits_val(s.take(i)) <= digits_val(s),
    decreases s.len() - i,
{
    if i == s.len() {
        assert(s.take(i) =~= s);
    } else {
        lemma_digits_val_step(s, i);
        lemma_digits_val_take_le(s, i + 1);
    }
}

/// Reads a canonical base-10 `u64`; returns `None` on anything else.
pub fn dec_to_u64(s: &str) -> (r: Option<u64>)
    ensures
        match r {
            Some(v) => is_canonical_dec(s@) && v as nat == digits_val(s@),
            None => !is_canonical_dec(s@),
        },
{
    let len = s.unicode_len();
    if len == 0 {
        return None;
    }
    if len > 1 && s.get_char(0) == '0' {
        return None;
    }
    let mut i: usize = 0;
    let mut acc: u64 = 0;
    while i < len
        invariant
            0 <= i <= len,
            len == s@.len(),
            acc as nat == digits_val(s@.take(i as int)),
            forall|j: int| 0 <= j < i ==> is_dec_digit(#[trigger] s@[j]),
        decreases len - i,
    {
        let c = s.get_char(i);
        let d: u64 = match c {
            '0' => 0,
            '1' => 1,
            '2' => 2,
            '3' => 3,
            '4' => 4,
            '5' => 5,
            '6' => 6,
            '7' => 7,
            '8' => 8,
            '9' => 9,
            _ => {
                return None;
            },
        };
        proof {
            assert(d as nat == dec_digit_val(s@[i as int]));
            lemma_digits_val_step(s@, i as int);
        }
        if acc > (u64::MAX - d) / 10 {
            proof {
                assert(acc * 10 + d > u64::MAX);
                lemma_digits_val_take_le(s@, i + 1);
            }
            return None;
        }
        acc = acc * 10 + d;
        i = i + 1;
    }
    proof {
        assert(s@.take(len as int) =~= s@);
    }
    Some(acc)
}

/// Reading back a rendered number gives the number: `spec_dec` output is
/// canonical and its value is the rendered one.
pub proof fn lemma_dec_round_trip(n: u64)
    ensures
        is_canonical_dec(spec_dec(n as nat)),
        digits_val(spec_dec(n as nat)) == n,
        n > 0 ==> spec_dec(n as nat)[0] != '0',
    decreases n,
{
    if n < 10 {
        let s = spec_dec(n as nat);
        assert(s =~= seq![dec_digit(n as nat)]);
        assert(s.drop_last() =~= Seq::<char>::empty());
        assert(digits_val(Seq::<char>::empty()) == 0);
        assert(s.last() == dec_digit(n as nat));
        assert(digits_val(s) == digits_val(s.drop_last()) * 10 + dec_digit_val(s.last()));
        assert(digits_val(s) == dec_digit_val(dec_digit(n as nat)));
        assert(dec_digit_val(dec_digit(n as nat)) == n as nat);
        assert(is_dec_digit(dec_digit(n as nat)));
    } else {
        lemma_dec_round_trip(n / 10);
        let s = spec_dec(n as nat);
        assert(s == spec_dec((n / 10) as nat) + seq![dec_digit((n % 10) as nat)]);
        assert(s.drop_last() =~= spec_dec((n / 10) as nat));
        assert(s.last() == dec_digit((n % 10) as nat));
        assert(digits_val(s.drop_last()) == (n / 10) as nat);
        assert(dec_digit_val(dec_digit((n % 10) as nat)) == (n % 10) as nat);
        assert(digits_val(s) == (n / 10) * 10 + (n % 10));
        assert(digits_val(s) == n);
        assert(s[0] == spec_dec((n / 10) as nat)[0]);
        assert forall|i: int| 0 <= i < s.len() implies is_dec_digit(#[trigger] s[i]) by {
            if i < s.len() - 1 {
                assert(s[i] == spec_dec((n / 10) as nat)[i]);
            } else {
                assert(s[i] == dec_digit((n % 10) as nat));
            }
        }
    }
}

} // verus!

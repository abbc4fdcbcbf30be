//! Verified text utilities: string equality and decimal rendering of
//! integers, used by every module that builds a user-visible reply.

use vstd::prelude::*;
use vstd::string::StringExecFns;
use vstd::string::StringSliceAdditionalSpecFns;

verus! {

/// The decimal digit character for a value in 0..10.
pub open spec fn digit_char(d: int) -> char {
    if d == 0 {
        '0'
    } else if d == 1 {
        '1'
    } else if d == 2 {
        '2'
    } else if d == 3 {
        '3'
    } else if d == 4 {
        '4'
    } else if d == 5 {
        '5'
    } else if d == 6 {
        '6'
    } else if d == 7 {
        '7'
    } else if d == 8 {
        '8'
    } else {
        '9'
    }
}

/// The decimal digit string of a natural number, most significant first.
pub open spec fn dec_digits(n: nat) -> Seq<char>
    decreases n,
{
    if n < 10 {
        seq![digit_char(n as int)]
    } else {
        dec_digits(n / 10).push(digit_char((n % 10) as int))
    }
}

/// The decimal string of an integer, with a `-` sign when negative.
pub open spec fn int_digits(n: int) -> Seq<char> {
    if n >= 0 {
        dec_digits(n as nat)
    } else {
        seq!['-'] + dec_digits((-n) as nat)
    }
}

/// The decimal string of an integer with an explicit sign, as `{:+}` prints:
/// `+5`, `-2`, `+0`.
pub open spec fn plus_int_digits(n: int) -> Seq<char> {
    if n >= 0 {
        seq!['+'] + dec_digits(n as nat)
    } else {
        int_digits(n)
    }
}

/// The one-character string for a decimal digit.
fn digit_str(d: u64) -> (r: &'static str)
    requires
        d < 10,
    ensures
        r@ == seq![digit_char(d as int)],
{
    proof {
        reveal_strlit("0");
        reveal_strlit("1");
        reveal_strlit("2");
        reveal_strlit("3");
        reveal_strlit("4");
        reveal_strlit("5");
        reveal_strlit("6");
        reveal_strlit("7");
        reveal_strlit("8");
        reveal_strlit("9");
    }
    if d == 0 {
        "0"
    } else if d == 1 {
        "1"
    } else if d == 2 {
        "2"
    } else if d == 3 {
        "3"
    } else if d == 4 {
        "4"
    } else if d == 5 {
        "5"
    } else if d == 6 {
        "6"
    } else if d == 7 {
        "7"
    } else if d == 8 {
        "8"
    } else {
        "9"
    }
}

/// Renders an unsigned integer in decimal.
pub fn u64_to_string(n: u64) -> (r: String)
    ensures
        r@ == dec_digits(n as nat),
    decreases n,
{
    if n < 10 {
        digit_str(n).to_owned()
    } else {
        let mut s = u64_to_string(n / 10);
        s.append(digit_str(n % 10));
        proof {
            assert(s@ =~= dec_digits((n / 10) as nat).push(digit_char((n % 10) as int)));
        }
        s
    }
}

/// Renders a signed integer in decimal, `-` prefixed when negative.
pub fn i64_to_string(n: i64) -> (r: String)
    ensures
        r@ == int_digits(n as int),
{
    if n >= 0 {
        u64_to_string(n as u64)
    } else {
        let m: u64 = ((-(n + 1)) as u64) + 1;
        proof {
            reveal_strlit("-");
            assert(m == -(n as int));
        }
        let mut s = "-".to_owned();
        let digits = u64_to_string(m);
        s.append(digits.as_str());
        proof {
            assert(s@ =~= seq!['-'] + dec_digits((-(n as int)) as nat));
        }
        s
    }
}

/// Renders a signed integer with an explicit sign, as `{:+}` prints.
pub fn plus_i64_to_string(n: i64) -> (r: String)
    ensures
        r@ == plus_int_digits(n as int),
{
    if n >= 0 {
        proof {
            reveal_strlit("+");
        }
        let mut s = "+".to_owned();
        let digits = u64_to_string(n as u64);
        s.append(digits.as_str());
        proof {
            assert(s@ =~= seq!['+'] + dec_digits(n as nat));
        }
        s
    } else {
        i64_to_string(n)
    }
}

/// Compares two strings for equality of their character sequences.
pub fn str_eq(a: &str, b: &str) -> (r: bool)
    ensures
        r == (a@ == b@),
{
    broadcast use vstd::utf8::encode_utf8_decode_utf8;

    let ab = a.as_bytes();
    let bb = b.as_bytes();
    if ab.len() != bb.len() {
        proof {
            assert(a@ != b@) by {
                if a@ == b@ {
                    assert(ab@ =~= bb@);
                }
            }
        }
        return false;
    }
    let n = ab.len();
    let mut i: usize = 0;
    while i < n
        invariant
            n == ab@.len() == bb@.len(),
            i <= n,
            forall|j: int| 0 <= j < i ==> ab@[j] == bb@[j],
            ab@ == a.spec_bytes(),
            bb@ == b.spec_bytes(),
        decreases n - i,
    {
        if ab[i] != bb[i] {
            proof {
                assert(a@ != b@) by {
                    if a@ == b@ {
                        assert(ab@ =~= bb@);
                    }
                }
            }
            return false;
        }
        i += 1;
    }
    proof {
        assert(ab@ =~= bb@);
        assert(vstd::utf8::decode_utf8(vstd::utf8::encode_utf8(a@)) == a@);
        assert(vstd::utf8::decode_utf8(vstd::utf8::encode_utf8(b@)) == b@);
    }
    true
}

/// A decimal digit character.
pub open spec fn is_digit_char(c: char) -> bool {
    '0' <= c && c <= '9'
}

/// The value of a decimal digit character.
pub open spec fn digit_value(c: char) -> int {
    c as int - 48
}

/// The value of the first `i` digit characters of a string.
pub open spec fn digits_prefix_value(s: Seq<char>, i: int) -> int
    recommends
        0 <= i <= s.len(),
    decreases i,
{
    if i <= 0 {
        0
    } else {
        digits_prefix_value(s, i - 1) * 10 + digit_value(s[i - 1])
    }
}

/// Where the digits of a signed decimal start: after one optional sign.
pub open spec fn spec_sign_start(s: Seq<char>) -> int {
    if s.len() > 0 && (s[0] == '-' || s[0] == '+') {
        1
    } else {
        0
    }
}

/// Every character is a decimal digit.
pub open spec fn all_digits(s: Seq<char>) -> bool {
    forall|k: int| 0 <= k < s.len() ==> is_digit_char(#[trigger] s[k])
}

/// What parsing a decimal integer makes of a string: an optional sign, then
/// one or more digits, valued within the 32-bit range; anything else is
/// rejected.
pub open spec fn spec_parse_i32(s: Seq<char>) -> Option<i32> {
    let negative = s.len() > 0 && s[0] == '-';
    let body = s.skip(spec_sign_start(s));
    if body.len() == 0 || !all_digits(body) {
        None
    } else {
        let magnitude = digits_prefix_value(body, body.len() as int);
        let value = if negative {
            -magnitude
        } else {
            magnitude
        };
        if i32::MIN <= value <= i32::MAX {
            Some(value as i32)
        } else {
            None
        }
    }
}

/// A digit string's prefix value is never negative.
proof fn lemma_digits_prefix_nonneg(s: Seq<char>, i: int)
    requires
        0 <= i <= s.len(),
        forall|k: int| 0 <= k < s.len() ==> is_digit_char(#[trigger] s[k]),
    ensures
        digits_prefix_value(s, i) >= 0,
    decreases i,
{
    if i > 0 {
        lemma_digits_prefix_nonneg(s, i - 1);
    }
}

/// A digit string's value never shrinks as digits are appended.
proof fn lemma_digits_prefix_monotonic(s: Seq<char>, i: int, j: int)
    requires
        0 <= i <= j <= s.len(),
        forall|k: int| 0 <= k < s.len() ==> is_digit_char(#[trigger] s[k]),
    ensures
        digits_prefix_value(s, i) <= digits_prefix_value(s, j),
    decreases j - i,
{
    if i < j {
        lemma_digits_prefix_monotonic(s, i, j - 1);
        lemma_digits_prefix_nonneg(s, j - 1);
    }
}

/// Parses a decimal integer with an optional sign, exactly as the standard
/// string-to-integer conversion accepts it.
pub fn parse_i32(s: &str) -> (r: Option<i32>)
    ensures
        r == spec_parse_i32(s@),
{
    let sv: Ghost<Seq<char>> = Ghost(s@);
    let n = s.unicode_len();
    if n == 0 {
        return None;
    }
    let first = s.get_char(0);
    let negative = first == '-';
    let start: usize = if first == '-' || first == '+' {
        1
    } else {
        0
    };
    let ghost body = sv@.skip(start as int);
    if n - start == 0 {
        return None;
    }
    let mut acc: i64 = 0;
    let mut i: usize = start;
    while i < n
        invariant
            sv@ == s@,
            n == sv@.len(),
            n >= 1,
            body == sv@.skip(start as int),
            start <= i <= n,
            start <= 1,
            start as int == spec_sign_start(sv@),
            negative == (sv@[0] == '-'),
            n - start >= 1,
            0 <= acc <= 0x80000000,
            acc == digits_prefix_value(body, i - start),
            forall|k: int| 0 <= k < i - start ==> is_digit_char(#[trigger] body[k]),
        decreases n - i,
    {
        let c = s.get_char(i);
        if !(c >= '0' && c <= '9') {
            proof {
                assert(body[i - start] == sv@[i as int]);
                assert(!all_digits(body)) by {
                    assert(0 <= i - start < body.len() && !is_digit_char(body[i - start]));
                }
                assert(spec_parse_i32(sv@) is None);
            }
            return None;
        }
        let d = (c as u32) - 48;
        proof {
            assert(body[i - start] == sv@[i as int]);
            assert(is_digit_char(body[i - start]));
            assert(d == digit_value(body[i - start]));
        }
        if acc > 0x80000000 / 10 || acc * 10 + (d as i64) > 0x80000000 {
            proof {
                if all_digits(body) {
                    assert(digits_prefix_value(body, i + 1 - start) == acc * 10 + d);
                    lemma_digits_prefix_monotonic(body, i + 1 - start, body.len() as int);
                    assert(digits_prefix_value(body, body.len() as int) > 0x80000000);
                    assert(spec_parse_i32(sv@) is None);
                } else {
                    assert(spec_parse_i32(sv@) is None);
                }
            }
            return None;
        }
        acc = acc * 10 + (d as i64);
        i += 1;
    }
    proof {
        assert(i - start == body.len());
    }
    if negative {
        let value = -acc;
        proof {
            assert(value >= -0x80000000);
        }
        if value < -0x7fffffff - 1 {
            return None;
        }
        Some(value as i32)
    } else {
        if acc > 0x7fffffff {
            return None;
        }
        Some(acc as i32)
    }
}

/// Whether a byte occurs in a slice.
pub fn bytes_contain(b: &[u8], x: u8) -> (r: bool)
    ensures
        r == exists|i: int| 0 <= i < b@.len() && b@[i] == x,
{
    let n = b.len();
    let mut i: usize = 0;
    while i < n
        invariant
            n == b@.len(),
            i <= n,
            forall|j: int| 0 <= j < i ==> b@[j] != x,
        decreases n - i,
    {
        if *vstd::slice::slice_index_get(b, i) == x {
            return true;
        }
        i += 1;
    }
    false
}

} // verus!

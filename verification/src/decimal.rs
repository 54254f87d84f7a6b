//! Decimal rendering and parsing of request counters.
//!
//! Header values such as `WWSVC-REQID` and `WWSVC-ACCEPT-RESULT-MAX-LINES`
//! carry unsigned integers in decimal notation. Rendering and parsing are
//! verified against one another: parsing a rendered counter gives the
//! counter back.

use vstd::prelude::*;

verus! {

/// The decimal digit character for a value below ten.
pub open spec fn digit_char(d: nat) -> char {
    if d == 0 {
        '0'
    } else if d == 1 {
        '1'
    } else if d == 2 {
        '2'
    } else if d == 3 {
        '3'
    } else if d == 4 {
        '4'
    } else if d == 5 {
        '5'
    } else if d == 6 {
        '6'
    } else if d == 7 {
        '7'
    } else if d == 8 {
        '8'
    } else {
        '9'
    }
}

/// The value of a decimal digit character, or ten for any other character.
pub open spec fn digit_val(c: char) -> nat {
    if c == '0' {
        0
    } else if c == '1' {
        1
    } else if c == '2' {
        2
    } else if c == '3' {
        3
    } else if c == '4' {
        4
    } else if c == '5' {
        5
    } else if c == '6' {
        6
    } else if c == '7' {
        7
    } else if c == '8' {
        8
    } else if c == '9' {
        9
    } else {
        10
    }
}

/// Whether a character is a decimal digit.
pub open spec fn is_digit_char(c: char) -> bool {
    digit_val(c) < 10
}

/// The decimal notation of a natural number, without leading zeroes
/// (a lone zero for zero itself).
pub open spec fn spec_decimal(n: nat) -> Seq<char>
    decreases n,
{
    if n < 10 {
        seq![digit_char(n)]
    } else {
        spec_decimal(n / 10) + seq![digit_char(n % 10)]
    }
}

/// The number denoted by a sequence of decimal digit characters;
/// `None` if the sequence is empty or holds a non-digit.
pub open spec fn spec_parse_decimal(s: Seq<char>) -> Option<nat>
    decreases s.len(),
{
    if s.len() == 0 {
        None
    } else if !is_digit_char(s.last()) {
        None
    } else if s.len() == 1 {
        Some(digit_val(s.last()))
    } else {
        match spec_parse_decimal(s.drop_last()) {
            None => None,
            Some(v) => Some(v * 10 + digit_val(s.last())),
        }
    }
}

/// Decimal notation consists of ASCII characters only.
pub proof fn lemma_decimal_ascii(n: nat)
    ensures
        vstd::utf8::is_ascii_chars(spec_decimal(n)),
    decreases n,
{
    if n >= 10 {
        lemma_decimal_ascii(n / 10);
    }
}

/// Parsing inverts rendering: the decimal notation of `n` parses back to `n`.
pub proof fn lemma_decimal_round_trip(n: nat)
    ensures
        spec_parse_decimal(spec_decimal(n)) == Some(n),
    decreases n,
{
    if n < 10 {
        assert(spec_decimal(n).last() == digit_char(n));
    } else {
        lemma_decimal_round_trip(n / 10);
        let s = spec_decimal(n);
        assert(s.last() == digit_char(n % 10));
        assert(s.drop_last() =~= spec_decimal(n / 10));
        assert(n / 10 * 10 + n % 10 == n);
    }
}

/// The decimal digit string for a value below ten.
fn digit_str(d: u32) -> (r: &'static str)
    requires
        d < 10,
    ensures
        r@ =~= seq![digit_char(d as nat)],
        r@.len() == 1,
{
    proof {
        reveal_strlit("0");
        reveal_strlit("1");
        reveal_strlit("2");
        reveal_strlit("3");
        reveal_strlit("4");
        reveal_strlit("5");
        reveal_strlit("6");
        reveal_strlit("7");
        reveal_strlit("8");
        reveal_strlit("9");
    }
    match d {
        0 => "0",
        1 => "1",
        2 => "2",
        3 => "3",
        4 => "4",
        5 => "5",
        6 => "6",
        7 => "7",
        8 => "8",
        _ => "9",
    }
}

/// Appends the decimal notation of `n` to `out`.
fn push_decimal(n: u32, out: &mut String)
    ensures
        final(out)@ == old(out)@ + spec_decimal(n as nat),
    decreases n,
{
    if n >= 10 {
        push_decimal(n / 10, out);
    }
    out.append(digit_str(n % 10));
    proof {
        if n < 10 {
            assert(spec_decimal(n as nat) =~= seq![digit_char(n as nat)]);
            assert(old(out)@ + spec_decimal(n as nat) =~= final(out)@);
        } else {
            assert(old(out)@ + spec_decimal(n as nat) =~= final(out)@);
        }
    }
}

/// Renders `n` in decimal notation.
pub fn u32_to_decimal(n: u32) -> (r: String)
    ensures
        r@ == spec_decimal(n as nat),
        vstd::utf8::is_ascii_chars(r@),
        r@.len() > 0,
{
    let mut out = String::new();
    push_decimal(n, &mut out);
    proof {
        assert(out@ =~= spec_decimal(n as nat));
        lemma_decimal_ascii(n as nat);
        lemma_decimal_len(n as nat);
    }
    out
}

/// Decimal notation is never empty.
pub proof fn lemma_decimal_len(n: nat)
    ensures
        spec_decimal(n).len() > 0,
    decreases n,
{
    if n >= 10 {
        lemma_decimal_len(n / 10);
    }
}

/// The digit value of an ASCII character, or ten for a non-digit.
fn char_digit_val(c: char) -> (r: u32)
    ensures
        r == digit_val(c),
        r <= 10,
{
    match c {
        '0' => 0,
        '1' => 1,
        '2' => 2,
        '3' => 3,
        '4' => 4,
        '5' => 5,
        '6' => 6,
        '7' => 7,
        '8' => 8,
        '9' => 9,
        _ => 10,
    }
}

/// Parses a decimal string into a `u32`.
///
/// Returns `None` when the string is empty, holds a non-digit, or denotes
/// a number above `u32::MAX`.
pub fn parse_u32_decimal(s: &str) -> (r: Option<u32>)
    ensures
        match spec_parse_decimal(s@) {
            Some(v) => if v <= u32::MAX {
                r == Some(v as u32)
            } else {
                r is None
            },
            None => r is None,
        },
{
    let len = s.unicode_len();
    let mut i: usize = 0;
    let mut acc: u32 = 0;
    let mut overflowed = false;
    while i < len
        invariant
            i <= len,
            len == s@.len(),
            !overflowed ==> match spec_parse_decimal_prefix(s@, i as int) {
                Some(v) => v <= u32::MAX && acc == v,
                None => i == 0 && acc == 0,
            },
            !overflowed ==> forall|j: int| 0 <= j < i ==> is_digit_char(#[trigger] s@[j]),
            overflowed ==> spec_parse_prefix_overflows(s@, i as int),
        decreases len - i,
    {
        let c = s.get_char(i);
        let d = char_digit_val(c);
        if d >= 10 {
            proof {
                lemma_parse_nondigit(s@, i as int);
            }
            return None;
        }
        if overflowed {
            proof {
                lemma_parse_prefix_overflow_extend(s@, i as int);
            }
        } else {
            if acc > (u32::MAX - d) / 10 {
                proof {
                    lemma_parse_prefix_step(s@, i as int);
                }
                overflowed = true;
            } else {
                let new_acc = acc * 10 + d;
                proof {
                    lemma_parse_prefix_step(s@, i as int);
                }
                acc = new_acc;
            }
        }
        i = i + 1;
    }
    if overflowed {
        proof {
            lemma_parse_prefix_full(s@);
        }
        None
    } else if i == 0 {
        None
    } else {
        proof {
            lemma_parse_prefix_full(s@);
        }
        Some(acc)
    }
}

/// The number denoted by the first `k` characters of `s`; `None` when `k`
/// is zero or a non-digit occurs among them.
pub open spec fn spec_parse_decimal_prefix(s: Seq<char>, k: int) -> Option<nat> {
    spec_parse_decimal(s.take(k))
}

/// Whether the first `k` characters of `s` are digits denoting a number
/// above `u32::MAX`.
pub open spec fn spec_parse_prefix_overflows(s: Seq<char>, k: int) -> bool {
    match spec_parse_decimal_prefix(s, k) {
        Some(v) => v > u32::MAX,
        None => false,
    }
}

proof fn lemma_parse_nondigit(s: Seq<char>, i: int)
    requires
        0 <= i < s.len(),
        !is_digit_char(s[i]),
    ensures
        spec_parse_decimal(s) is None,
    decreases s.len(),
{
    if s.len() > 0 && is_digit_char(s.last()) && s.len() > 1 {
        lemma_parse_nondigit(s.drop_last(), i);
    }
}

proof fn lemma_parse_prefix_step(s: Seq<char>, i: int)
    requires
        0 <= i < s.len(),
        is_digit_char(s[i]),
    ensures
        spec_parse_decimal_prefix(s, i + 1) == match spec_parse_decimal_prefix(s, i) {
            Some(v) => Some(v * 10 + digit_val(s[i])),
            None => if i == 0 {
                Some(digit_val(s[i]))
            } else {
                None::<nat>
            },
        },
{
    let t = s.take(i + 1);
    assert(t.last() == s[i]);
    assert(t.drop_last() =~= s.take(i));
}

proof fn lemma_parse_prefix_overflow_extend(s: Seq<char>, i: int)
    requires
        0 <= i < s.len(),
        is_digit_char(s[i]),
        spec_parse_prefix_overflows(s, i),
    ensures
        spec_parse_prefix_overflows(s, i + 1),
{
    lemma_parse_prefix_step(s, i);
}

proof fn lemma_parse_prefix_full(s: Seq<char>)
    ensures
        spec_parse_decimal_prefix(s, s.len() as int) == spec_parse_decimal(s),
{
    assert(s.take(s.len() as int) =~= s);
}

} // verus!

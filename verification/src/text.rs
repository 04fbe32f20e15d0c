//! Comparing texts and reading unsigned decimal numbers from them.

use vstd::prelude::*;
use vstd::string::*;
use vstd::utf8::*;

verus! {

/// Whether a character is one of `0` to `9`.
pub open spec fn is_digit(c: char) -> bool {
    '0' <= c <= '9'
}

/// Whether a text is made of decimal digits, at least one.
pub open spec fn all_digits(s: Seq<char>) -> bool {
    s.len() > 0 && forall|i: int| 0 <= i < s.len() ==> is_digit(#[trigger] s[i])
}

/// The number that a run of decimal digits writes, the last digit counting least.
pub open spec fn digits_value(s: Seq<char>) -> nat
    decreases s.len(),
{
    if s.len() == 0 {
        0
    } else {
        digits_value(s.drop_last()) * 10 + ((s.last() as u32 - '0' as u32) as nat)
    }
}

/// The number written by a text of decimal digits; `None` for any other text.
pub open spec fn decimal(s: Seq<char>) -> Option<nat> {
    if all_digits(s) {
        Some(digits_value(s))
    } else {
        None
    }
}

/// The number written by a text of decimal digits, where it fits in 64 bits.
pub open spec fn decimal_u64(s: Seq<char>) -> Option<u64> {
    match decimal(s) {
        Some(n) => if n <= u64::MAX {
            Some(n as u64)
        } else {
            None
        },
        None => None,
    }
}

/// The number written by an announced length: decimal digits, which a single
/// `+` may precede.
pub open spec fn announced(s: Seq<char>) -> Option<nat> {
    if s.len() > 0 && s[0] == '+' {
        decimal(s.skip(1))
    } else {
        decimal(s)
    }
}

/// The number written by an announced length, where a `usize` holds it.
pub open spec fn announced_length(s: Seq<char>) -> Option<usize> {
    match announced(s) {
        Some(n) => if n <= usize::MAX {
            Some(n as usize)
        } else {
            None
        },
        None => None,
    }
}

/// The decimal digits of a number, without leading zeros.
pub open spec fn decimal_text(n: nat) -> Seq<char>
    decreases n,
{
    if n < 10 {
        seq![digit_char(n)]
    } else {
        decimal_text(n / 10).push(digit_char(n % 10))
    }
}

/// The character of a digit below ten.
pub open spec fn digit_char(d: nat) -> char {
    if d == 0 {
        '0'
    } else if d == 1 {
        '1'
    } else if d == 2 {
        '2'
    } else if d == 3 {
        '3'
    } else if d == 4 {
        '4'
    } else if d == 5 {
        '5'
    } else if d == 6 {
        '6'
    } else if d == 7 {
        '7'
    } else if d == 8 {
        '8'
    } else {
        '9'
    }
}

/// Reading the digits of a number gives the number back.
pub proof fn lemma_decimal_text_round_trip(n: nat)
    ensures
        decimal(decimal_text(n)) == Some(n),
    decreases n,
{
    let s = decimal_text(n);
    if n < 10 {
        assert(digits_value(s.drop_last()) == 0);
    } else {
        lemma_decimal_text_round_trip(n / 10);
        assert(s.drop_last() =~= decimal_text(n / 10));
        assert(all_digits(s));
    }
}

/// A run of digits is worth at least as much as any of its prefixes.
pub proof fn lemma_prefix_value(s: Seq<char>, k: int)
    requires
        0 <= k <= s.len(),
        forall|i: int| 0 <= i < s.len() ==> is_digit(#[trigger] s[i]),
    ensures
        digits_value(s.take(k)) <= digits_value(s),
    decreases s.len() - k,
{
    if k == s.len() {
        assert(s.take(k) =~= s);
    } else {
        lemma_prefix_value(s, k + 1);
        assert(s.take(k + 1).drop_last() =~= s.take(k));
    }
}

/// Whether two texts hold the same characters.
pub fn same_text(a: &str, b: &str) -> (r: bool)
    ensures
        r == (a@ == b@),
{
    let x = a.as_bytes();
    let y = b.as_bytes();
    if x.len() != y.len() {
        return false;
    }
    let mut i: usize = 0;
    while i < x.len()
        invariant
            i <= x.len(),
            x.len() == y.len(),
            x@ == a.spec_bytes(),
            y@ == b.spec_bytes(),
            forall|j: int| 0 <= j < i ==> x@[j] == y@[j],
        decreases x.len() - i,
    {
        if x[i] != y[i] {
            return false;
        }
        i += 1;
    }
    proof {
        assert(x@ =~= y@);
        encode_utf8_decode_utf8(a@);
        encode_utf8_decode_utf8(b@);
    }
    true
}

/// Reads the decimal digits that follow the first `start` characters of a
/// plain ASCII text.
fn digits_from(text: &str, start: usize) -> (r: Option<u64>)
    requires
        text.is_ascii(),
        start <= text@.len(),
    ensures
        r == decimal_u64(text@.skip(start as int)),
{
    proof {
        is_ascii_spec_bytes(text);
    }
    let bytes = text.as_bytes();
    let len = bytes.len();
    let ghost tail = text@.skip(start as int);
    if start == len {
        return None;
    }
    let mut value: u64 = 0;
    let mut i: usize = start;
    while i < len
        invariant
            text.is_ascii(),
            start <= i <= len,
            len == text@.len(),
            bytes@ == text.spec_bytes(),
            tail == text@.skip(start as int),
            forall|j: int| 0 <= j < i - start ==> is_digit(#[trigger] tail[j]),
            value == digits_value(tail.take(i - start)),
        decreases len - i,
    {
        let b = bytes[i];
        proof {
            is_ascii_spec_bytes(text);
            is_ascii_chars_nat_bound(text@);
        }
        if b < 48 || b > 57 {
            assert(!is_digit(tail[i - start]));
            return None;
        }
        let digit: u64 = (b - 48) as u64;
        assert(tail.take(i - start + 1).drop_last() =~= tail.take(i - start));
        let shifted = match value.checked_mul(10) {
            Some(v) => v.checked_add(digit),
            None => None,
        };
        match shifted {
            Some(v) => {
                value = v;
            },
            None => {
                proof {
                    if all_digits(tail) {
                        lemma_prefix_value(tail, i - start + 1);
                    }
                }
                return None;
            },
        }
        i += 1;
    }
    proof {
        assert(tail.take(i - start) =~= tail);
    }
    Some(value)
}

/// Reads a number from a text of decimal digits.
///
/// Returns `None` for a text that holds anything but digits, for the empty
/// text, and for a number above `u64::MAX`.
pub fn parse_decimal(text: &str) -> (r: Option<u64>)
    ensures
        r == decimal_u64(text@),
{
    if !text.is_ascii() {
        assert(!all_digits(text@));
        return None;
    }
    assert(text@.skip(0) =~= text@);
    digits_from(text, 0)
}

/// Reads the length that a reply announces for its body: decimal digits,
/// which a single `+` may precede.
///
/// Returns `None` for any other text and for a length above `usize::MAX`.
pub fn parse_length(text: &str) -> (r: Option<usize>)
    ensures
        r == announced_length(text@),
{
    if !text.is_ascii() {
        proof {
            let s = text@;
            if s.len() > 0 && s[0] == '+' && all_digits(s.skip(1)) {
                assert forall|i: int| 0 <= i < s.len() implies '\0' <= #[trigger] s[i]
                    <= '\u{7f}' by {
                    if i > 0 {
                        assert(is_digit(s.skip(1)[i - 1]));
                    }
                }
            }
        }
        return None;
    }
    proof {
        is_ascii_spec_bytes(text);
        is_ascii_chars_nat_bound(text@);
    }
    let bytes = text.as_bytes();
    let signed = bytes.len() > 0 && bytes[0] == 43;
    assert(text@.skip(0) =~= text@);
    let start: usize = if signed {
        1
    } else {
        0
    };
    match digits_from(text, start) {
        Some(n) => {
            if n <= usize::MAX as u64 {
                Some(n as usize)
            } else {
                None
            }
        },
        None => None,
    }
}

} // verus!

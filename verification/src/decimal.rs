use vstd::prelude::*;

use crate::strutil::push_char;

verus! {

/// An ASCII decimal digit.
pub open spec fn is_digit_char(c: char) -> bool {
    48 <= c as u32 <= 57
}

/// The numeric value of a decimal digit character.
pub open spec fn digit_val(c: char) -> int {
    c as u32 - 48
}

/// The digit character of a value below ten.
pub open spec fn digit_char(d: int) -> char {
    if d == 0 {
        '0'
    } else if d == 1 {
        '1'
    } else if d == 2 {
        '2'
    } else if d == 3 {
        '3'
    } else if d == 4 {
        '4'
    } else if d == 5 {
        '5'
    } else if d == 6 {
        '6'
    } else if d == 7 {
        '7'
    } else if d == 8 {
        '8'
    } else {
        '9'
    }
}

/// The decimal text of a natural number, without leading zeroes
/// (a single `0` for zero).
pub open spec fn dec_nat(n: nat) -> Seq<char>
    decreases n,
{
    if n < 10 {
        seq![digit_char(n as int)]
    } else {
        dec_nat(n / 10) + seq![digit_char((n % 10) as int)]
    }
}

/// The decimal text of an integer: a leading `-` for a negative one.
pub open spec fn dec_int(n: int) -> Seq<char> {
    if n < 0 {
        seq!['-'] + dec_nat((-n) as nat)
    } else {
        dec_nat(n as nat)
    }
}

/// The value of a run of decimal digit characters.
pub open spec fn digits_val(s: Seq<char>) -> int
    decreases s.len(),
{
    if s.len() == 0 {
        0
    } else {
        digits_val(s.drop_last()) * 10 + digit_val(s.last())
    }
}

/// Every character of `s` from index `i` on is a decimal digit.
pub open spec fn all_digits_from(s: Seq<char>, i: int) -> bool {
    forall|k: int| i <= k < s.len() ==> is_digit_char(s[k])
}

/// Whether `s` is the decimal text of an integer as `parse_i32` accepts it:
/// an optional sign followed by one or more digits.
pub open spec fn int_text_ok(s: Seq<char>) -> bool {
    if s.len() == 0 {
        false
    } else if s[0] == '+' || s[0] == '-' {
        s.len() >= 2 && all_digits_from(s, 1)
    } else {
        all_digits_from(s, 0)
    }
}

/// The value of such a text (meaningful only when `int_text_ok` holds).
pub open spec fn int_text_val(s: Seq<char>) -> int {
    if s.len() >= 1 && s[0] == '-' {
        -digits_val(s.drop_first())
    } else if s.len() >= 1 && s[0] == '+' {
        digits_val(s.drop_first())
    } else {
        digits_val(s)
    }
}

/// Whether `s` is the decimal text of an unsigned number as `parse_usize`
/// accepts it: an optional `+` followed by one or more digits.
pub open spec fn uint_text_ok(s: Seq<char>) -> bool {
    if s.len() == 0 {
        false
    } else if s[0] == '+' {
        s.len() >= 2 && all_digits_from(s, 1)
    } else {
        all_digits_from(s, 0)
    }
}

/// The value of such a text (meaningful only when `uint_text_ok` holds).
pub open spec fn uint_text_val(s: Seq<char>) -> int {
    if s.len() >= 1 && s[0] == '+' {
        digits_val(s.drop_first())
    } else {
        digits_val(s)
    }
}

/// A run of digits has a non-negative value.
proof fn lemma_digits_val_nonneg(s: Seq<char>)
    requires
        forall|k: int| 0 <= k < s.len() ==> is_digit_char(s[k]),
    ensures
        digits_val(s) >= 0,
    decreases s.len(),
{
    if s.len() > 0 {
        lemma_digits_val_nonneg(s.drop_last());
    }
}

/// A prefix of a digit run is worth no more than the whole run.
proof fn lemma_digits_prefix_le(s: Seq<char>, i: int)
    requires
        0 <= i <= s.len(),
        forall|k: int| 0 <= k < s.len() ==> is_digit_char(s[k]),
    ensures
        digits_val(s.subrange(0, i)) <= digits_val(s),
    decreases s.len() - i,
{
    if i < s.len() {
        lemma_digits_prefix_le(s, i + 1);
        let shorter = s.subrange(0, i);
        let longer = s.subrange(0, i + 1);
        assert(longer.drop_last() =~= shorter);
        assert(forall|k: int| 0 <= k < shorter.len() ==> is_digit_char(shorter[k]));
        lemma_digits_val_nonneg(shorter);
        assert(digits_val(longer) == digits_val(shorter) * 10 + digit_val(longer.last()));
    } else {
        assert(s.subrange(0, i) =~= s);
    }
}

/// The decimal digit character of a value below ten.
fn digit_of(d: u64) -> (c: char)
    requires
        d < 10,
    ensures
        c == digit_char(d as int),
{
    if d == 0 {
        '0'
    } else if d == 1 {
        '1'
    } else if d == 2 {
        '2'
    } else if d == 3 {
        '3'
    } else if d == 4 {
        '4'
    } else if d == 5 {
        '5'
    } else if d == 6 {
        '6'
    } else if d == 7 {
        '7'
    } else if d == 8 {
        '8'
    } else {
        '9'
    }
}

/// Renders a natural number in decimal.
pub fn format_u64(n: u64) -> (r: String)
    ensures
        r@ == dec_nat(n as nat),
    decreases n,
{
    if n < 10 {
        let mut s = String::new();
        push_char(&mut s, digit_of(n));
        s
    } else {
        let mut s = format_u64(n / 10);
        push_char(&mut s, digit_of(n % 10));
        s
    }
}

/// Renders an integer in decimal, with a leading `-` when negative.
pub fn format_i32(n: i32) -> (r: String)
    ensures
        r@ == dec_int(n as int),
{
    if n >= 0 {
        format_u64(n as u64)
    } else {
        let mut s = String::new();
        push_char(&mut s, '-');
        let wide: i64 = n as i64;
        let mag: u64 = (-wide) as u64;
        let digits = format_u64(mag);
        s.append(digits.as_str());
        s
    }
}

/// Renders an index in decimal.
pub fn format_usize(n: usize) -> (r: String)
    ensures
        r@ == dec_nat(n as nat),
{
    format_u64(n as u64)
}

/// Reads the digits of `s` from index `start` on as a number, refusing a
/// value above `limit`, an empty run, or a non-digit character.
fn parse_magnitude(s: &Vec<char>, start: usize, limit: u64) -> (r: Option<u64>)
    requires
        start <= s@.len(),
    ensures
        r is Some <==> (start < s@.len() && all_digits_from(s@, start as int) && digits_val(
            s@.subrange(start as int, s@.len() as int),
        ) <= limit),
        r matches Some(n) ==> n == digits_val(s@.subrange(start as int, s@.len() as int)),
{
    let n = s.len();
    if start >= n {
        return None;
    }
    let mut mag: u64 = 0;
    let mut i: usize = start;
    while i < n
        invariant
            start <= i <= n,
            n == s@.len(),
            mag <= limit,
            forall|k: int| start <= k < i ==> is_digit_char(s@[k]),
            mag == digits_val(s@.subrange(start as int, i as int)),
        decreases n - i,
    {
        let c = s[i];
        let u = c as u32;
        if !(48 <= u && u <= 57) {
            proof {
                assert(!all_digits_from(s@, start as int));
            }
            return None;
        }
        let d: u64 = (u - 48) as u64;
        proof {
            let pre = s@.subrange(start as int, i as int);
            let post = s@.subrange(start as int, i + 1);
            assert(post.drop_last() =~= pre);
            assert(digits_val(post) == digits_val(pre) * 10 + digit_val(post.last()));
        }
        if mag > limit / 10 || (mag == limit / 10 && d > limit % 10) {
            proof {
                let whole = s@.subrange(start as int, n as int);
                if all_digits_from(s@, start as int) {
                    let post = s@.subrange(start as int, i + 1);
                    assert(forall|k: int| 0 <= k < whole.len() ==> is_digit_char(whole[k]));
                    lemma_digits_prefix_le(whole, i + 1 - start);
                    assert(whole.subrange(0, i + 1 - start) =~= post);
                }
            }
            return None;
        }
        mag = mag * 10 + d;
        i += 1;
    }
    proof {
        assert(s@.subrange(start as int, n as int) =~= s@.subrange(start as int, i as int));
    }
    Some(mag)
}

/// Parses a decimal integer with an optional sign, as `i32`: `None` on an
/// empty text, a stray character, or a value out of the `i32` range.
pub fn parse_i32(s: &Vec<char>) -> (r: Option<i32>)
    ensures
        r is Some <==> (int_text_ok(s@) && i32::MIN <= int_text_val(s@) <= i32::MAX),
        r matches Some(n) ==> n as int == int_text_val(s@),
{
    let n = s.len();
    if n == 0 {
        return None;
    }
    let c0 = s[0];
    if c0 == '-' {
        proof {
            assert(s@.drop_first() =~= s@.subrange(1, n as int));
        }
        match parse_magnitude(s, 1, 2147483648u64) {
            Some(mag) => {
                let wide: i64 = -(mag as i64);
                Some(wide as i32)
            },
            None => None,
        }
    } else if c0 == '+' {
        proof {
            assert(s@.drop_first() =~= s@.subrange(1, n as int));
        }
        match parse_magnitude(s, 1, 2147483647u64) {
            Some(mag) => Some(mag as i32),
            None => None,
        }
    } else {
        proof {
            assert(s@.subrange(0, n as int) =~= s@);
        }
        match parse_magnitude(s, 0, 2147483647u64) {
            Some(mag) => Some(mag as i32),
            None => None,
        }
    }
}

/// Parses a decimal index with an optional `+`, as `usize`: `None` on an
/// empty text, a stray character, or a value out of the `usize` range.
pub fn parse_usize(s: &Vec<char>) -> (r: Option<usize>)
    ensures
        r is Some <==> (uint_text_ok(s@) && uint_text_val(s@) <= usize::MAX),
        r matches Some(n) ==> n as int == uint_text_val(s@),
{
    let n = s.len();
    if n == 0 {
        return None;
    }
    let limit: u64 = usize::MAX as u64;
    let c0 = s[0];
    if c0 == '+' {
        proof {
            assert(s@.drop_first() =~= s@.subrange(1, n as int));
        }
        match parse_magnitude(s, 1, limit) {
            Some(mag) => Some(mag as usize),
            None => None,
        }
    } else {
        proof {
            assert(s@.subrange(0, n as int) =~= s@);
        }
        match parse_magnitude(s, 0, limit) {
            Some(mag) => Some(mag as usize),
            None => None,
        }
    }
}

} // verus!

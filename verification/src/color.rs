//! Embed colours: 24-bit RGB values, given as a number or as hexadecimal text.

use vstd::prelude::*;
use vstd::std_specs::iter::IteratorSpec;

verus! {

/// The largest colour: all of red, green and blue.
pub const MAX_COLOR: i64 = 0xFF_FFFF;

/// Whether `value` is a 24-bit colour.
pub open spec fn is_color(value: int) -> bool {
    0 <= value <= MAX_COLOR
}

/// What a character is worth as a hexadecimal digit, in either case.
pub open spec fn hex_digit(c: char) -> Option<int> {
    let n = c as int;
    if 0x30 <= n <= 0x39 {
        Some(n - 0x30)
    } else if 0x41 <= n <= 0x46 {
        Some(n - 0x41 + 10)
    } else if 0x61 <= n <= 0x66 {
        Some(n - 0x61 + 10)
    } else {
        None
    }
}

/// Whether every character of `digits` is a hexadecimal digit.
pub open spec fn all_hex(digits: Seq<char>) -> bool {
    forall|i: int| 0 <= i < digits.len() ==> (#[trigger] hex_digit(digits[i])) is Some
}

/// The number that `digits` write in base sixteen, the first digit being the
/// most significant.
pub open spec fn hex_value(digits: Seq<char>) -> int
    decreases digits.len(),
{
    if digits.len() == 0 {
        0
    } else {
        16 * hex_value(digits.drop_last()) + match hex_digit(digits.last()) {
            Some(d) => d,
            None => 0,
        }
    }
}

/// `text` without the one `#` that may lead it.
pub open spec fn without_hash(text: Seq<char>) -> Seq<char> {
    if text.len() > 0 && text[0] == '#' {
        text.subrange(1, text.len() as int)
    } else {
        text
    }
}

/// The colour that `text` writes: after an optional leading `#`, one or more
/// hexadecimal digits whose value fits in 24 bits. Any other text writes none.
pub open spec fn hex_color(text: Seq<char>) -> Option<int> {
    let digits = without_hash(text);
    if digits.len() > 0 && all_hex(digits) && is_color(hex_value(digits)) {
        Some(hex_value(digits))
    } else {
        None
    }
}

/// A leading `#` changes nothing: text that does not start with one writes
/// the same colour with one before it.
pub proof fn lemma_hash_is_optional(text: Seq<char>)
    requires
        text.len() == 0 || text[0] != '#',
    ensures
        hex_color(seq!['#'] + text) == hex_color(text),
{
    assert(without_hash(seq!['#'] + text) =~= text);
}

/// A longer run of digits is worth at least as much as the run it starts with.
proof fn lemma_hex_value_grows(digits: Seq<char>, n: int)
    requires
        0 <= n <= digits.len(),
    ensures
        0 <= hex_value(digits.take(n)) <= hex_value(digits),
    decreases digits.len() - n,
{
    if n == digits.len() {
        assert(digits.take(n) =~= digits);
        lemma_hex_value_nonnegative(digits);
    } else {
        lemma_hex_value_grows(digits, n + 1);
        let longer = digits.take(n + 1);
        assert(longer.drop_last() =~= digits.take(n));
        lemma_hex_value_nonnegative(digits.take(n));
    }
}

/// No run of digits is worth less than nothing.
proof fn lemma_hex_value_nonnegative(digits: Seq<char>)
    ensures
        0 <= hex_value(digits),
    decreases digits.len(),
{
    if digits.len() > 0 {
        lemma_hex_value_nonnegative(digits.drop_last());
    }
}

/// The worth of one hexadecimal digit.
fn hex_digit_of(c: char) -> (d: Option<u8>)
    ensures
        match d {
            Some(v) => hex_digit(c) == Some(v as int),
            None => hex_digit(c) is None,
        },
{
    let n: u32 = c as u32;
    if 0x30 <= n && n <= 0x39 {
        Some((n - 0x30) as u8)
    } else if 0x41 <= n && n <= 0x46 {
        Some((n - 0x41 + 10) as u8)
    } else if 0x61 <= n && n <= 0x66 {
        Some((n - 0x61 + 10) as u8)
    } else {
        None
    }
}

/// Reads a colour from hexadecimal text such as `"#ff0000"` or `"FF0000"`.
///
/// Gives `None` where the text, after an optional leading `#`, is empty,
/// holds anything but hexadecimal digits, or writes more than 24 bits.
pub fn parse_hex_color(text: &str) -> (color: Option<i64>)
    ensures
        match color {
            Some(value) => hex_color(text@) == Some(value as int),
            None => hex_color(text@) is None,
        },
{
    let mut chars = text.chars();
    let mut pending: Option<char> = chars.next();
    let ghost digits = without_hash(text@);
    match pending {
        Some(c) => {
            if c == '#' {
                pending = chars.next();
                assert(digits =~= text@.drop_first());
            }
        },
        None => {},
    }
    let mut value: i64 = 0;
    let mut any: bool = false;
    let ghost mut n: int = 0;
    loop
        invariant
            digits == without_hash(text@),
            0 <= n <= digits.len(),
            any <==> n > 0,
            n < digits.len() ==> pending == Some(digits[n]) && chars.remaining() == digits.skip(
                n + 1,
            ),
            n == digits.len() ==> pending is None,
            all_hex(digits.take(n)),
            value == hex_value(digits.take(n)),
            is_color(value as int),
        ensures
            n == digits.len(),
        decreases digits.len() - n,
    {
        let c = match pending {
            Some(c) => c,
            None => { break ; },
        };
        let ghost seen = digits.take(n);
        let ghost next = digits.take(n + 1);
        assert(next.drop_last() =~= seen);
        match hex_digit_of(c) {
            None => {
                assert(hex_digit(digits[n]) is None);
                return None;
            },
            Some(d) => {
                value = value * 16 + d as i64;
                if value > MAX_COLOR {
                    proof {
                        lemma_hex_value_grows(digits, n + 1);
                    }
                    return None;
                }
                assert forall|k: int| 0 <= k < next.len() implies (#[trigger] hex_digit(
                    next[k],
                )) is Some by {
                    if k < seen.len() {
                        assert(next[k] == seen[k]);
                    }
                }
            },
        }
        any = true;
        pending = chars.next();
        proof {
            n = n + 1;
            if n < digits.len() {
                assert(digits.skip(n).drop_first() =~= digits.skip(n + 1));
            }
        }
    }
    assert(digits.take(n) =~= digits);
    if any {
        Some(value)
    } else {
        None
    }
}

} // verus!

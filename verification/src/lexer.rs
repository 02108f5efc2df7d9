//! Scanning of bytes: words, runs of blanks and digits, and numbers.

use vstd::prelude::*;
use vstd::string::StrSliceExecFns;

verus! {

/// A blank: a space or a tab.
pub open spec fn is_space(b: u8) -> bool {
    b == 0x20 || b == 0x09
}

/// A decimal digit.
pub open spec fn is_digit(b: u8) -> bool {
    0x30 <= b <= 0x39
}

/// A hexadecimal digit, in either case.
pub open spec fn is_hex_digit(b: u8) -> bool {
    is_digit(b) || (0x41 <= b <= 0x46) || (0x61 <= b <= 0x66)
}

/// The value of a hexadecimal digit.
pub open spec fn hex_digit_value(b: u8) -> nat {
    if is_digit(b) {
        (b - 0x30) as nat
    } else if 0x41 <= b <= 0x46 {
        (b - 0x41 + 10) as nat
    } else {
        (b - 0x61 + 10) as nat
    }
}

/// Whether the bytes at `at` spell `word`, character by character.
pub open spec fn has_word(s: Seq<u8>, at: int, word: Seq<char>) -> bool {
    &&& 0 <= at
    &&& at + word.len() <= s.len()
    &&& forall|i: int| 0 <= i < word.len() ==> #[trigger] s[at + i] == word[i] as u8
}

/// The first position at or after `from` that holds no blank.
pub open spec fn skip_spaces(s: Seq<u8>, from: int) -> int
    decreases s.len() - from,
{
    if 0 <= from < s.len() && is_space(s[from]) {
        skip_spaces(s, from + 1)
    } else {
        from
    }
}

/// The first position at or after `from` that holds no decimal digit.
pub open spec fn skip_digits(s: Seq<u8>, from: int) -> int
    decreases s.len() - from,
{
    if 0 <= from < s.len() && is_digit(s[from]) {
        skip_digits(s, from + 1)
    } else {
        from
    }
}

/// The first position at or after `from` that holds no hexadecimal digit.
pub open spec fn skip_hex_digits(s: Seq<u8>, from: int) -> int
    decreases s.len() - from,
{
    if 0 <= from < s.len() && is_hex_digit(s[from]) {
        skip_hex_digits(s, from + 1)
    } else {
        from
    }
}

/// The number that the decimal digits in `[from, to)` write.
pub open spec fn decimal_value(s: Seq<u8>, from: int, to: int) -> nat
    decreases to - from,
{
    if to <= from {
        0
    } else {
        decimal_value(s, from, to - 1) * 10 + (s[to - 1] - 0x30) as nat
    }
}

/// The number that the hexadecimal digits in `[from, to)` write.
pub open spec fn hex_value(s: Seq<u8>, from: int, to: int) -> nat
    decreases to - from,
{
    if to <= from {
        0
    } else {
        hex_value(s, from, to - 1) * 16 + hex_digit_value(s[to - 1])
    }
}

/// A run of decimal digits at `at` and the number it writes, provided the
/// run is not empty and the number is at most `limit`.
pub open spec fn decimal_at(s: Seq<u8>, at: int, limit: nat) -> Option<(nat, int)> {
    let end = skip_digits(s, at);
    if end > at && decimal_value(s, at, end) <= limit {
        Some((decimal_value(s, at, end), end))
    } else {
        None
    }
}

/// Skipping digits stops between the start and the end of the bytes.
pub proof fn lemma_skip_digits_bounds(s: Seq<u8>, from: int)
    requires
        0 <= from <= s.len(),
    ensures
        from <= skip_digits(s, from) <= s.len(),
    decreases s.len() - from,
{
    if from < s.len() && is_digit(s[from]) {
        lemma_skip_digits_bounds(s, from + 1);
    }
}

/// A longer run of digits never writes a smaller number.
pub proof fn lemma_decimal_value_grows(s: Seq<u8>, from: int, mid: int, to: int)
    requires
        from <= mid <= to,
        forall|i: int| from <= i < to ==> is_digit(#[trigger] s[i]),
    ensures
        decimal_value(s, from, mid) <= decimal_value(s, from, to),
    decreases to - mid,
{
    if mid < to {
        lemma_decimal_value_grows(s, from, mid, to - 1);
    }
}

/// A longer run of hexadecimal digits never writes a smaller number.
pub proof fn lemma_hex_value_grows(s: Seq<u8>, from: int, mid: int, to: int)
    requires
        from <= mid <= to,
    ensures
        hex_value(s, from, mid) <= hex_value(s, from, to),
    decreases to - mid,
{
    if mid < to {
        lemma_hex_value_grows(s, from, mid, to - 1);
    }
}

/// The position after `word`, where the bytes at `at` spell it.
pub open spec fn word_at(s: Seq<u8>, at: int, word: Seq<char>) -> Option<int> {
    if has_word(s, at, word) {
        Some(at + word.len())
    } else {
        None
    }
}

/// A result with its end position as a mathematical integer.
pub open spec fn at_int<T>(r: Option<(T, usize)>) -> Option<(T, int)> {
    match r {
        Some((value, end)) => Some((value, end as int)),
        None => None,
    }
}

/// The first of two alternatives that matched.
pub open spec fn first<T>(a: Option<T>, b: Option<T>) -> Option<T> {
    if a is Some {
        a
    } else {
        b
    }
}

/// Matches `word` at `at` and returns the position after it.
pub fn word(input: &[u8], at: usize, spelling: &str) -> (end: Option<usize>)
    ensures
        match end {
            Some(e) => word_at(input@, at as int, spelling@) == Some(e as int) && at <= e
                <= input@.len(),
            None => word_at(input@, at as int, spelling@) is None,
        },
{
    if starts_with(input, at, spelling) {
        let len: usize = input.len();
        Some(at + spelling.unicode_len())
    } else {
        None
    }
}

/// Whether the bytes at `at` spell `word`.
pub fn starts_with(input: &[u8], at: usize, word: &str) -> (found: bool)
    ensures
        found == has_word(input@, at as int, word@),
{
    let n: usize = word.unicode_len();
    let len: usize = input.len();
    if at > len || n > len - at {
        return false;
    }
    let mut i: usize = 0;
    while i < n
        invariant
            i <= n,
            n == word@.len(),
            len == input@.len(),
            at + n <= len,
            forall|j: int| 0 <= j < i ==> #[trigger] input@[at + j] == word@[j] as u8,
        decreases n - i,
    {
        if input[at + i] != word.get_char(i) as u8 {
            return false;
        }
        i = i + 1;
    }
    true
}

/// Skips blanks from `from` on.
pub fn spaces(input: &[u8], from: usize) -> (end: usize)
    requires
        from <= input@.len(),
    ensures
        end == skip_spaces(input@, from as int),
        from <= end <= input@.len(),
{
    let mut i: usize = from;
    while i < input.len() && (input[i] == 0x20 || input[i] == 0x09)
        invariant
            from <= i <= input@.len(),
            skip_spaces(input@, from as int) == skip_spaces(input@, i as int),
        decreases input@.len() - i,
    {
        i = i + 1;
    }
    i
}

/// Reads a run of decimal digits at `at` as a number of at most `limit`.
pub fn decimal(input: &[u8], at: usize, limit: u64) -> (r: Option<(u64, usize)>)
    requires
        at <= input@.len(),
    ensures
        match r {
            Some((value, end)) => decimal_at(input@, at as int, limit as nat) == Some(
                (value as nat, end as int),
            ) && at < end <= input@.len() && value <= limit,
            None => decimal_at(input@, at as int, limit as nat) is None,
        },
{
    let ghost s = input@;
    let mut i: usize = at;
    let mut value: u64 = 0;
    proof {
        lemma_skip_digits_bounds(s, at as int);
    }
    while i < input.len() && 0x30 <= input[i] && input[i] <= 0x39
        invariant
            s == input@,
            at <= i <= s.len(),
            skip_digits(s, at as int) == skip_digits(s, i as int),
            forall|j: int| at <= j < i ==> is_digit(#[trigger] s[j]),
            value == decimal_value(s, at as int, i as int),
            value <= limit,
        decreases s.len() - i,
    {
        let digit: u64 = (input[i] - 0x30) as u64;
        if limit < digit || value > (limit - digit) / 10 {
            proof {
                let end = skip_digits(s, at as int);
                lemma_skip_digits_bounds(s, i as int + 1);
                lemma_digits_up_to_end(s, at as int);
                lemma_decimal_value_grows(s, at as int, i as int + 1, end);
                assert(decimal_value(s, at as int, i as int + 1) == value * 10 + digit);
            }
            return None;
        }
        value = value * 10 + digit;
        i = i + 1;
    }
    if i > at {
        Some((value, i))
    } else {
        None
    }
}

/// Every position before the end of a run of digits holds a digit.
pub proof fn lemma_digits_up_to_end(s: Seq<u8>, from: int)
    requires
        0 <= from <= s.len(),
    ensures
        forall|i: int| from <= i < skip_digits(s, from) ==> is_digit(#[trigger] s[i]),
    decreases s.len() - from,
{
    if from < s.len() && is_digit(s[from]) {
        lemma_digits_up_to_end(s, from + 1);
    }
}

/// A run of hexadecimal digits at `at` and the number it writes, provided
/// the run is not empty. The number is `None` when it does not fit in 64
/// bits.
pub open spec fn hex_at(s: Seq<u8>, at: int) -> Option<(Option<u64>, int)> {
    let end = skip_hex_digits(s, at);
    if end > at {
        if hex_value(s, at, end) <= u64::MAX {
            Some((Some(hex_value(s, at, end) as u64), end))
        } else {
            Some((None, end))
        }
    } else {
        None
    }
}

/// Reads a run of hexadecimal digits at `at`.
pub fn hexadecimal(input: &[u8], at: usize) -> (r: Option<(Option<u64>, usize)>)
    requires
        at <= input@.len(),
    ensures
        match r {
            Some((value, end)) => hex_at(input@, at as int) == Some((value, end as int)) && at
                < end <= input@.len(),
            None => hex_at(input@, at as int) is None,
        },
{
    let ghost s = input@;
    let mut i: usize = at;
    let mut value: u64 = 0;
    let mut fits: bool = true;
    while i < input.len() && hex_digit(input[i]).is_some()
        invariant
            s == input@,
            at <= i <= s.len(),
            skip_hex_digits(s, at as int) == skip_hex_digits(s, i as int),
            fits ==> value == hex_value(s, at as int, i as int),
            !fits ==> hex_value(s, at as int, i as int) > u64::MAX,
        decreases s.len() - i,
    {
        let digit: u64 = match hex_digit(input[i]) {
            Some(d) => d,
            None => 0,
        };
        proof {
            lemma_hex_value_grows(s, at as int, i as int, i as int + 1);
        }
        if fits {
            if value > (u64::MAX - digit) / 16 {
                fits = false;
            } else {
                value = value * 16 + digit;
            }
        }
        i = i + 1;
    }
    if i > at {
        if fits {
            Some((Some(value), i))
        } else {
            Some((None, i))
        }
    } else {
        None
    }
}

/// The value of a hexadecimal digit, or `None` for any other byte.
pub fn hex_digit(b: u8) -> (r: Option<u64>)
    ensures
        r is Some == is_hex_digit(b),
        r is Some ==> r->Some_0 == hex_digit_value(b) && r->Some_0 < 16,
{
    if 0x30 <= b && b <= 0x39 {
        Some((b - 0x30) as u64)
    } else if 0x41 <= b && b <= 0x46 {
        Some((b - 0x41 + 10) as u64)
    } else if 0x61 <= b && b <= 0x66 {
        Some((b - 0x61 + 10) as u64)
    } else {
        None
    }
}

} // verus!

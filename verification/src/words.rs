//! Text by characters: white space, words, lines, and integers in a radix.

use vstd::prelude::*;
use vstd::string::StrSliceExecFns;

verus! {

/// White space as Unicode defines it (the property `White_Space`).
pub open spec fn is_whitespace(c: char) -> bool {
    let n = c as u32;
    ||| 0x9 <= n <= 0xd
    ||| n == 0x20
    ||| n == 0x85
    ||| n == 0xa0
    ||| n == 0x1680
    ||| 0x2000 <= n <= 0x200a
    ||| n == 0x2028
    ||| n == 0x2029
    ||| n == 0x202f
    ||| n == 0x205f
    ||| n == 0x3000
}

/// Whether a character is white space.
pub fn is_blank(c: char) -> (blank: bool)
    ensures
        blank == is_whitespace(c),
{
    let n: u32 = c as u32;
    (0x9 <= n && n <= 0xd) || n == 0x20 || n == 0x85 || n == 0xa0 || n == 0x1680 || (0x2000 <= n
        && n <= 0x200a) || n == 0x2028 || n == 0x2029 || n == 0x202f || n == 0x205f || n
        == 0x3000
}

/// The first position at or after `from` that holds no white space.
pub open spec fn skip_blanks(s: Seq<char>, from: int) -> int
    decreases s.len() - from,
{
    if 0 <= from < s.len() && is_whitespace(s[from]) {
        skip_blanks(s, from + 1)
    } else {
        from
    }
}

/// The first position at or after `from` that holds white space, or the
/// length.
pub open spec fn skip_word(s: Seq<char>, from: int) -> int
    decreases s.len() - from,
{
    if 0 <= from < s.len() && !is_whitespace(s[from]) {
        skip_word(s, from + 1)
    } else {
        from
    }
}

/// Skipping white space stops between the start and the end of the text.
pub proof fn lemma_skip_blanks_bounds(s: Seq<char>, from: int)
    requires
        0 <= from <= s.len(),
    ensures
        from <= skip_blanks(s, from) <= s.len(),
    decreases s.len() - from,
{
    if from < s.len() && is_whitespace(s[from]) {
        lemma_skip_blanks_bounds(s, from + 1);
    }
}

/// Skipping a word stops between the start and the end of the text, and
/// passes at least the character it starts on where that is no white space.
pub proof fn lemma_skip_word_bounds(s: Seq<char>, from: int)
    requires
        0 <= from <= s.len(),
    ensures
        from <= skip_word(s, from) <= s.len(),
        from < s.len() && !is_whitespace(s[from]) ==> from < skip_word(s, from),
    decreases s.len() - from,
{
    if from < s.len() && !is_whitespace(s[from]) {
        lemma_skip_word_bounds(s, from + 1);
    }
}

/// The words of a text from position `from` on: the maximal runs of
/// characters that are not white space, in order.
pub open spec fn words_from(s: Seq<char>, from: int) -> Seq<Seq<char>>
    decreases s.len() - from,
    via words_from_decreases
{
    let start = skip_blanks(s, from);
    if 0 <= from && start < s.len() {
        seq![s.subrange(start, skip_word(s, start))] + words_from(s, skip_word(s, start))
    } else {
        Seq::empty()
    }
}

#[via_fn]
proof fn words_from_decreases(s: Seq<char>, from: int) {
    let start = skip_blanks(s, from);
    if 0 <= from && start < s.len() {
        lemma_skip_blanks_bounds(s, from);
        lemma_skip_word_bounds(s, start);
        lemma_skip_blanks_stops(s, from);
    }
}

/// Where skipping white space stops before the end, a word begins.
pub proof fn lemma_skip_blanks_stops(s: Seq<char>, from: int)
    requires
        0 <= from <= s.len(),
    ensures
        skip_blanks(s, from) < s.len() ==> !is_whitespace(s[skip_blanks(s, from)]),
    decreases s.len() - from,
{
    if from < s.len() && is_whitespace(s[from]) {
        lemma_skip_blanks_stops(s, from + 1);
    }
}

/// The words of a text.
pub open spec fn words_of(s: Seq<char>) -> Seq<Seq<char>> {
    words_from(s, 0)
}

/// The texts that a list of string slices holds.
pub open spec fn texts(list: Seq<&str>) -> Seq<Seq<char>> {
    Seq::new(list.len(), |i: int| list[i]@)
}

/// Skips white space from `from` on.
pub fn blanks(text: &str, len: usize, from: usize) -> (end: usize)
    requires
        len == text@.len(),
        from <= len,
    ensures
        end == skip_blanks(text@, from as int),
        from <= end <= len,
{
    let mut i: usize = from;
    while i < len && is_blank(text.get_char(i))
        invariant
            len == text@.len(),
            from <= i <= len,
            skip_blanks(text@, from as int) == skip_blanks(text@, i as int),
        decreases len - i,
    {
        i = i + 1;
    }
    i
}

/// Skips to the end of the word at `from`.
pub fn word_end(text: &str, len: usize, from: usize) -> (end: usize)
    requires
        len == text@.len(),
        from <= len,
    ensures
        end == skip_word(text@, from as int),
        from <= end <= len,
{
    let mut i: usize = from;
    while i < len && !is_blank(text.get_char(i))
        invariant
            len == text@.len(),
            from <= i <= len,
            skip_word(text@, from as int) == skip_word(text@, i as int),
        decreases len - i,
    {
        i = i + 1;
    }
    i
}

/// Splits a text into its words.
pub fn split_whitespace<'a>(text: &'a str) -> (words: Vec<&'a str>)
    ensures
        texts(words@) == words_of(text@),
{
    let len: usize = text.unicode_len();
    let mut words: Vec<&'a str> = Vec::new();
    let mut at: usize = 0;
    proof {
        assert(texts(words@) =~= Seq::<Seq<char>>::empty());
    }
    loop
        invariant
            len == text@.len(),
            at <= len,
            words_of(text@) == texts(words@) + words_from(text@, at as int),
        decreases len - at,
    {
        let start: usize = blanks(text, len, at);
        if start >= len {
            proof {
                assert(texts(words@) + Seq::<Seq<char>>::empty() =~= texts(words@));
            }
            return words;
        }
        let end: usize = word_end(text, len, start);
        proof {
            lemma_skip_blanks_stops(text@, at as int);
            lemma_skip_word_bounds(text@, start as int);
        }
        let ghost before = words@;
        words.push(text.substring_char(start, end));
        proof {
            assert(texts(words@) =~= texts(before) + seq![
                text@.subrange(start as int, end as int),
            ]);
            assert(texts(before) + (seq![text@.subrange(start as int, end as int)] + words_from(
                text@,
                end as int,
            )) =~= texts(words@) + words_from(text@, end as int));
        }
        at = end;
    }
}

/// The length of a text without the white space at its end.
pub open spec fn trimmed_end(s: Seq<char>) -> int
    decreases s.len(),
{
    if s.len() > 0 && is_whitespace(s.last()) {
        trimmed_end(s.drop_last())
    } else {
        s.len() as int
    }
}

/// A text without the white space at its beginning and at its end.
pub open spec fn trimmed(s: Seq<char>) -> Seq<char> {
    let start = skip_blanks(s, 0);
    let end = trimmed_end(s);
    if start < end {
        s.subrange(start, end)
    } else {
        Seq::empty()
    }
}

/// Removes the white space at the beginning and at the end of a text.
pub fn trim<'a>(text: &'a str) -> (inner: &'a str)
    ensures
        inner@ == trimmed(text@),
{
    let len: usize = text.unicode_len();
    let start: usize = blanks(text, len, 0);
    let mut end: usize = len;
    proof {
        assert(text@.subrange(0, len as int) =~= text@);
    }
    while end > 0 && is_blank(text.get_char(end - 1))
        invariant
            len == text@.len(),
            end <= len,
            trimmed_end(text@) == trimmed_end(text@.subrange(0, end as int)),
        decreases end,
    {
        proof {
            let prefix = text@.subrange(0, end as int);
            assert(prefix.last() == text@[end - 1]);
            assert(prefix.drop_last() =~= text@.subrange(0, end - 1));
        }
        end = end - 1;
    }
    proof {
        let prefix = text@.subrange(0, end as int);
        if end > 0 {
            assert(prefix.last() == text@[end - 1]);
        }
        assert(trimmed_end(prefix) == end);
    }
    if start < end {
        text.substring_char(start, end)
    } else {
        let empty = text.substring_char(0, 0);
        proof {
            assert(empty@ =~= Seq::<char>::empty());
        }
        empty
    }
}

/// The first position at or after `from` that holds a line feed, or the
/// length.
pub open spec fn line_end(s: Seq<char>, from: int) -> int
    decreases s.len() - from,
{
    if 0 <= from < s.len() && s[from] != '\n' {
        line_end(s, from + 1)
    } else {
        from
    }
}

/// A line ends between its start and the end of the text.
pub proof fn lemma_line_end_bounds(s: Seq<char>, from: int)
    requires
        0 <= from <= s.len(),
    ensures
        from <= line_end(s, from) <= s.len(),
    decreases s.len() - from,
{
    if from < s.len() && s[from] != '\n' {
        lemma_line_end_bounds(s, from + 1);
    }
}

/// The lines of a text from position `from` on. A line ends at a line feed,
/// which is not part of it; a line feed at the very end begins no further
/// line.
pub open spec fn lines_from(s: Seq<char>, from: int) -> Seq<Seq<char>>
    decreases s.len() + 1 - from,
    via lines_from_decreases
{
    if 0 <= from < s.len() {
        seq![s.subrange(from, line_end(s, from))] + lines_from(s, line_end(s, from) + 1)
    } else {
        Seq::empty()
    }
}

#[via_fn]
proof fn lines_from_decreases(s: Seq<char>, from: int) {
    if 0 <= from < s.len() {
        lemma_line_end_bounds(s, from);
    }
}

/// The lines of a text.
pub open spec fn lines_of(s: Seq<char>) -> Seq<Seq<char>> {
    lines_from(s, 0)
}

/// Splits a text into its lines.
pub fn lines<'a>(text: &'a str) -> (found: Vec<&'a str>)
    ensures
        texts(found@) == lines_of(text@),
{
    let len: usize = text.unicode_len();
    let mut found: Vec<&'a str> = Vec::new();
    let mut at: usize = 0;
    proof {
        assert(texts(found@) =~= Seq::<Seq<char>>::empty());
    }
    while at < len
        invariant
            len == text@.len(),
            at <= len,
            lines_of(text@) == texts(found@) + lines_from(text@, at as int),
        decreases len - at,
    {
        let mut end: usize = at;
        while end < len && text.get_char(end) != '\n'
            invariant
                len == text@.len(),
                at <= end <= len,
                line_end(text@, at as int) == line_end(text@, end as int),
            decreases len - end,
        {
            end = end + 1;
        }
        let ghost before = found@;
        found.push(text.substring_char(at, end));
        proof {
            assert(texts(found@) =~= texts(before) + seq![text@.subrange(at as int, end as int)]);
            assert(texts(before) + (seq![text@.subrange(at as int, end as int)] + lines_from(
                text@,
                end + 1,
            )) =~= texts(found@) + lines_from(text@, end + 1));
        }
        if end == len {
            proof {
                assert(texts(found@) + Seq::<Seq<char>>::empty() =~= texts(found@));
            }
            return found;
        }
        at = end + 1;
    }
    proof {
        assert(texts(found@) + Seq::<Seq<char>>::empty() =~= texts(found@));
    }
    found
}

/// What `str::to_lowercase` returns for a text: its lower-case equivalent
/// by the Unicode case mappings.
pub uninterp spec fn lowercase_of(text: Seq<char>) -> Seq<char>;

/// What `str::to_uppercase` returns for a text: its upper-case equivalent
/// by the Unicode case mappings.
pub uninterp spec fn uppercase_of(text: Seq<char>) -> Seq<char>;

/// `str::to_lowercase`. Nothing is proved of it; its result has a name.
#[verifier::external_body]
pub(crate) fn to_lowercase(text: &str) -> (lower: String)
    ensures
        lower@ == lowercase_of(text@),
{
    text.to_lowercase()
}

/// `str::to_uppercase`. Nothing is proved of it; its result has a name.
#[verifier::external_body]
pub(crate) fn to_uppercase(text: &str) -> (upper: String)
    ensures
        upper@ == uppercase_of(text@),
{
    text.to_uppercase()
}

/// Whether two texts are the same.
pub fn same_text(a: &str, b: &str) -> (same: bool)
    ensures
        same == (a@ == b@),
{
    a.to_owned() == b.to_owned()
}

/// Whether `text` begins with `prefix`.
pub fn begins_with(text: &str, prefix: &str) -> (found: bool)
    ensures
        found == (prefix@.len() <= text@.len() && text@.subrange(0, prefix@.len() as int)
            == prefix@),
{
    let n: usize = prefix.unicode_len();
    if n > text.unicode_len() {
        return false;
    }
    same_text(text.substring_char(0, n), prefix)
}

/// Why a text is no integer of the type asked for.
#[derive(Debug, PartialEq, Eq, Clone, Copy, Structural)]
pub enum IntegerError {
    /// The text is empty.
    Empty,
    /// A character is no digit of the radix, or a sign stands alone.
    InvalidDigit,
    /// The number is above the largest value of the type.
    PosOverflow,
    /// The number is below the smallest value of the type.
    NegOverflow,
}

/// The value of a digit character in a radix of at most sixteen, in either
/// case, or `None`.
pub open spec fn digit_value(c: char, radix: nat) -> Option<nat> {
    let n = c as u32;
    let value: int = if 0x30 <= n <= 0x39 {
        n - 0x30
    } else if 0x61 <= n <= 0x66 {
        n - 0x61 + 10
    } else if 0x41 <= n <= 0x46 {
        n - 0x41 + 10
    } else {
        16
    };
    if value < radix {
        Some(value as nat)
    } else {
        None
    }
}

/// The first position at or after `from` that holds no digit of the radix.
pub open spec fn digits_end(s: Seq<char>, from: int, radix: nat) -> int
    decreases s.len() - from,
{
    if 0 <= from < s.len() && digit_value(s[from], radix) is Some {
        digits_end(s, from + 1, radix)
    } else {
        from
    }
}

/// The number that the digits in `[from, to)` write in the radix.
pub open spec fn digits_value(s: Seq<char>, from: int, to: int, radix: nat) -> nat
    decreases to - from,
{
    if to <= from {
        0
    } else {
        digits_value(s, from, to - 1, radix) * radix + match digit_value(s[to - 1], radix) {
            Some(d) => d,
            None => 0,
        }
    }
}

/// The number that the digits from `from` to the end of the text write, of
/// at most `limit`. The text is read from the left: a number that passes
/// the limit before a character that is no digit is reached is too large;
/// otherwise such a character, or the lack of any digit, is an invalid
/// digit.
pub open spec fn magnitude_of(s: Seq<char>, from: int, radix: nat, limit: nat) -> Result<
    nat,
    bool,
> {
    let end = digits_end(s, from, radix);
    if digits_value(s, from, end, radix) > limit {
        Err(true)
    } else if end < s.len() || end == from {
        Err(false)
    } else {
        Ok(digits_value(s, from, end, radix))
    }
}

/// The integer that a text writes in the radix, for a type without sign
/// whose largest value is `highest`: digits, with `+` before them or not.
pub open spec fn unsigned_of(s: Seq<char>, radix: nat, highest: nat) -> Result<nat, IntegerError> {
    if s.len() == 0 {
        Err(IntegerError::Empty)
    } else {
        let from: int = if s[0] == '+' {
            1
        } else {
            0
        };
        match magnitude_of(s, from, radix, highest) {
            Ok(value) => Ok(value),
            Err(true) => Err(IntegerError::PosOverflow),
            Err(false) => Err(IntegerError::InvalidDigit),
        }
    }
}

/// The integer that a text writes in the radix, as a signed 64-bit number:
/// digits, with `+` or `-` before them or not.
pub open spec fn signed_of(s: Seq<char>, radix: nat) -> Result<int, IntegerError> {
    if s.len() == 0 {
        Err(IntegerError::Empty)
    } else if s[0] == '-' {
        match magnitude_of(s, 1, radix, 0x8000_0000_0000_0000) {
            Ok(value) => Ok(-(value as int)),
            Err(true) => Err(IntegerError::NegOverflow),
            Err(false) => Err(IntegerError::InvalidDigit),
        }
    } else {
        match unsigned_of(s, radix, 0x7fff_ffff_ffff_ffff) {
            Ok(value) => Ok(value as int),
            Err(e) => Err(e),
        }
    }
}

/// A longer run of digits never writes a smaller number.
pub proof fn lemma_digits_value_grows(s: Seq<char>, from: int, mid: int, to: int, radix: nat)
    requires
        from <= mid <= to,
        radix >= 1,
    ensures
        digits_value(s, from, mid, radix) <= digits_value(s, from, to, radix),
    decreases to - mid,
{
    if mid < to {
        lemma_digits_value_grows(s, from, mid, to - 1, radix);
        let shorter = digits_value(s, from, to - 1, radix);
        assert(shorter * radix >= shorter) by (nonlinear_arith)
            requires
                radix >= 1,
                shorter >= 0,
        ;
    }
}

/// Skipping digits stops between the start and the end of the text.
pub proof fn lemma_digits_end_bounds(s: Seq<char>, from: int, radix: nat)
    requires
        0 <= from <= s.len(),
    ensures
        from <= digits_end(s, from, radix) <= s.len(),
    decreases s.len() - from,
{
    if from < s.len() && digit_value(s[from], radix) is Some {
        lemma_digits_end_bounds(s, from + 1, radix);
    }
}

/// The value of a digit character, or `None`.
pub fn digit(c: char, radix: u64) -> (r: Option<u64>)
    requires
        radix <= 16,
    ensures
        match r {
            Some(d) => digit_value(c, radix as nat) == Some(d as nat) && d < radix,
            None => digit_value(c, radix as nat) is None,
        },
{
    let n: u32 = c as u32;
    let value: u64 = if 0x30 <= n && n <= 0x39 {
        (n - 0x30) as u64
    } else if 0x61 <= n && n <= 0x66 {
        (n - 0x61 + 10) as u64
    } else if 0x41 <= n && n <= 0x46 {
        (n - 0x41 + 10) as u64
    } else {
        16
    };
    if value < radix {
        Some(value)
    } else {
        None
    }
}

/// Reads the digits from `from` to the end of the text as a number of at
/// most `limit`.
pub fn magnitude(text: &str, from: usize, radix: u64, limit: u64) -> (r: Result<u64, bool>)
    requires
        from <= text@.len(),
        2 <= radix <= 16,
    ensures
        match r {
            Ok(value) => magnitude_of(text@, from as int, radix as nat, limit as nat) == Ok::<
                nat,
                bool,
            >(value as nat) && value <= limit,
            Err(large) => magnitude_of(text@, from as int, radix as nat, limit as nat) == Err::<
                nat,
                bool,
            >(large),
        },
{
    let ghost s = text@;
    let len: usize = text.unicode_len();
    let mut i: usize = from;
    let mut value: u64 = 0;
    loop
        invariant
            s == text@,
            len == s.len(),
            2 <= radix <= 16,
            from <= i <= len,
            digits_end(s, from as int, radix as nat) == digits_end(s, i as int, radix as nat),
            value == digits_value(s, from as int, i as int, radix as nat),
            value <= limit,
        ensures
            digits_end(s, i as int, radix as nat) == i,
        decreases len - i,
    {
        if i >= len {
            break ;
        }
        let d: u64 = match digit(text.get_char(i), radix) {
            Some(d) => d,
            None => {
                break ;
            },
        };
        if limit < d || value > (limit - d) / radix {
            proof {
                let end = digits_end(s, from as int, radix as nat);
                lemma_digits_end_bounds(s, i as int + 1, radix as nat);
                lemma_digits_value_grows(s, from as int, i as int + 1, end, radix as nat);
                assert(digits_value(s, from as int, i as int + 1, radix as nat) == value * radix
                    + d);
                assert(value * radix + d > limit) by (nonlinear_arith)
                    requires
                        limit < d || value > (limit - d) / (radix as int),
                        radix >= 2,
                        value >= 0,
                        d >= 0,
                        limit >= 0,
                ;
            }
            return Err(true);
        }
        assert(value * radix + d <= limit) by (nonlinear_arith)
            requires
                d <= limit,
                value <= (limit - d) / (radix as int),
                radix >= 2,
                value >= 0,
        ;
        value = value * radix + d;
        i = i + 1;
    }
    if i < len || i == from {
        Err(false)
    } else {
        Ok(value)
    }
}

/// Reads a text as an integer without sign of at most `highest`.
pub fn parse_unsigned(text: &str, radix: u64, highest: u64) -> (r: Result<u64, IntegerError>)
    requires
        2 <= radix <= 16,
    ensures
        match r {
            Ok(value) => unsigned_of(text@, radix as nat, highest as nat) == Ok::<
                nat,
                IntegerError,
            >(value as nat) && value <= highest,
            Err(e) => unsigned_of(text@, radix as nat, highest as nat) == Err::<
                nat,
                IntegerError,
            >(e),
        },
{
    if text.unicode_len() == 0 {
        return Err(IntegerError::Empty);
    }
    let from: usize = if text.get_char(0) == '+' {
        1
    } else {
        0
    };
    match magnitude(text, from, radix, highest) {
        Ok(value) => Ok(value),
        Err(true) => Err(IntegerError::PosOverflow),
        Err(false) => Err(IntegerError::InvalidDigit),
    }
}

/// Reads a text as a signed 64-bit integer.
pub fn parse_signed(text: &str, radix: u64) -> (r: Result<i64, IntegerError>)
    requires
        2 <= radix <= 16,
    ensures
        match r {
            Ok(value) => signed_of(text@, radix as nat) == Ok::<int, IntegerError>(value as int),
            Err(e) => signed_of(text@, radix as nat) == Err::<int, IntegerError>(e),
        },
{
    if text.unicode_len() == 0 {
        return Err(IntegerError::Empty);
    }
    if text.get_char(0) == '-' {
        match magnitude(text, 1, radix, 0x8000_0000_0000_0000) {
            Ok(value) => {
                if value == 0x8000_0000_0000_0000 {
                    Ok(i64::MIN)
                } else {
                    Ok(-(value as i64))
                }
            },
            Err(true) => Err(IntegerError::NegOverflow),
            Err(false) => Err(IntegerError::InvalidDigit),
        }
    } else {
        match parse_unsigned(text, radix, 0x7fff_ffff_ffff_ffff) {
            Ok(value) => Ok(value as i64),
            Err(e) => Err(e),
        }
    }
}

/// The message that belongs to each way in which a text is no integer.
pub open spec fn integer_error_text(e: IntegerError) -> Seq<char> {
    match e {
        IntegerError::Empty => "cannot parse integer from empty string"@,
        IntegerError::InvalidDigit => "invalid digit found in string"@,
        IntegerError::PosOverflow => "number too large to fit in target type"@,
        IntegerError::NegOverflow => "number too small to fit in target type"@,
    }
}

impl IntegerError {
    /// The message for this error.
    pub fn message(&self) -> (text: &'static str)
        ensures
            text@ == integer_error_text(*self),
    {
        match self {
            IntegerError::Empty => "cannot parse integer from empty string",
            IntegerError::InvalidDigit => "invalid digit found in string",
            IntegerError::PosOverflow => "number too large to fit in target type",
            IntegerError::NegOverflow => "number too small to fit in target type",
        }
    }
}

} // verus!

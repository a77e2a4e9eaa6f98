//! Strings as sequences of characters.

use vstd::prelude::*;

use vstd::utf8::{decode_utf8, encode_utf8, encode_utf8_decode_utf8, is_char_boundary};

verus! {

/// `String::push` of the standard library appends one character.
pub assume_specification[ String::push ](text: &mut String, c: char)
    ensures
        final(text)@ == old(text)@.push(c),
;

/// `String::push_str` of the standard library appends a string.
pub assume_specification[ String::push_str ](text: &mut String, tail: &str)
    ensures
        final(text)@ == old(text)@ + tail@,
;

/// The Unicode `White_Space` property of a character.
pub uninterp spec fn unicode_white_space(c: char) -> bool;

/// Whether `c` is one of the ASCII characters with the `White_Space` property:
/// tab, line feed, vertical tab, form feed, carriage return and space.
pub open spec fn ascii_white_space(c: char) -> bool {
    9 <= c as u32 <= 13 || c as u32 == 32
}

/// Whether a character is white space.
pub open spec fn white_space(c: char) -> bool {
    if (c as u32) < 128 {
        ascii_white_space(c)
    } else {
        unicode_white_space(c)
    }
}

/// `char::is_whitespace` of the standard library. It depends on the character
/// alone, and of the ASCII characters it holds for the six blanks.
#[verifier::external_body]
fn has_white_space_property(c: char) -> (blank: bool)
    ensures
        blank == unicode_white_space(c),
        (c as u32) < 128 ==> blank == ascii_white_space(c),
{
    c.is_whitespace()
}

/// Whether a character is white space.
pub fn is_white_space(c: char) -> (blank: bool)
    ensures
        blank == white_space(c),
{
    has_white_space_property(c)
}

/// Whether a text holds nothing but ASCII characters.
pub open spec fn all_ascii(text: Seq<char>) -> bool {
    forall|i: int| 0 <= i < text.len() ==> (#[trigger] text[i] as u32) < 128
}

/// An ASCII character with capital letters replaced by small ones.
pub open spec fn ascii_lower(c: char) -> char {
    if 'A' <= c <= 'Z' {
        (c as u32 + 32) as char
    } else {
        c
    }
}

/// A text with its ASCII capitals made small.
pub open spec fn in_small_letters(text: Seq<char>) -> Seq<char> {
    text.map_values(|c: char| ascii_lower(c))
}

/// What `str::to_lowercase` makes of a text.
pub uninterp spec fn unicode_lowercase(text: Seq<char>) -> Seq<char>;

/// A text in small letters.
pub open spec fn lowercase(text: Seq<char>) -> Seq<char> {
    if all_ascii(text) {
        in_small_letters(text)
    } else {
        unicode_lowercase(text)
    }
}

/// `str::to_lowercase` of the standard library. It depends on the text alone;
/// on a text of ASCII characters it replaces capitals by small letters.
#[verifier::external_body]
fn std_lowercase(text: &str) -> (lower: String)
    ensures
        lower@ == unicode_lowercase(text@),
        all_ascii(text@) ==> lower@ == in_small_letters(text@),
{
    text.to_lowercase()
}

/// A text in small letters.
pub fn to_lowercase(text: &str) -> (lower: String)
    ensures
        lower@ == lowercase(text@),
{
    std_lowercase(text)
}

/// Whether two texts are the same.
pub fn same_text(a: &str, b: &str) -> (same: bool)
    ensures
        same == (a@ == b@),
{
    a.to_owned() == b.to_owned()
}

/// The characters of a text.
pub fn chars_of(text: &str) -> (chars: Vec<char>)
    ensures
        chars@ == text@,
{
    let mut chars: Vec<char> = Vec::new();
    for c in it: text.chars()
        invariant
            chars@ == it.seq().take(it.index()),
            it.seq() == text@,
    {
        chars.push(c);
        assert(it.seq().take(it.index() + 1) =~= it.seq().take(it.index()).push(c));
    }
    assert(chars@ =~= text@);
    chars
}

/// The text made of the characters from `from` up to `to`.
pub fn string_of_range(chars: &Vec<char>, from: usize, to: usize) -> (text: String)
    requires
        from <= to <= chars@.len(),
    ensures
        text@ == chars@.subrange(from as int, to as int),
{
    let mut text = String::new();
    let mut i: usize = from;
    while i < to
        invariant
            from <= i <= to <= chars@.len(),
            text@ == chars@.subrange(from as int, i as int),
        decreases to - i,
    {
        text.push(chars[i]);
        i = i + 1;
        assert(chars@.subrange(from as int, i as int) =~= chars@.subrange(
            from as int,
            i - 1,
        ).push(chars@[i - 1]));
    }
    text
}

/// The text made of all of `chars`.
pub fn string_of(chars: &Vec<char>) -> (text: String)
    ensures
        text@ == chars@,
{
    let text = string_of_range(chars, 0, chars.len());
    assert(chars@.subrange(0, chars@.len() as int) =~= chars@);
    text
}

/// The texts `a` and `b`, one after the other.
pub fn joined(a: &str, b: &str) -> (text: String)
    ensures
        text@ == a@ + b@,
{
    let mut text = a.to_owned();
    text.push_str(b);
    text
}

/// The texts `a`, `b` and `c`, one after the other.
pub fn joined3(a: &str, b: &str, c: &str) -> (text: String)
    ensures
        text@ == a@ + b@ + c@,
{
    let mut text = a.to_owned();
    text.push_str(b);
    text.push_str(c);
    text
}

/// A copy of an optional text.
pub fn copy_optional(text: &Option<String>) -> (copy: Option<String>)
    ensures
        optional_text(copy) == optional_text(*text),
        copy == *text,
{
    match text {
        Some(inner) => Some(inner.clone()),
        None => None,
    }
}

/// The characters of an optional text.
pub open spec fn optional_text(text: Option<String>) -> Option<Seq<char>> {
    match text {
        Some(inner) => Some(inner@),
        None => None,
    }
}

/// Whether two optional texts are the same.
pub fn same_optional(a: &Option<String>, b: &Option<String>) -> (same: bool)
    ensures
        same == (optional_text(*a) == optional_text(*b)),
{
    match (a, b) {
        (Some(x), Some(y)) => same_text(x.as_str(), y.as_str()),
        (None, None) => true,
        _ => false,
    }
}

/// Whether a text can be cut at a number of bytes: at no more than it has, and not inside
/// a character.
pub open spec fn can_cut(text: Seq<char>, at: int) -> bool {
    is_char_boundary(encode_utf8(text), at)
}

/// What stands in a text between two numbers of bytes.
pub open spec fn byte_cut(text: Seq<char>, from: int, to: int) -> Seq<char> {
    decode_utf8(encode_utf8(text).subrange(from, to))
}

/// The number of bytes of a text.
pub open spec fn byte_len(text: Seq<char>) -> nat {
    encode_utf8(text).len()
}

/// The first bytes of a text.
pub fn head_bytes(text: &str, at: usize) -> (head: String)
    requires
        can_cut(text@, at as int),
    ensures
        head@ == byte_cut(text@, 0, at as int),
{
    let (head, _) = text.split_at(at);
    proof {
        encode_utf8_decode_utf8(head@);
    }
    head.to_owned()
}

/// A text without its first bytes.
pub fn tail_bytes(text: &str, at: usize) -> (tail: String)
    requires
        can_cut(text@, at as int),
    ensures
        tail@ == byte_cut(text@, at as int, byte_len(text@) as int),
{
    let (_, tail) = text.split_at(at);
    proof {
        encode_utf8_decode_utf8(tail@);
    }
    tail.to_owned()
}

// ---------------------------------------------------------------------------
// Searching
// ---------------------------------------------------------------------------

/// Whether `pattern` stands in `text` at position `at`.
pub open spec fn occurs_at(text: Seq<char>, pattern: Seq<char>, at: int) -> bool {
    &&& 0 <= at
    &&& at + pattern.len() <= text.len()
    &&& text.subrange(at, at + pattern.len()) == pattern
}

/// Whether `text` begins with `pattern`.
pub open spec fn begins_with(text: Seq<char>, pattern: Seq<char>) -> bool {
    occurs_at(text, pattern, 0)
}

/// Whether `pattern` stands somewhere in `text`.
pub open spec fn has_within(text: Seq<char>, pattern: Seq<char>) -> bool {
    exists|at: int| occurs_at(text, pattern, at)
}

/// Whether `pattern` stands in `text` at position `at`.
pub fn stands_at(text: &Vec<char>, pattern: &Vec<char>, at: usize) -> (found: bool)
    ensures
        found == occurs_at(text@, pattern@, at as int),
{
    if at > text.len() || text.len() - at < pattern.len() {
        return false;
    }
    let mut i: usize = 0;
    while i < pattern.len()
        invariant
            i <= pattern@.len(),
            at + pattern@.len() <= text@.len() <= usize::MAX,
            forall|j: int| 0 <= j < i ==> text@[at + j] == pattern@[j],
        decreases pattern@.len() - i,
    {
        if text[at + i] != pattern[i] {
            assert(text@.subrange(at as int, at + pattern@.len())[i as int] != pattern@[i as int]);
            return false;
        }
        i = i + 1;
    }
    assert(text@.subrange(at as int, at + pattern@.len()) =~= pattern@);
    true
}

/// Whether `text` begins with `prefix`.
pub fn starts_with(text: &str, prefix: &str) -> (found: bool)
    ensures
        found == begins_with(text@, prefix@),
{
    stands_at(&chars_of(text), &chars_of(prefix), 0)
}

/// Where `pattern` first stands in `text`, at `from` or later.
pub fn find_from(text: &Vec<char>, pattern: &Vec<char>, from: usize) -> (found: Option<usize>)
    ensures
        match found {
            Some(at) => {
                &&& from <= at
                &&& occurs_at(text@, pattern@, at as int)
                &&& forall|j: int| from <= j < at ==> !occurs_at(text@, pattern@, j)
            },
            None => forall|j: int| from <= j ==> !occurs_at(text@, pattern@, j),
        },
{
    let mut at: usize = from;
    while at <= text.len() && text.len() - at >= pattern.len()
        invariant
            from <= at,
            from <= text@.len() ==> at <= text@.len() + 1,
            forall|j: int| from <= j < at ==> !occurs_at(text@, pattern@, j),
        decreases text@.len() + 1 - at,
    {
        if stands_at(text, pattern, at) {
            return Some(at);
        }
        if at == text.len() {
            return None;
        }
        at = at + 1;
    }
    None
}

/// Whether `pattern` stands somewhere in `text`.
pub fn contains(text: &str, pattern: &str) -> (found: bool)
    ensures
        found == has_within(text@, pattern@),
{
    match find_from(&chars_of(text), &chars_of(pattern), 0) {
        Some(_) => true,
        None => false,
    }
}

/// What follows `prefix` in a text that begins with it.
pub open spec fn spec_strip_prefix(text: Seq<char>, prefix: Seq<char>) -> Option<Seq<char>> {
    if begins_with(text, prefix) {
        Some(text.skip(prefix.len() as int))
    } else {
        None
    }
}

/// What follows `prefix` in a text that begins with it.
pub fn strip_prefix(text: &str, prefix: &str) -> (rest: Option<String>)
    ensures
        optional_text(rest) == spec_strip_prefix(text@, prefix@),
{
    let chars = chars_of(text);
    let head = chars_of(prefix);
    if stands_at(&chars, &head, 0) {
        let rest = string_of_range(&chars, head.len(), chars.len());
        assert(rest@ =~= text@.skip(prefix@.len() as int));
        Some(rest)
    } else {
        None
    }
}

// ---------------------------------------------------------------------------
// Blanks
// ---------------------------------------------------------------------------

/// `text` without the white space in front.
pub open spec fn trimmed_start(text: Seq<char>) -> Seq<char>
    decreases text.len(),
{
    if text.len() > 0 && white_space(text[0]) {
        trimmed_start(text.drop_first())
    } else {
        text
    }
}

/// `text` without the white space at the end.
pub open spec fn trimmed_end(text: Seq<char>) -> Seq<char>
    decreases text.len(),
{
    if text.len() > 0 && white_space(text.last()) {
        trimmed_end(text.drop_last())
    } else {
        text
    }
}

/// `text` without the white space at either end.
pub open spec fn trimmed(text: Seq<char>) -> Seq<char> {
    trimmed_end(trimmed_start(text))
}

/// A text without white space at its ends, with a line end behind it, is trimmed to
/// itself.
pub proof fn lemma_trimmed_line(text: Seq<char>)
    requires
        text.len() > 0,
        !white_space(text[0]),
        !white_space(text.last()),
    ensures
        trimmed(text.push('\n')) == text,
{
    let line = text.push('\n');
    assert(line[0] == text[0]);
    assert(trimmed_start(line) == line);
    assert(line.drop_last() =~= text);
    assert(white_space(line.last()));
    assert(trimmed_end(line) == trimmed_end(text));
}

/// `text` without the white space at either end.
pub fn trim(text: &str) -> (inner: String)
    ensures
        inner@ == trimmed(text@),
{
    let chars = chars_of(text);
    let len: usize = chars.len();
    let mut from: usize = 0;
    assert(chars@.subrange(0, len as int) =~= text@);
    while from < len && is_white_space(chars[from])
        invariant
            from <= len == chars@.len(),
            trimmed_start(chars@.subrange(from as int, len as int)) == trimmed_start(text@),
        decreases len - from,
    {
        let ghost rest = chars@.subrange(from as int, len as int);
        from = from + 1;
        assert(rest.drop_first() =~= chars@.subrange(from as int, len as int));
    }
    let mut to: usize = len;
    while to > from && is_white_space(chars[to - 1])
        invariant
            from <= to <= len == chars@.len(),
            trimmed_end(chars@.subrange(from as int, to as int)) == trimmed(text@),
        decreases to,
    {
        let ghost rest = chars@.subrange(from as int, to as int);
        to = to - 1;
        assert(rest.drop_last() =~= chars@.subrange(from as int, to as int));
    }
    string_of_range(&chars, from, to)
}

// ---------------------------------------------------------------------------
// Numbers
// ---------------------------------------------------------------------------

/// The decimal digit of a number below ten.
pub open spec fn digit_char(d: nat) -> char {
    (48 + d) as char
}

/// The decimal digits of `n`, without leading zeros.
pub open spec fn decimal(n: nat) -> Seq<char>
    decreases n,
{
    if n < 10 {
        seq![digit_char(n)]
    } else {
        decimal(n / 10).push(digit_char(n % 10))
    }
}

/// The decimal digits of `n`.
pub fn decimal_text(n: u64) -> (text: String)
    ensures
        text@ == decimal(n as nat),
    decreases n,
{
    let digit: char = (48u8 + (n % 10) as u8) as char;
    let mut text = if n < 10 {
        String::new()
    } else {
        decimal_text(n / 10)
    };
    text.push(digit);
    assert(text@ =~= decimal(n as nat));
    text
}

/// `text` with zeros in front up to a length of `width`.
pub open spec fn zero_padded(text: Seq<char>, width: nat) -> Seq<char> {
    if text.len() < width {
        Seq::new((width - text.len()) as nat, |i: int| '0') + text
    } else {
        text
    }
}

/// The decimal digits of `n`, with zeros in front up to `width` digits.
pub fn padded_decimal_text(n: u64, width: usize) -> (text: String)
    ensures
        text@ == zero_padded(decimal(n as nat), width as nat),
{
    let digits = decimal_text(n);
    let chars = chars_of(digits.as_str());
    let mut text = String::new();
    let mut len: usize = chars.len();
    while len < width
        invariant
            chars@.len() <= len,
            len <= width || len == chars@.len(),
            text@ == Seq::new((len - chars@.len()) as nat, |i: int| '0'),
        decreases width - len,
    {
        text.push('0');
        len = len + 1;
        assert(text@ =~= Seq::new((len - chars@.len()) as nat, |i: int| '0'));
    }
    text.push_str(digits.as_str());
    assert(text@ =~= zero_padded(decimal(n as nat), width as nat));
    text
}

/// Why a text is not a number.
#[derive(Debug, Clone, Copy, PartialEq, Eq, Structural)]
pub enum NumberError {
    /// The text is empty.
    Empty,
    /// A character is no decimal digit.
    InvalidDigit,
    /// The number does not fit.
    TooLarge,
}

impl NumberError {
    /// The error in words.
    pub open spec fn words(self) -> Seq<char> {
        match self {
            NumberError::Empty => "cannot parse integer from empty string"@,
            NumberError::InvalidDigit => "invalid digit found in string"@,
            NumberError::TooLarge => "number too large to fit in target type"@,
        }
    }

    /// The error in words.
    pub fn message(self) -> (text: String)
        ensures
            text@ == self.words(),
    {
        match self {
            NumberError::Empty => "cannot parse integer from empty string".to_owned(),
            NumberError::InvalidDigit => "invalid digit found in string".to_owned(),
            NumberError::TooLarge => "number too large to fit in target type".to_owned(),
        }
    }
}

/// Reads the digits of `text` on from the number `so_far`.
pub open spec fn digits_value(text: Seq<char>, so_far: nat, max: nat) -> Result<nat, NumberError>
    decreases text.len(),
{
    if text.len() == 0 {
        Ok(so_far)
    } else if !('0' <= text[0] <= '9') {
        Err(NumberError::InvalidDigit)
    } else {
        let next = (10 * so_far + (text[0] as nat - 48)) as nat;
        if next > max {
            Err(NumberError::TooLarge)
        } else {
            digits_value(text.drop_first(), next, max)
        }
    }
}

/// The number that `text` spells: decimal digits, with an optional plus sign,
/// at most `max`.
pub open spec fn number_value(text: Seq<char>, max: nat) -> Result<nat, NumberError> {
    if text.len() == 0 {
        Err(NumberError::Empty)
    } else if text == seq!['+'] {
        Err(NumberError::InvalidDigit)
    } else if text[0] == '+' {
        digits_value(text.drop_first(), 0, max)
    } else {
        digits_value(text, 0, max)
    }
}

/// The number that `text` spells.
pub fn parse_number(text: &str, max: u64) -> (result: Result<u64, NumberError>)
    ensures
        match result {
            Ok(n) => number_value(text@, max as nat) == Ok::<nat, NumberError>(n as nat),
            Err(e) => number_value(text@, max as nat) == Err::<nat, NumberError>(e),
        },
        result matches Ok(n) ==> n <= max,
{
    let chars = chars_of(text);
    let len: usize = chars.len();
    if len == 0 {
        return Err(NumberError::Empty);
    }
    let mut i: usize = 0;
    if chars[0] == '+' {
        if len == 1 {
            assert(text@ =~= seq!['+']);
            return Err(NumberError::InvalidDigit);
        }
        i = 1;
        assert(text@.drop_first() =~= chars@.subrange(1, len as int));
    } else {
        assert(text@ =~= chars@.subrange(0, len as int));
    }
    let mut value: u64 = 0;
    while i < len
        invariant
            i <= len == chars@.len(),
            chars@ == text@,
            value <= max,
            digits_value(chars@.subrange(i as int, len as int), value as nat, max as nat)
                == number_value(text@, max as nat),
        decreases len - i,
    {
        let c: char = chars[i];
        let ghost rest = chars@.subrange(i as int, len as int);
        assert(rest.drop_first() =~= chars@.subrange(i + 1, len as int));
        if c < '0' || c > '9' {
            return Err(NumberError::InvalidDigit);
        }
        let digit: u64 = c as u64 - 48;
        if value > max / 10 {
            return Err(NumberError::TooLarge);
        }
        if digit > max || 10 * value > max - digit {
            return Err(NumberError::TooLarge);
        }
        value = 10 * value + digit;
        i = i + 1;
    }
    Ok(value)
}

} // verus!

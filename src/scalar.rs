//! Scalar parsers: lenient counts, the site's long-form dates, and
//! human-readable byte sizes.
use vstd::prelude::*;
use crate::text::{
    all_digits, find, find_chars, lemma_find_from_occurs, replace_all, slice_chars, string_of, chars_of, dec_value, is_digit, lenient_number, parse_u32_spec, unsigned_part, replace_chars,
    trim_chars,
};

verus! {

/// What `chrono::DateTime::parse_from_str(text, format)` gives, as a Unix
/// timestamp, or `None` where it fails.
pub uninterp spec fn timestamp_from(text: Seq<char>, format: Seq<char>) -> Option<i64>;

/// What `byte_unit::Byte::parse_str(text, true)` gives, as a byte count
/// (saturated to `u64`), or `None` where it fails.
pub uninterp spec fn byte_count(text: Seq<char>) -> Option<u64>;

/// Relies on `chrono::DateTime::parse_from_str` and `DateTime::timestamp`.
#[verifier::external_body]
fn parse_timestamp(text: &str, format: &str) -> (r: Option<i64>)
    ensures
        r == timestamp_from(text@, format@),
{
    chrono::DateTime::parse_from_str(text, format).ok().map(|d| d.timestamp())
}

/// Relies on `byte_unit::Byte::parse_str` (units matched without regard to
/// case) and `Byte::as_u64`.
#[verifier::external_body]
fn parse_byte_count(text: &str) -> (r: Option<u64>)
    ensures
        r == byte_count(text@),
{
    byte_unit::Byte::parse_str(text, true).ok().map(|b| b.as_u64())
}

/// A string of digits is worth at least as much as any of its prefixes.
proof fn lemma_dec_value_prefix(s: Seq<char>, k: int)
    requires
        0 <= k <= s.len(),
    ensures
        dec_value(s.subrange(0, k)) <= dec_value(s),
    decreases s.len() - k,
{
    if k < s.len() {
        lemma_dec_value_prefix(s, k + 1);
        assert(s.subrange(0, k + 1).drop_last() =~= s.subrange(0, k));
    } else {
        assert(s.subrange(0, k) =~= s);
    }
}

/// Reads a `u32` as `str::parse` does.
pub fn parse_u32(s: &Vec<char>) -> (r: Option<u32>)
    ensures
        r == parse_u32_spec(s@),
{
    let n = s.len();
    let start: usize = if n > 0 && s[0] == '+' {
        1
    } else {
        0
    };
    let ghost d = s@.subrange(start as int, n as int);
    assert(d =~= unsigned_part(s@));
    if start == n {
        return None;
    }
    let mut i: usize = start;
    while i < n
        invariant
            start <= i <= n,
            n == s@.len(),
            d == s@.subrange(start as int, n as int),
            d == unsigned_part(s@),
            forall|m: int| 0 <= m < i - start ==> #[trigger] is_digit(d[m]),
        decreases n - i,
    {
        let u = s[i] as u32;
        if !(0x30 <= u && u <= 0x39) {
            assert(!is_digit(d[i - start]));
            return None;
        }
        i = i + 1;
    }
    assert(all_digits(d));
    let mut acc: u64 = 0;
    let mut k: usize = start;
    while k < n
        invariant
            start <= k <= n,
            n == s@.len(),
            d == s@.subrange(start as int, n as int),
            d == unsigned_part(s@),
            all_digits(d),
            acc == dec_value(d.subrange(0, k - start)),
            acc <= u32::MAX,
        decreases n - k,
    {
        assert(is_digit(d[k - start]));
        assert(d.subrange(0, k - start + 1).drop_last() =~= d.subrange(0, k - start));
        let next = acc * 10 + (s[k] as u32 - 0x30) as u64;
        k = k + 1;
        if next > 0xFFFF_FFFF {
            proof {
                lemma_dec_value_prefix(d, k - start);
            }
            return None;
        }
        acc = next;
    }
    assert(d.subrange(0, n - start) =~= d);
    Some(acc as u32)
}

/// A count read leniently: the text is trimmed and its commas removed; zero
/// where what is left is no `u32`.
pub fn safe_parse_number(text: &str) -> (r: u32)
    ensures
        r == lenient_number(text@),
{
    let t = trim_chars(&chars_of(text));
    let comma = vec![','];
    let none: Vec<char> = Vec::new();
    assert(comma@ =~= seq![',']);
    assert(none@ =~= Seq::<char>::empty());
    let digits = replace_chars(&t, &comma, &none);
    match parse_u32(&digits) {
        Some(n) => n,
        None => 0,
    }
}

/// Why a date string could not be read.
#[derive(Debug, Clone, Copy, PartialEq, Eq, Structural)]
pub enum DateError {
    /// The text holds no `" of"` after the day number.
    MissingMarker,
    /// Fewer than two characters stand before `" of"`, so there is no
    /// ordinal suffix to remove.
    NoOrdinal,
    /// The normalised text is no date of the expected shape.
    Unparsable,
}

impl DateError {
    /// A description for people.
    pub fn message(&self) -> &'static str {
        match self {
            DateError::MissingMarker => "date string lacks the ' of' marker",
            DateError::NoOrdinal => "date string has no ordinal suffix before ' of'",
            DateError::Unparsable => "date string does not match the expected format",
        }
    }
}

/// The date text with the ordinal suffix and `" of"` cut out (they stand
/// at `i - 2 .. i + 3`, where `" of"` starts at `i`) and the time zone
/// abbreviation replaced by its offset.
pub open spec fn normalized_date(s: Seq<char>, i: int) -> Seq<char> {
    replace_all(s.subrange(0, i - 2) + s.subrange(i + 3, s.len() as int), "CDT"@, "-0500"@)
}

/// What a long-form date such as `Thursday 2nd of May 2024 10:05:29 AM CDT`
/// stands for, as a Unix timestamp.
pub open spec fn date_value(s: Seq<char>) -> Result<i64, DateError> {
    match normalized_value(s) {
        Ok(n) => match timestamp_from(n, "%A %e %B %Y %r %z"@) {
            Some(t) => Ok(t),
            None => Err(DateError::Unparsable),
        },
        Err(e) => Err(e),
    }
}

/// A date read leniently: the Unix epoch where it cannot be read.
pub open spec fn date_or_epoch(s: Seq<char>) -> i64 {
    match date_value(s) {
        Ok(t) => t,
        Err(_) => 0,
    }
}

/// A byte size read leniently: zero where it cannot be read.
pub open spec fn size_or_zero(s: Seq<char>) -> u64 {
    match byte_count(s) {
        Some(n) => n,
        None => 0,
    }
}

/// The long-form date with its ordinal suffix and `" of"` cut out and the
/// time zone abbreviation replaced by its offset, ready for the final parse.
pub open spec fn normalized_value(s: Seq<char>) -> Result<Seq<char>, DateError> {
    match find(s, " of"@) {
        None => Err(DateError::MissingMarker),
        Some(i) => if i < 2 {
            Err(DateError::NoOrdinal)
        } else {
            Ok(normalized_date(s, i))
        },
    }
}

/// Cuts the ordinal suffix and `" of"` out of a long-form date and replaces
/// the time zone abbreviation by its offset.
pub fn normalize_date(date: &str) -> (r: Result<String, DateError>)
    ensures
        match r {
            Ok(t) => normalized_value(date@) == Ok::<Seq<char>, DateError>(t@),
            Err(e) => normalized_value(date@) == Err::<Seq<char>, DateError>(e),
        },
{
    let s = chars_of(date);
    let marker = chars_of(" of");
    match find_chars(&s, &marker) {
        None => Err(DateError::MissingMarker),
        Some(i) => {
            if i < 2 {
                return Err(DateError::NoOrdinal);
            }
            proof {
                reveal_strlit(" of");
                lemma_find_from_occurs(s@, marker@, 0);
            }
            assert(i + 3 <= s.len());
            let mut joined = slice_chars(&s, 0, i - 2);
            let mut tail = slice_chars(&s, i + 3, s.len());
            joined.append(&mut tail);
            let norm = replace_chars(&joined, &chars_of("CDT"), &chars_of("-0500"));
            Ok(string_of(norm.as_slice()))
        },
    }
}

/// Reads the site's long-form date into a Unix timestamp.
pub fn parse_date(date: &str) -> (r: Result<i64, DateError>)
    ensures
        r == date_value(date@),
{
    match normalize_date(date) {
        Ok(norm) => match parse_timestamp(norm.as_str(), "%A %e %B %Y %r %z") {
            Some(t) => Ok(t),
            None => Err(DateError::Unparsable),
        },
        Err(e) => Err(e),
    }
}

/// Reads a date, giving the Unix epoch where it cannot be read.
pub fn safe_parse_date(date: &str) -> (r: i64)
    ensures
        r == date_or_epoch(date@),
{
    match parse_date(date) {
        Ok(t) => t,
        Err(_) => 0,
    }
}

/// Reads a human-readable byte size such as `1.5 KB`; zero where it cannot
/// be read.
pub fn parse_size(text: &str) -> (r: u64)
    ensures
        r == size_or_zero(text@),
{
    match parse_byte_count(text) {
        Some(n) => n,
        None => 0,
    }
}

} // verus!

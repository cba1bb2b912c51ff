//! Reading a point in time from free text.
//!
//! Three shapes are read, all as UTC: a date (`2024-01-02`), a date with hour
//! and minute (`2024-01-02 10:30`) and a date with hour, minute and second
//! (`2024-01-02 10:30:15`). The text is trimmed and completed to the third
//! shape before it is parsed: a text without a colon gets midnight appended,
//! a text with one colon gets zero seconds appended.

use crate::row::{encode_timestamp, timestamp_code};
use vstd::prelude::*;

verus! {

/// Whether a character counts as white space: whether it has the Unicode
/// property `White_Space`. These are the code points U+0009 to U+000D,
/// U+0020, U+0085, U+00A0, U+1680, U+2000 to U+200A, U+2028, U+2029,
/// U+202F, U+205F and U+3000.
pub open spec fn is_whitespace(c: char) -> bool {
    let code = c as u32;
    ||| 0x0009 <= code <= 0x000D
    ||| code == 0x0020
    ||| code == 0x0085
    ||| code == 0x00A0
    ||| code == 0x1680
    ||| 0x2000 <= code <= 0x200A
    ||| code == 0x2028
    ||| code == 0x2029
    ||| code == 0x202F
    ||| code == 0x205F
    ||| code == 0x3000
}

/// The seconds since 1970-01-01 00:00:00 UTC of the date and time that
/// `chrono::NaiveDateTime::parse_from_str` reads from `text` by `format`,
/// taken as UTC; `None` where it reads none.
pub uninterp spec fn parsed_timestamp(text: Seq<char>, format: Seq<char>) -> Option<i64>;

/// Tells whether a character counts as white space.
pub fn char_is_whitespace(c: char) -> (white: bool)
    ensures
        white == is_whitespace(c),
{
    let code: u32 = c as u32;
    (0x0009 <= code && code <= 0x000D) || code == 0x0020 || code == 0x0085 || code == 0x00A0
        || code == 0x1680 || (0x2000 <= code && code <= 0x200A) || code == 0x2028 || code
        == 0x2029 || code == 0x202F || code == 0x205F || code == 0x3000
}

/// Calls `chrono::NaiveDateTime::parse_from_str` and converts what it read
/// with `DateTime::from_naive_utc_and_offset` and `DateTime::timestamp` to
/// seconds since the Unix epoch.
///
/// Trusted: the result is a function of the two texts alone, which
/// [`parsed_timestamp`] names. The parser reads no locale, clock or time
/// zone. Nothing is claimed of which texts it accepts.
#[verifier::external_body]
fn parse_timestamp(text: &str, format: &str) -> (seconds: Option<i64>)
    ensures
        seconds == parsed_timestamp(text@, format@),
{
    match chrono::NaiveDateTime::parse_from_str(text, format) {
        Ok(read) => Some(
            chrono::DateTime::<chrono::Utc>::from_naive_utc_and_offset(read, chrono::Utc).timestamp(),
        ),
        Err(_) => None,
    }
}

/// `text` without the white space it begins with.
pub open spec fn trim_start(text: Seq<char>) -> Seq<char>
    decreases text.len(),
{
    if text.len() > 0 && is_whitespace(text.first()) {
        trim_start(text.drop_first())
    } else {
        text
    }
}

/// `text` without the white space it ends with.
pub open spec fn trim_end(text: Seq<char>) -> Seq<char>
    decreases text.len(),
{
    if text.len() > 0 && is_whitespace(text.last()) {
        trim_end(text.drop_last())
    } else {
        text
    }
}

/// `text` without the white space around it.
pub open spec fn trimmed(text: Seq<char>) -> Seq<char> {
    trim_end(trim_start(text))
}

/// How many colons `text` holds.
pub open spec fn count_colons(text: Seq<char>) -> nat {
    text.filter(|c: char| c == ':').len()
}

/// `text` completed to date, hour, minute and second.
pub open spec fn normalized(text: Seq<char>) -> Seq<char> {
    if count_colons(text) == 0 {
        text + " 00:00:00"@
    } else if count_colons(text) == 1 {
        text + ":00"@
    } else {
        text
    }
}

/// What the first of the three formats that reads `text` reads from it.
pub open spec fn first_parse(text: Seq<char>) -> Option<i64> {
    if parsed_timestamp(text, "%Y-%m-%d"@) is Some {
        parsed_timestamp(text, "%Y-%m-%d"@)
    } else if parsed_timestamp(text, "%Y-%m-%d %H:%M"@) is Some {
        parsed_timestamp(text, "%Y-%m-%d %H:%M"@)
    } else {
        parsed_timestamp(text, "%Y-%m-%d %H:%M:%S"@)
    }
}

/// Whether `text` is empty but for white space.
pub open spec fn is_blank(text: Seq<char>) -> bool {
    forall|i: int| 0 <= i < text.len() ==> is_whitespace(#[trigger] text[i])
}

/// The point in time that `text` gives, as a row holds it; `None` where the
/// text is empty but for white space or has none of the three shapes.
pub open spec fn spec_parse_time(text: Seq<char>) -> Option<u64> {
    if trimmed(text).len() == 0 {
        None
    } else {
        match first_parse(normalized(trimmed(text))) {
            Some(seconds) => Some(timestamp_code(seconds as int) as u64),
            None => None,
        }
    }
}

/// Removes the white space around `text`.
pub fn trim(text: &str) -> (inner: &str)
    ensures
        inner@ == trimmed(text@),
{
    let len = text.unicode_len();
    let mut start: usize = 0;
    let mut scanning = true;
    assert(text@.subrange(0, len as int) =~= text@);
    while scanning && start < len
        invariant
            len == text@.len(),
            start <= len,
            trim_start(text@) == trim_start(text@.subrange(start as int, len as int)),
            !scanning ==> start < len && !is_whitespace(text@[start as int]),
        decreases len - start + if scanning { 1int } else { 0int },
    {
        if char_is_whitespace(text.get_char(start)) {
            assert(text@.subrange(start as int, len as int).drop_first() =~= text@.subrange(
                start + 1,
                len as int,
            ));
            start += 1;
        } else {
            scanning = false;
        }
    }
    let ghost tail = text@.subrange(start as int, len as int);
    assert(trim_start(text@) == tail);
    let mut end: usize = len;
    scanning = true;
    while scanning && start < end
        invariant
            len == text@.len(),
            start <= end <= len,
            tail == text@.subrange(start as int, len as int),
            trim_end(tail) == trim_end(text@.subrange(start as int, end as int)),
            !scanning ==> start < end && !is_whitespace(text@[end - 1]),
        decreases end - start + if scanning { 1int } else { 0int },
    {
        if char_is_whitespace(text.get_char(end - 1)) {
            assert(text@.subrange(start as int, end as int).drop_last() =~= text@.subrange(
                start as int,
                end - 1,
            ));
            end -= 1;
        } else {
            scanning = false;
        }
    }
    text.substring_char(start, end)
}

/// Counts the colons of `text`.
pub fn colons(text: &str) -> (count: usize)
    ensures
        count == count_colons(text@),
{
    let len = text.unicode_len();
    let mut count: usize = 0;
    let mut i: usize = 0;
    proof {
        reveal(Seq::filter);
        assert(text@.take(0) =~= Seq::<char>::empty());
    }
    while i < len
        invariant
            len == text@.len(),
            i <= len,
            count <= i,
            count == count_colons(text@.take(i as int)),
        decreases len - i,
    {
        proof {
            reveal(Seq::filter);
            assert(text@.take(i + 1).drop_last() =~= text@.take(i as int));
        }
        if text.get_char(i) == ':' {
            count += 1;
        }
        i += 1;
    }
    assert(text@.take(len as int) =~= text@);
    count
}

/// Completes a trimmed text to date, hour, minute and second.
pub fn normalize(text: &str) -> (full: String)
    ensures
        full@ == normalized(text@),
{
    let count = colons(text);
    let mut full = String::from_str(text);
    if count == 0 {
        full.append(" 00:00:00");
    } else if count == 1 {
        full.append(":00");
    }
    full
}

/// Reads the point in time that `text` gives and encodes it for a row.
///
/// The text is trimmed, completed and handed to the parser with the format
/// of a date, of a date with hour and minute, and of a date with hour,
/// minute and second, in this order; the first reading counts.
pub fn parse_time(text: &str) -> (time: Option<u64>)
    ensures
        time == spec_parse_time(text@),
        is_blank(text@) ==> time is None,
{
    proof {
        if is_blank(text@) {
            blank_text_gives_no_time(text@);
        }
    }
    let inner = trim(text);
    if inner.unicode_len() == 0 {
        return None;
    }
    let full = normalize(inner);
    match parse_timestamp(full.as_str(), "%Y-%m-%d") {
        Some(seconds) => {
            return Some(encode_timestamp(seconds));
        },
        None => {},
    }
    match parse_timestamp(full.as_str(), "%Y-%m-%d %H:%M") {
        Some(seconds) => {
            return Some(encode_timestamp(seconds));
        },
        None => {},
    }
    match parse_timestamp(full.as_str(), "%Y-%m-%d %H:%M:%S") {
        Some(seconds) => Some(encode_timestamp(seconds)),
        None => None,
    }
}

/// A text that is empty but for white space gives no point in time.
pub proof fn blank_text_gives_no_time(text: Seq<char>)
    requires
        is_blank(text),
    ensures
        trimmed(text).len() == 0,
        spec_parse_time(text) is None,
{
    lemma_trim_start_of_blank(text);
}

/// Trimming takes nothing but white space away: what is left begins and ends
/// with a character that is none, and trimming it again changes nothing.
pub proof fn trimmed_has_no_white_space_around(text: Seq<char>)
    ensures
        trimmed(text).len() > 0 ==> !is_whitespace(trimmed(text).first()) && !is_whitespace(
            trimmed(text).last(),
        ),
        trimmed(trimmed(text)) == trimmed(text),
{
    lemma_trim_start_ends(text);
    lemma_trim_end_ends(trim_start(text));
    let inner = trimmed(text);
    if inner.len() > 0 {
        lemma_trim_end_is_prefix(trim_start(text));
        assert(inner.first() == trim_start(text).first());
    }
}

/// A text completed to date, hour, minute and second begins with the text,
/// and a text with two colons or more is already complete.
pub proof fn normalized_extends(text: Seq<char>)
    ensures
        text.is_prefix_of(normalized(text)),
        count_colons(text) == 0 ==> normalized(text) == text + " 00:00:00"@,
        count_colons(text) == 1 ==> normalized(text) == text + ":00"@,
        count_colons(text) >= 2 ==> normalized(text) == text,
{
    assert(text.is_prefix_of(text + " 00:00:00"@));
    assert(text.is_prefix_of(text + ":00"@));
}

proof fn lemma_trim_start_of_blank(text: Seq<char>)
    requires
        forall|i: int| 0 <= i < text.len() ==> is_whitespace(#[trigger] text[i]),
    ensures
        trim_start(text).len() == 0,
    decreases text.len(),
{
    if text.len() > 0 {
        let rest = text.drop_first();
        assert forall|i: int| 0 <= i < rest.len() implies is_whitespace(#[trigger] rest[i]) by {
            assert(rest[i] == text[i + 1]);
        }
        lemma_trim_start_of_blank(rest);
    }
}

proof fn lemma_trim_start_ends(text: Seq<char>)
    ensures
        trim_start(text).len() > 0 ==> !is_whitespace(trim_start(text).first()),
        trim_start(trim_start(text)) == trim_start(text),
    decreases text.len(),
{
    if text.len() > 0 && is_whitespace(text.first()) {
        lemma_trim_start_ends(text.drop_first());
    }
}

proof fn lemma_trim_end_ends(text: Seq<char>)
    ensures
        trim_end(text).len() > 0 ==> !is_whitespace(trim_end(text).last()),
        trim_end(trim_end(text)) == trim_end(text),
    decreases text.len(),
{
    if text.len() > 0 && is_whitespace(text.last()) {
        lemma_trim_end_ends(text.drop_last());
    }
}

proof fn lemma_trim_end_is_prefix(text: Seq<char>)
    ensures
        trim_end(text).is_prefix_of(text),
    decreases text.len(),
{
    if text.len() > 0 && is_whitespace(text.last()) {
        lemma_trim_end_is_prefix(text.drop_last());
        assert(text.drop_last().is_prefix_of(text));
    }
}

} // verus!

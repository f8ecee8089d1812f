//! The fields of the service's documents that are written in a form of their
//! own: colours as hexadecimal text, the time a statistics document was
//! generated at, and values that are either absent or text.
//!
//! Reading a document as a whole is left to the decoder of the driver; it
//! calls these for the fields.

use crate::error::{DecodeError, RequestError};
use crate::messages::{UserFaction, UserUpdate, UserUpdateKey};
use crate::stats::StatsTimestamp;
use chrono::TimeZone;
use chrono_tz::Tz;
use vstd::prelude::*;
use vstd::string::StrSliceExecFns;
use vstd::utf8::{decode_utf8, valid_utf8};

verus! {

/// The form in which the statistics document writes a date and a time of day.
pub const STATS_TIME_FORMAT: &'static str = "%Y/%m/%d - %H:%M:%S";

/// A value that the document writes either as a truth value or as text.
#[derive(Debug, Clone, PartialEq, Eq)]
pub enum FlagOrText {
    Flag(bool),
    Text(String),
}

/// The characters of `text`, one by one.
fn chars_of(text: &str) -> (chars: Vec<char>)
    ensures
        chars@ == text@,
{
    let n: usize = text.unicode_len();
    let mut chars: Vec<char> = Vec::new();
    let mut i: usize = 0;
    while i < n
        invariant
            i <= n,
            n == text@.len(),
            chars@ == text@.take(i as int),
        decreases n - i,
    {
        chars.push(text.get_char(i));
        assert(text@.take(i + 1) =~= text@.take(i as int).push(text@[i as int]));
        i += 1;
    }
    assert(text@.take(n as int) =~= text@);
    chars
}

/// The value of a hexadecimal digit, in either case.
pub open spec fn hex_digit(c: char) -> Option<u32> {
    let v = c as u32;
    if 48 <= v <= 57 {
        Some((v - 48) as u32)
    } else if 97 <= v <= 102 {
        Some((v - 87) as u32)
    } else if 65 <= v <= 70 {
        Some((v - 55) as u32)
    } else {
        None
    }
}

/// Number of `#` that `text` begins with.
pub open spec fn leading_hashes(text: Seq<char>) -> nat
    decreases text.len(),
{
    if text.len() > 0 && text[0] == '#' {
        1 + leading_hashes(text.drop_first())
    } else {
        0
    }
}

/// The number that `digits` write in base 16 after the digits that came to
/// `acc`, read left to right. The first character that is no digit, or with
/// which the number would pass 32 bits, ends the reading with a fault.
pub open spec fn hex_number(digits: Seq<char>, acc: u32) -> Result<u32, DecodeError>
    decreases digits.len(),
{
    if digits.len() == 0 {
        Ok(acc)
    } else {
        match hex_digit(digits[0]) {
            None => Err(DecodeError::InvalidDigit),
            Some(d) => if acc * 16 + d > u32::MAX {
                Err(DecodeError::NumberTooLarge)
            } else {
                hex_number(digits.drop_first(), (acc * 16 + d) as u32)
            },
        }
    }
}

/// The number that `text` writes in base 16: digits in either case, after one
/// `+` at most. Text without a character is a fault, as is a sign alone.
pub open spec fn unsigned_hex(text: Seq<char>) -> Result<u32, DecodeError> {
    if text.len() == 0 {
        Err(DecodeError::EmptyNumber)
    } else if text.len() == 1 && text[0] == '+' {
        Err(DecodeError::InvalidDigit)
    } else if text[0] == '+' {
        hex_number(text.drop_first(), 0)
    } else {
        hex_number(text, 0)
    }
}

/// Red, green and blue of a colour written as one number: its three low bytes,
/// the highest first.
pub open spec fn rgb_of(number: u32) -> [u8; 3] {
    [((number / 65536) % 256) as u8, ((number / 256) % 256) as u8, (number % 256) as u8]
}

/// The colour that `text` writes: a hexadecimal number after any number of
/// `#`, as in a style sheet.
pub open spec fn color_value(text: Seq<char>) -> Result<[u8; 3], DecodeError> {
    match unsigned_hex(text.skip(leading_hashes(text) as int)) {
        Ok(number) => Ok(rgb_of(number)),
        Err(e) => Err(e),
    }
}

fn digit_of(c: char) -> (r: Option<u32>)
    ensures
        r == hex_digit(c),
{
    let v: u32 = c as u32;
    if 48 <= v && v <= 57 {
        Some(v - 48)
    } else if 97 <= v && v <= 102 {
        Some(v - 87)
    } else if 65 <= v && v <= 70 {
        Some(v - 55)
    } else {
        None
    }
}

/// Reads a colour written as hexadecimal text.
pub fn parse_color_value(text: &str) -> (r: Result<[u8; 3], DecodeError>)
    ensures
        r == color_value(text@),
{
    let chars: Vec<char> = chars_of(text);
    let n: usize = chars.len();
    let mut start: usize = 0;
    assert(chars@.skip(0) =~= chars@);
    while start < n && chars[start] == '#'
        invariant
            start <= n,
            n == chars@.len(),
            leading_hashes(chars@) == start + leading_hashes(chars@.skip(start as int)),
        decreases n - start,
    {
        assert(chars@.skip(start as int).drop_first() =~= chars@.skip(start + 1));
        start += 1;
    }
    assert(leading_hashes(chars@.skip(start as int)) == 0);
    let ghost body = chars@.skip(start as int);
    if start == n {
        return Err(DecodeError::EmptyNumber);
    }
    assert(body[0] == chars@[start as int]);
    let mut i: usize = start;
    if chars[start] == '+' {
        if n - start == 1 {
            return Err(DecodeError::InvalidDigit);
        }
        assert(body.drop_first() =~= chars@.skip(start + 1));
        i = start + 1;
    }
    let mut acc: u32 = 0;
    while i < n
        invariant
            i <= n,
            n == chars@.len(),
            body == text@.skip(leading_hashes(text@) as int),
            unsigned_hex(body) == hex_number(chars@.skip(i as int), acc),
        decreases n - i,
    {
        assert(chars@.skip(i as int)[0] == chars@[i as int]);
        assert(chars@.skip(i as int).drop_first() =~= chars@.skip(i + 1));
        let d: u32 = match digit_of(chars[i]) {
            Some(d) => d,
            None => {
                return Err(DecodeError::InvalidDigit);
            },
        };
        acc = match acc.checked_mul(16) {
            Some(shifted) => match shifted.checked_add(d) {
                Some(next) => next,
                None => {
                    return Err(DecodeError::NumberTooLarge);
                },
            },
            None => {
                return Err(DecodeError::NumberTooLarge);
            },
        };
        i += 1;
    }
    assert(chars@.skip(n as int).len() == 0);
    Ok([((acc / 65536) % 256) as u8, ((acc / 256) % 256) as u8, (acc % 256) as u8])
}

/// Reads a value that is either absent, written as `false`, or text. `true`
/// stands for nothing and is refused.
pub fn false_or_string(value: FlagOrText) -> (r: Result<Option<String>, DecodeError>)
    ensures
        r == match value {
            FlagOrText::Flag(false) => Ok(None),
            FlagOrText::Flag(true) => Err(DecodeError::ExpectedFalse),
            FlagOrText::Text(text) => Ok(Some(text)),
        },
{
    match value {
        FlagOrText::Flag(flag) => if flag {
            Err(DecodeError::ExpectedFalse)
        } else {
            Ok(None)
        },
        FlagOrText::Text(text) => Ok(Some(text)),
    }
}

/// Reads text that stands for an absent value where it is empty.
pub fn empty_as_none(text: String) -> (r: Option<String>)
    ensures
        r == if text@.len() == 0 {
            None
        } else {
            Some(text)
        },
{
    if text.as_str().unicode_len() == 0 {
        None
    } else {
        Some(text)
    }
}

/// Tells the keys of a user update that carry a property from the others.
pub fn user_update_key(key: &str) -> (r: UserUpdateKey)
    ensures
        r == if key@ == "NameColor"@ {
            UserUpdateKey::NameColor
        } else if key@ == "DisplayedFaction"@ {
            UserUpdateKey::DisplayedFaction
        } else {
            UserUpdateKey::Other
        },
{
    let given: String = key.to_owned();
    if given == "NameColor".to_owned() {
        UserUpdateKey::NameColor
    } else if given == "DisplayedFaction".to_owned() {
        UserUpdateKey::DisplayedFaction
    } else {
        UserUpdateKey::Other
    }
}

/// One entry of a user update: the property that its key names, with its
/// value, or an entry under any other key.
#[derive(Debug, Clone, PartialEq, Eq)]
pub enum UserUpdateEntry {
    NameColor(isize),
    DisplayedFaction(Option<UserFaction>),
    Other,
}

/// A user update that mentions no property.
pub open spec fn blank_update() -> UserUpdate {
    UserUpdate { name_color: None, displayed_faction: None }
}

/// The update with one more entry taken in: the entry's property is set, also
/// where it was set before; an entry under another key changes nothing.
pub open spec fn recorded(update: UserUpdate, entry: UserUpdateEntry) -> UserUpdate {
    match entry {
        UserUpdateEntry::NameColor(color) => UserUpdate { name_color: Some(color), ..update },
        UserUpdateEntry::DisplayedFaction(faction) => UserUpdate {
            displayed_faction: Some(faction),
            ..update
        },
        UserUpdateEntry::Other => update,
    }
}

/// The update that `entries` come to, taken in first to last: of two entries
/// for one property the later counts.
pub open spec fn collected(entries: Seq<UserUpdateEntry>) -> UserUpdate
    decreases entries.len(),
{
    if entries.len() == 0 {
        blank_update()
    } else {
        recorded(collected(entries.drop_last()), entries.last())
    }
}

/// The update `base` with what `top` sets laid over it.
spec fn overlaid(base: UserUpdate, top: UserUpdate) -> UserUpdate {
    UserUpdate {
        name_color: if top.name_color is Some {
            top.name_color
        } else {
            base.name_color
        },
        displayed_faction: if top.displayed_faction is Some {
            top.displayed_faction
        } else {
            base.displayed_faction
        },
    }
}

/// Gathers the entries of a user update into the update.
pub fn collect_user_update(entries: Vec<UserUpdateEntry>) -> (r: UserUpdate)
    ensures
        r == collected(entries@),
{
    let mut entries = entries;
    let mut update = UserUpdate { name_color: None, displayed_faction: None };
    let ghost all = entries@;
    while entries.len() > 0
        invariant
            collected(all) == overlaid(collected(entries@), update),
        decreases entries.len(),
    {
        let ghost before = entries@;
        let entry = entries.pop();
        assert(entries@ == before.drop_last());
        match entry {
            Some(UserUpdateEntry::NameColor(color)) => {
                if update.name_color.is_none() {
                    update.name_color = Some(color);
                }
            },
            Some(UserUpdateEntry::DisplayedFaction(faction)) => {
                if update.displayed_faction.is_none() {
                    update.displayed_faction = Some(faction);
                }
            },
            _ => {},
        }
    }
    update
}

/// Whether a space and an opening bracket stand at `i` in `text`.
pub open spec fn separator_at(text: Seq<char>, i: int) -> bool {
    0 <= i && i + 1 < text.len() && text[i] == ' ' && text[i + 1] == '('
}

/// Whether `i` is where the first separator at or after `from` stands in
/// `text`, or the length of `text` where there is none.
pub open spec fn first_separator(text: Seq<char>, from: int, i: int) -> bool {
    &&& from <= i <= text.len()
    &&& forall|j: int| from <= j < i ==> !separator_at(text, j)
    &&& i < text.len() ==> separator_at(text, i)
}

/// Where the first separator at or after `from` stands in `text`, or the
/// length of `text` where there is none.
pub open spec fn separator_from(text: Seq<char>, from: int) -> int {
    choose|i: int| first_separator(text, from, i)
}

/// The date with time and the name of the time zone that `text` writes as
/// `date - time (zone)`: the last character of `text` is dropped, the first
/// part ends before the first separator, and the second part lies between the
/// first separator and the next, or the end. `None` where `text` is empty or
/// has no separator before its last character.
pub open spec fn stats_time_parts(text: Seq<char>) -> Option<(Seq<char>, Seq<char>)> {
    let body = text.drop_last();
    let i = separator_from(body, 0);
    if text.len() == 0 || i >= body.len() {
        None
    } else {
        Some((body.subrange(0, i), body.subrange(i + 2, separator_from(body, i + 2))))
    }
}

/// The fault of a written time without its two parts.
pub open spec fn parts_fault(text: Seq<char>) -> DecodeError {
    if text.len() == 0 {
        DecodeError::EmptyTimestamp
    } else {
        DecodeError::MissingTimezone
    }
}

/// There is one place where the first separator stands.
proof fn lemma_separator_from(text: Seq<char>, from: int, i: int)
    requires
        first_separator(text, from, i),
    ensures
        separator_from(text, from) == i,
{
    let k = separator_from(text, from);
    assert(first_separator(text, from, k));
    if k < i {
        assert(!separator_at(text, k));
    }
    if i < k {
        assert(!separator_at(text, i));
    }
}

fn find_separator(chars: &Vec<char>, from: usize, end: usize) -> (i: usize)
    requires
        from <= end <= chars@.len(),
    ensures
        first_separator(chars@.take(end as int), from as int, i as int),
        i == separator_from(chars@.take(end as int), from as int),
{
    let mut i: usize = from;
    while i < end
        invariant
            from <= i <= end,
            end <= chars@.len(),
            forall|j: int| from <= j < i ==> !separator_at(chars@.take(end as int), j),
        decreases end - i,
    {
        if i + 1 < end && chars[i] == ' ' && chars[i + 1] == '(' {
            proof {
                lemma_separator_from(chars@.take(end as int), from as int, i as int);
            }
            return i;
        }
        i += 1;
    }
    proof {
        lemma_separator_from(chars@.take(end as int), from as int, end as int);
    }
    end
}

/// Splits the time at which a statistics document was generated, written as
/// `date - time (zone)`, into the date with time and the name of the zone.
pub fn split_stats_time(text: &str) -> (r: Result<(String, String), DecodeError>)
    ensures
        match r {
            Ok((datetime, zone)) => stats_time_parts(text@) == Some((datetime@, zone@)),
            Err(e) => stats_time_parts(text@) is None && e == parts_fault(text@),
        },
{
    let chars: Vec<char> = chars_of(text);
    if chars.len() == 0 {
        return Err(DecodeError::EmptyTimestamp);
    }
    let end: usize = chars.len() - 1;
    assert(chars@.take(end as int) =~= text@.drop_last());
    let i: usize = find_separator(&chars, 0, end);
    if i == end {
        return Err(DecodeError::MissingTimezone);
    }
    let j: usize = find_separator(&chars, i + 2, end);
    let datetime: String = text.substring_char(0, i).to_owned();
    let zone: String = text.substring_char(i + 2, j).to_owned();
    proof {
        let body = text@.drop_last();
        assert(body.subrange(0, i as int) =~= text@.subrange(0, i as int));
        assert(body.subrange(i + 2, j as int) =~= text@.subrange(i + 2, j as int));
    }
    Ok((datetime, zone))
}

/// Seconds since the Unix epoch of the local date and time `datetime`, written
/// in the form `STATS_TIME_FORMAT`, in the time zone that `chrono_tz` knows by
/// the name `zone`, as `chrono` reads it; `None` where the zone is not known,
/// the text is not of that form, or the zone has no single such local time.
pub uninterp spec fn zoned_seconds(datetime: Seq<char>, zone: Seq<char>) -> Option<i64>;

/// Calls `chrono::TimeZone::datetime_from_str` on the zone that
/// `chrono_tz::Tz::from_str` gives for `zone`, and `chrono::DateTime::timestamp`
/// on the result. Claims only that the outcome is the one named
/// `zoned_seconds`: that it depends on the two texts alone.
#[verifier::external_body]
fn seconds_in_zone(datetime: &str, zone: &str) -> (r: Option<i64>)
    ensures
        r == zoned_seconds(datetime@, zone@),
{
    match zone.parse::<Tz>() {
        Ok(tz) => match tz.datetime_from_str(datetime, STATS_TIME_FORMAT) {
            Ok(moment) => Some(moment.timestamp()),
            Err(_) => None,
        },
        Err(_) => None,
    }
}

/// What a written time comes to: the seconds since the Unix epoch and the
/// name of the zone, or why it cannot be read.
pub open spec fn stats_time(text: Seq<char>) -> Result<(i64, Seq<char>), DecodeError> {
    match stats_time_parts(text) {
        None => Err(parts_fault(text)),
        Some((datetime, zone)) => match zoned_seconds(datetime, zone) {
            None => Err(DecodeError::InvalidDatetime),
            Some(seconds) => Ok((seconds, zone)),
        },
    }
}

/// Reads the date with time `datetime` as a local time of the zone named
/// `zone`.
pub fn read_zoned_time(datetime: &str, zone: String) -> (r: Result<StatsTimestamp, DecodeError>)
    ensures
        r == match zoned_seconds(datetime@, zone@) {
            Some(seconds) => Ok(StatsTimestamp { seconds, timezone: zone }),
            None => Err(DecodeError::InvalidDatetime),
        },
{
    match seconds_in_zone(datetime, zone.as_str()) {
        Some(seconds) => Ok(StatsTimestamp { seconds, timezone: zone }),
        None => Err(DecodeError::InvalidDatetime),
    }
}

/// Reads the time at which a statistics document was generated, written as
/// `date - time (zone)`.
pub fn parse_stats_timestamp(text: &str) -> (r: Result<StatsTimestamp, DecodeError>)
    ensures
        match r {
            Ok(stamp) => stats_time(text@) == Ok::<(i64, Seq<char>), DecodeError>(
                (stamp.seconds, stamp.timezone@),
            ),
            Err(e) => stats_time(text@) == Err::<(i64, Seq<char>), DecodeError>(e),
        },
{
    match split_stats_time(text) {
        Ok((datetime, zone)) => read_zoned_time(datetime.as_str(), zone),
        Err(e) => Err(e),
    }
}

/// Calls `std::str::from_utf8`. A body that is UTF-8 comes back as the text it
/// encodes. Any other is refused with what `std::str::Utf8Error::valid_up_to`
/// gives: a length up to which the body is UTF-8.
#[verifier::external_body]
fn text_of_bytes(body: &[u8]) -> (r: Result<String, usize>)
    ensures
        match r {
            Ok(text) => valid_utf8(body@) && text@ == decode_utf8(body@),
            Err(valid) => !valid_utf8(body@) && valid <= body@.len() && valid_utf8(
                body@.subrange(0, valid as int),
            ),
        },
{
    match std::str::from_utf8(body) {
        Ok(text) => Ok(text.to_owned()),
        Err(e) => Err(e.valid_up_to()),
    }
}

/// Reads the body of a response as text. A body that is not UTF-8 is refused,
/// with a length up to which it is.
pub fn decode_body(body: &[u8]) -> (r: Result<String, RequestError>)
    ensures
        match r {
            Ok(text) => valid_utf8(body@) && text@ == decode_utf8(body@),
            Err(e) => e matches RequestError::ParseUTF8(valid) && valid <= body@.len()
                && valid_utf8(body@.subrange(0, valid as int)) && !valid_utf8(body@),
        },
{
    match text_of_bytes(body) {
        Ok(text) => Ok(text),
        Err(valid) => Err(RequestError::ParseUTF8(valid)),
    }
}

} // verus!

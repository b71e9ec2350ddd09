//! Reading the fields of a track out of an audio file's tag.

use vstd::prelude::*;
use vstd::string::StrSliceExecFns;
use lofty::{ItemKey, Tag};
use super::errors::ImportError;

verus! {

/// Artist of a track whose tag names none.
pub const UNKNOWN_ARTIST: &'static str = "Unknown Artist";

/// Album of a track whose tag names none.
pub const UNKNOWN_ALBUM: &'static str = "Unkwon Album";

/// A tag as `lofty` read it from a file. Its items are reached through
/// `tag_texts` only.
#[verifier::external_type_specification]
#[verifier::external_body]
pub struct ExTag(lofty::Tag);

/// The fields of a tag that the library reads.
#[derive(Debug, Clone, Copy, PartialEq, Eq, Structural)]
pub enum TagField {
    Title,
    TrackArtist,
    AlbumTitle,
    AlbumArtist,
    Year,
    Lyrics,
    TrackNumber,
    Genre,
    Length,
}

/// The text that a tag holds for each field: a field is in the map when
/// the first item stored under its key is text, and is mapped to that text.
pub uninterp spec fn tag_texts(tag: Tag) -> Map<TagField, Seq<char>>;

/// `lofty::Tag::get_string` with the key that stands for `field`: the
/// text of the first item under that key, a copy of it, or `None` when the
/// tag has no item under the key or the first one is not text. The
/// contract says that this is what `tag_texts` holds for the field.
#[verifier::external_body]
fn tag_string(tag: &Tag, field: TagField) -> (text: Option<String>)
    ensures
        text_of_string(text) == text_at(tag_texts(*tag), field),
{
    let key = match field {
        TagField::Title => ItemKey::TrackTitle,
        TagField::TrackArtist => ItemKey::TrackArtist,
        TagField::AlbumTitle => ItemKey::AlbumTitle,
        TagField::AlbumArtist => ItemKey::AlbumArtist,
        TagField::Year => ItemKey::Year,
        TagField::Lyrics => ItemKey::Lyrics,
        TagField::TrackNumber => ItemKey::TrackNumber,
        TagField::Genre => ItemKey::Genre,
        TagField::Length => ItemKey::Length,
    };
    tag.get_string(&key).map(String::from)
}

/// The text of an optional string.
pub open spec fn text_of_string(value: Option<String>) -> Option<Seq<char>> {
    match value {
        Some(s) => Some(s@),
        None => None,
    }
}

/// The text stored for `field`, if there is any.
pub open spec fn text_at(texts: Map<TagField, Seq<char>>, field: TagField) -> Option<Seq<char>> {
    if texts.contains_key(field) {
        Some(texts[field])
    } else {
        None
    }
}

/// The text stored for `field`, or `fallback` where there is none.
pub open spec fn text_or(
    texts: Map<TagField, Seq<char>>,
    field: TagField,
    fallback: Seq<char>,
) -> Seq<char> {
    if texts.contains_key(field) {
        texts[field]
    } else {
        fallback
    }
}

/// Whether `c` is one of the ten decimal digits.
pub open spec fn is_digit(c: char) -> bool {
    '0' <= c <= '9'
}

/// Whether `s` consists of decimal digits only.
pub open spec fn all_digits(s: Seq<char>) -> bool {
    forall|i: int| 0 <= i < s.len() ==> is_digit(#[trigger] s[i])
}

/// The number that a sequence of decimal digits writes.
pub open spec fn digits_value(s: Seq<char>) -> nat
    decreases s.len(),
{
    if s.len() == 0 {
        0
    } else {
        digits_value(s.drop_last()) * 10 + (s.last() as nat - '0' as nat) as nat
    }
}

/// The digits of a decimal numeral: the text without its leading `+`, if
/// it has one.
pub open spec fn unsigned_part(s: Seq<char>) -> Seq<char> {
    if s.len() > 0 && s[0] == '+' {
        s.skip(1)
    } else {
        s
    }
}

/// The value of a decimal numeral that fits in 64 bits: an optional `+`
/// followed by at least one digit and nothing else. Any other text has no
/// value.
pub open spec fn decimal_value(s: Seq<char>) -> Option<u64> {
    let digits = unsigned_part(s);
    if digits.len() > 0 && all_digits(digits) && digits_value(digits) <= u64::MAX {
        Some(digits_value(digits) as u64)
    } else {
        None
    }
}

/// Whole seconds in a count of milliseconds written as text; 0 where the
/// text is no numeral.
pub open spec fn millis_text_to_secs(s: Seq<char>) -> u64 {
    match decimal_value(s) {
        Some(millis) => millis / 1000,
        None => 0,
    }
}

/// The duration in seconds that a tag's length field gives, 0 without one.
pub open spec fn duration_secs_of(texts: Map<TagField, Seq<char>>) -> u64 {
    match text_at(texts, TagField::Length) {
        Some(s) => millis_text_to_secs(s),
        None => 0,
    }
}

/// A prefix of a row of digits writes a number no larger than the row.
proof fn lemma_prefix_value(s: Seq<char>, k: int)
    requires
        0 <= k <= s.len(),
    ensures
        digits_value(s.take(k)) <= digits_value(s),
    decreases s.len() - k,
{
    if k == s.len() {
        assert(s.take(k) =~= s);
    } else {
        lemma_prefix_value(s, k + 1);
        assert(s.take(k + 1).drop_last() =~= s.take(k));
    }
}

/// Reads a decimal numeral of at most 64 bits.
pub fn parse_decimal(text: &str) -> (value: Option<u64>)
    ensures
        value == decimal_value(text@),
{
    let len = text.unicode_len();
    if len == 0 {
        return None;
    }
    let start: usize = if text.get_char(0) == '+' { 1 } else { 0 };
    if start == len {
        return None;
    }
    let ghost digits = unsigned_part(text@);
    assert(digits =~= text@.skip(start as int));
    let mut value: u64 = 0;
    let mut i: usize = start;
    while i < len
        invariant
            start <= i <= len,
            len == text@.len(),
            start <= 1,
            digits == text@.skip(start as int),
            digits == unsigned_part(text@),
            digits.len() > 0,
            all_digits(digits.take(i - start)),
            value == digits_value(digits.take(i - start)),
        decreases len - i,
    {
        let c = text.get_char(i);
        let ghost taken = digits.take(i - start + 1);
        assert(taken.drop_last() =~= digits.take(i - start));
        assert(taken.last() == c);
        if !(c >= '0' && c <= '9') {
            assert(!is_digit(digits[i - start]));
            return None;
        }
        let d: u64 = (c as u32 - '0' as u32) as u64;
        if value > (u64::MAX - d) / 10 {
            proof {
                assert(digits_value(taken) > u64::MAX);
                lemma_prefix_value(digits, i - start + 1);
            }
            return None;
        }
        value = value * 10 + d;
        i = i + 1;
        assert(all_digits(taken)) by {
            assert forall|j: int| 0 <= j < taken.len() implies is_digit(#[trigger] taken[j]) by {
                if j < taken.len() - 1 {
                    assert(taken[j] == digits.take(i - start - 1)[j]);
                }
            }
        }
    }
    assert(digits.take(i - start) =~= digits);
    Some(value)
}

/// The title of the track. A tag without one cannot be imported.
pub fn get_title(tag: &Tag) -> (result: Result<String, Box<ImportError>>)
    ensures
        text_at(tag_texts(*tag), TagField::Title) matches Some(title) ==> {
            &&& result matches Ok(text)
            &&& text@ == title
        },
        text_at(tag_texts(*tag), TagField::Title) is None ==> {
            &&& result matches Err(error)
            &&& *error == ImportError::MissingData
        },
{
    match tag_string(tag, TagField::Title) {
        Some(title) => Ok(title),
        None => Err(Box::new(ImportError::MissingData)),
    }
}

/// The artist of the track, `UNKNOWN_ARTIST` where the tag names none.
pub fn get_track_artist(tag: &Tag) -> (text: String)
    ensures
        text@ == text_or(tag_texts(*tag), TagField::TrackArtist, UNKNOWN_ARTIST@),
{
    match tag_string(tag, TagField::TrackArtist) {
        Some(artist) => artist,
        None => UNKNOWN_ARTIST.to_owned(),
    }
}

/// The album of the track, `UNKNOWN_ALBUM` where the tag names none.
pub fn get_album_title(tag: &Tag) -> (text: String)
    ensures
        text@ == text_or(tag_texts(*tag), TagField::AlbumTitle, UNKNOWN_ALBUM@),
{
    match tag_string(tag, TagField::AlbumTitle) {
        Some(album) => album,
        None => UNKNOWN_ALBUM.to_owned(),
    }
}

/// The artist of the album, `UNKNOWN_ARTIST` where the tag names none.
pub fn get_album_artist(tag: &Tag) -> (text: String)
    ensures
        text@ == text_or(tag_texts(*tag), TagField::AlbumArtist, UNKNOWN_ARTIST@),
{
    match tag_string(tag, TagField::AlbumArtist) {
        Some(artist) => artist,
        None => UNKNOWN_ARTIST.to_owned(),
    }
}

/// The year of the track as the tag writes it.
pub fn get_year(tag: &Tag) -> (text: Option<String>)
    ensures
        text_of_string(text) == text_at(tag_texts(*tag), TagField::Year),
{
    tag_string(tag, TagField::Year)
}

/// The lyrics of the track.
pub fn get_lyrics(tag: &Tag) -> (text: Option<String>)
    ensures
        text_of_string(text) == text_at(tag_texts(*tag), TagField::Lyrics),
{
    tag_string(tag, TagField::Lyrics)
}

/// The number of the track on its album as the tag writes it.
pub fn get_track_number(tag: &Tag) -> (text: Option<String>)
    ensures
        text_of_string(text) == text_at(tag_texts(*tag), TagField::TrackNumber),
{
    tag_string(tag, TagField::TrackNumber)
}

/// The genre of the track.
pub fn get_genre(tag: &Tag) -> (text: Option<String>)
    ensures
        text_of_string(text) == text_at(tag_texts(*tag), TagField::Genre),
{
    tag_string(tag, TagField::Genre)
}

/// The length of the track in whole seconds. The tag gives it in
/// milliseconds as text; without the field, or where the text is no
/// numeral, the length is 0.
pub fn get_total_dur_sec(tag: &Tag) -> (secs: u64)
    ensures
        secs == duration_secs_of(tag_texts(*tag)),
{
    match tag_string(tag, TagField::Length) {
        Some(millis) => match parse_decimal(millis.as_str()) {
            Some(value) => value / 1000,
            None => 0,
        },
        None => 0,
    }
}

} // verus!

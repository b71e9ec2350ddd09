//! One track of the library.

use vstd::prelude::*;
use lofty::Tag;
use super::errors::ImportError;
use super::tag;
use super::tag::TagField;

verus! {

/// What is known of one audio file. A track is made once, when its file is
/// imported, and only read afterwards.
#[derive(Debug, PartialEq, Eq)]
pub struct Song {
    pub title: String,
    pub album_title: String,
    pub track_artist: String,
    pub album_artist: String,
    pub genre: Option<String>,
    pub year: Option<String>,
    pub duration_secs: u64,
    pub play_count: u32,
    pub track_number: Option<String>,
    pub path: String,
}

/// A track as a mathematical value.
pub struct SongView {
    pub title: Seq<char>,
    pub album_title: Seq<char>,
    pub track_artist: Seq<char>,
    pub album_artist: Seq<char>,
    pub genre: Option<Seq<char>>,
    pub year: Option<Seq<char>>,
    pub duration_secs: nat,
    pub play_count: nat,
    pub track_number: Option<Seq<char>>,
    pub path: Seq<char>,
}

impl View for Song {
    type V = SongView;

    open spec fn view(&self) -> SongView {
        SongView {
            title: self.title@,
            album_title: self.album_title@,
            track_artist: self.track_artist@,
            album_artist: self.album_artist@,
            genre: tag::text_of_string(self.genre),
            year: tag::text_of_string(self.year),
            duration_secs: self.duration_secs as nat,
            play_count: self.play_count as nat,
            track_number: tag::text_of_string(self.track_number),
            path: self.path@,
        }
    }
}

impl Clone for Song {
    /// The copy equals the song field by field.
    fn clone(&self) -> (copy: Self)
        ensures
            copy == *self,
    {
        Song {
            title: self.title.clone(),
            album_title: self.album_title.clone(),
            track_artist: self.track_artist.clone(),
            album_artist: self.album_artist.clone(),
            genre: self.genre.clone(),
            year: self.year.clone(),
            duration_secs: self.duration_secs,
            play_count: self.play_count,
            track_number: self.track_number.clone(),
            path: self.path.clone(),
        }
    }
}

/// The track that `Song::new` makes of a title and a path.
pub open spec fn untagged_song(title: Seq<char>, path: Seq<char>) -> SongView {
    SongView {
        title,
        album_title: tag::UNKNOWN_ALBUM@,
        track_artist: tag::UNKNOWN_ARTIST@,
        album_artist: tag::UNKNOWN_ARTIST@,
        genre: None,
        year: None,
        duration_secs: 0,
        play_count: 0,
        track_number: None,
        path,
    }
}

/// The track that a tag with a title describes. Fields that the tag lacks
/// keep the value that `untagged_song` gives them.
pub open spec fn tagged_song(
    texts: Map<TagField, Seq<char>>,
    title: Seq<char>,
    path: Seq<char>,
) -> SongView {
    SongView {
        title,
        album_title: tag::text_or(texts, TagField::AlbumTitle, tag::UNKNOWN_ALBUM@),
        track_artist: tag::text_or(texts, TagField::TrackArtist, tag::UNKNOWN_ARTIST@),
        album_artist: tag::text_or(texts, TagField::AlbumArtist, tag::UNKNOWN_ARTIST@),
        genre: tag::text_at(texts, TagField::Genre),
        year: tag::text_at(texts, TagField::Year),
        duration_secs: tag::duration_secs_of(texts) as nat,
        play_count: 0,
        track_number: tag::text_at(texts, TagField::TrackNumber),
        path,
    }
}

impl Song {
    /// A track of which only the title and the path are known.
    pub fn new(title: String, path: String) -> (song: Self)
        ensures
            song@ == untagged_song(title@, path@),
            song.title == title,
            song.path == path,
    {
        Song {
            title,
            album_title: tag::UNKNOWN_ALBUM.to_owned(),
            track_artist: tag::UNKNOWN_ARTIST.to_owned(),
            album_artist: tag::UNKNOWN_ARTIST.to_owned(),
            genre: None,
            year: None,
            duration_secs: 0,
            play_count: 0,
            track_number: None,
            path,
        }
    }

    /// The track that `tag` describes, for the file at `path`. A tag
    /// without a title gives `MissingData`; every other field is optional.
    pub fn from_tag(tag: &Tag, path: String) -> (result: Result<Self, Box<ImportError>>)
        ensures
            tag::text_at(tag::tag_texts(*tag), TagField::Title) matches Some(title) ==> {
                &&& result matches Ok(song)
                &&& song@ == tagged_song(tag::tag_texts(*tag), title, path@)
            },
            tag::text_at(tag::tag_texts(*tag), TagField::Title) is None ==> {
                &&& result matches Err(error)
                &&& *error == ImportError::MissingData
            },
    {
        let title = match tag::get_title(tag) {
            Ok(title) => title,
            Err(err) => return Err(err),
        };
        let mut s = Self::new(title, path);
        s.track_artist = tag::get_track_artist(tag);
        s.album_title = tag::get_album_title(tag);
        s.album_artist = tag::get_album_artist(tag);
        s.year = tag::get_year(tag);
        s.track_number = tag::get_track_number(tag);
        s.genre = tag::get_genre(tag);
        s.duration_secs = tag::get_total_dur_sec(tag);
        Ok(s)
    }
}

} // verus!

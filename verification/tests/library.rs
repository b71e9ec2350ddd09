use lofty::{ItemKey, ItemValue, Tag, TagItem, TagType};
use splay::library::errors::ImportError;
use splay::library::song::Song;
use splay::library::tag::{
    get_album_artist, get_album_title, get_genre, get_lyrics, get_title, get_total_dur_sec,
    get_track_artist, get_track_number, get_year, parse_decimal, UNKNOWN_ALBUM, UNKNOWN_ARTIST,
};
use splay::library::{DirEntry, FileProbe, Library};

fn tag_with(items: &[(ItemKey, &str)]) -> Tag {
    let mut tag = Tag::new(TagType::ID3v2);
    for (key, text) in items {
        tag.push_item_unchecked(TagItem::new(key.clone(), ItemValue::Text(text.to_string())));
    }
    tag
}

fn full_tag() -> Tag {
    tag_with(&[
        (ItemKey::TrackTitle, "Blue in Green"),
        (ItemKey::TrackArtist, "Miles Davis"),
        (ItemKey::AlbumTitle, "Kind of Blue"),
        (ItemKey::AlbumArtist, "Miles Davis Sextet"),
        (ItemKey::Year, "1959"),
        (ItemKey::Lyrics, "instrumental"),
        (ItemKey::TrackNumber, "3"),
        (ItemKey::Genre, "Jazz"),
        (ItemKey::Length, "337000"),
    ])
}

fn tagged(title: &str, path: &str) -> FileProbe {
    FileProbe::Tagged {
        path: path.to_string(),
        tag: tag_with(&[(ItemKey::TrackTitle, title)]),
    }
}

fn titles(library: &Library) -> Vec<String> {
    library.songs.iter().map(|s| s.title.clone()).collect()
}

#[test]
fn the_fallback_names_are_fixed() {
    assert_eq!(UNKNOWN_ARTIST, "Unknown Artist");
    assert_eq!(UNKNOWN_ALBUM, "Unkwon Album");
}

#[test]
fn an_error_says_what_went_wrong() {
    assert_eq!(ImportError::MissingData.message(), "Could not gather parts of metadata.");
    assert_eq!(ImportError::FileNotFound.message(), "file not found");
    assert_eq!(ImportError::Parsing.message(), "Parsing error");
}

#[test]
fn a_new_song_knows_its_title_and_path_only() {
    let song = Song::new("Naima".to_string(), "/music/naima.flac".to_string());
    assert_eq!(
        song,
        Song {
            title: "Naima".to_string(),
            album_title: "Unkwon Album".to_string(),
            track_artist: "Unknown Artist".to_string(),
            album_artist: "Unknown Artist".to_string(),
            genre: None,
            year: None,
            duration_secs: 0,
            play_count: 0,
            track_number: None,
            path: "/music/naima.flac".to_string(),
        }
    );
}

#[test]
fn a_copy_of_a_song_equals_it() {
    let song = Song::from_tag(&full_tag(), "/a".to_string()).unwrap();
    assert_eq!(song.clone(), song);
}

#[test]
fn each_getter_reads_its_own_field() {
    let tag = full_tag();
    assert_eq!(get_title(&tag).unwrap(), "Blue in Green");
    assert_eq!(get_track_artist(&tag), "Miles Davis");
    assert_eq!(get_album_title(&tag), "Kind of Blue");
    assert_eq!(get_album_artist(&tag), "Miles Davis Sextet");
    assert_eq!(get_year(&tag), Some("1959".to_string()));
    assert_eq!(get_lyrics(&tag), Some("instrumental".to_string()));
    assert_eq!(get_track_number(&tag), Some("3".to_string()));
    assert_eq!(get_genre(&tag), Some("Jazz".to_string()));
    assert_eq!(get_total_dur_sec(&tag), 337);
}

#[test]
fn an_empty_tag_gives_the_fallbacks() {
    let tag = Tag::new(TagType::ID3v2);
    assert_eq!(*get_title(&tag).unwrap_err(), ImportError::MissingData);
    assert_eq!(get_track_artist(&tag), "Unknown Artist");
    assert_eq!(get_album_title(&tag), "Unkwon Album");
    assert_eq!(get_album_artist(&tag), "Unknown Artist");
    assert_eq!(get_year(&tag), None);
    assert_eq!(get_lyrics(&tag), None);
    assert_eq!(get_track_number(&tag), None);
    assert_eq!(get_genre(&tag), None);
    assert_eq!(get_total_dur_sec(&tag), 0);
}

#[test]
fn the_first_item_under_a_key_counts() {
    let tag = tag_with(&[(ItemKey::TrackTitle, "first"), (ItemKey::TrackTitle, "second")]);
    assert_eq!(get_title(&tag).unwrap(), "first");
}

#[test]
fn a_first_item_that_is_not_text_hides_the_field() {
    let mut tag = Tag::new(TagType::ID3v2);
    tag.push_item_unchecked(TagItem::new(ItemKey::Genre, ItemValue::Binary(vec![1, 2])));
    tag.push_item_unchecked(TagItem::new(ItemKey::Genre, ItemValue::Text("Jazz".to_string())));
    assert_eq!(get_genre(&tag), None);
}

#[test]
fn the_length_is_read_in_milliseconds_and_given_in_whole_seconds() {
    for (text, secs) in [
        ("0", 0),
        ("999", 0),
        ("1000", 1),
        ("1999", 1),
        ("185000", 185),
        ("+2500", 2),
        ("0007000", 7),
        ("18446744073709551615", 18446744073709551),
    ] {
        assert_eq!(get_total_dur_sec(&tag_with(&[(ItemKey::Length, text)])), secs);
    }
}

#[test]
fn a_length_that_is_no_number_counts_as_zero() {
    for text in [
        "",
        "+",
        "-",
        "-5000",
        "abc",
        "12a",
        " 5000",
        "5000 ",
        "5.5",
        "++5",
        "1_000",
        "٣٠٠٠",
        "18446744073709551616",
        "99999999999999999999999",
    ] {
        assert_eq!(get_total_dur_sec(&tag_with(&[(ItemKey::Length, text)])), 0);
    }
}

#[test]
fn parse_decimal_agrees_with_the_standard_parser() {
    for text in [
        "0",
        "7",
        "+7",
        "42",
        "000",
        "18446744073709551615",
        "18446744073709551616",
        "18446744073709551625",
        "184467440737095516150",
        "",
        "+",
        "-1",
        "1-",
        "+-1",
        "1+",
        "x",
        "4 2",
        "４２",
        "1e3",
    ] {
        assert_eq!(parse_decimal(text), text.parse::<u64>().ok());
    }
}

#[test]
fn parse_decimal_gives_the_value() {
    assert_eq!(parse_decimal("250"), Some(250));
    assert_eq!(parse_decimal("+18446744073709551615"), Some(u64::MAX));
    assert_eq!(parse_decimal("18446744073709551616"), None);
    assert_eq!(parse_decimal("a250"), None);
}

#[test]
fn a_song_from_a_full_tag_has_every_field() {
    let song = Song::from_tag(&full_tag(), "/music/kob/03.flac".to_string()).unwrap();
    assert_eq!(
        song,
        Song {
            title: "Blue in Green".to_string(),
            album_title: "Kind of Blue".to_string(),
            track_artist: "Miles Davis".to_string(),
            album_artist: "Miles Davis Sextet".to_string(),
            genre: Some("Jazz".to_string()),
            year: Some("1959".to_string()),
            duration_secs: 337,
            play_count: 0,
            track_number: Some("3".to_string()),
            path: "/music/kob/03.flac".to_string(),
        }
    );
}

#[test]
fn a_song_from_a_tag_with_a_title_only_has_the_fallbacks() {
    let tag = tag_with(&[(ItemKey::TrackTitle, "Naima")]);
    assert_eq!(
        Song::from_tag(&tag, "/n".to_string()).unwrap(),
        Song::new("Naima".to_string(), "/n".to_string())
    );
}

#[test]
fn a_tag_without_a_title_gives_no_song() {
    let tag = tag_with(&[(ItemKey::TrackArtist, "Miles Davis"), (ItemKey::Length, "1000")]);
    assert_eq!(
        *Song::from_tag(&tag, "/n".to_string()).unwrap_err(),
        ImportError::MissingData
    );
}

#[test]
fn a_tagged_file_becomes_the_last_track() {
    let mut library = Library::new();
    assert_eq!(library.import_file(&tagged("one", "/1")), Ok(()));
    assert_eq!(
        library.import_file(&FileProbe::Tagged { path: "/2".to_string(), tag: full_tag() }),
        Ok(())
    );
    assert_eq!(library.songs.len(), 2);
    assert_eq!(library.songs[0], Song::new("one".to_string(), "/1".to_string()));
    assert_eq!(library.songs[1], Song::from_tag(&full_tag(), "/2".to_string()).unwrap());
}

#[test]
fn a_file_that_cannot_be_imported_leaves_the_library_alone() {
    let mut library = Library::new();
    library.import_file(&tagged("one", "/1")).unwrap();
    let before = library.songs.clone();
    assert_eq!(
        library.import_file(&FileProbe::Missing),
        Err(Box::new(ImportError::FileNotFound))
    );
    assert_eq!(
        library.import_file(&FileProbe::NotUnicode),
        Err(Box::new(ImportError::Parsing))
    );
    assert_eq!(
        library.import_file(&FileProbe::Unreadable),
        Err(Box::new(ImportError::Parsing))
    );
    assert_eq!(
        library.import_file(&FileProbe::Untagged),
        Err(Box::new(ImportError::Parsing))
    );
    assert_eq!(
        library.import_file(&FileProbe::Tagged {
            path: "/x".to_string(),
            tag: tag_with(&[(ItemKey::Genre, "Jazz")]),
        }),
        Err(Box::new(ImportError::MissingData))
    );
    assert_eq!(library.songs, before);
}

#[test]
fn an_empty_directory_imports_nothing() {
    let mut library = Library::new();
    assert_eq!(library.import_dir(&vec![]), Ok(()));
    assert!(library.songs.is_empty());
}

#[test]
fn a_directory_is_imported_in_the_order_of_its_listing() {
    let mut library = Library::new();
    library.import_file(&tagged("before", "/b")).unwrap();
    let entries = vec![
        DirEntry::File(tagged("a", "/d/a")),
        DirEntry::File(FileProbe::Unreadable),
        DirEntry::Dir(vec![
            DirEntry::File(tagged("b", "/d/s/b")),
            DirEntry::Dir(vec![DirEntry::File(tagged("c", "/d/s/t/c"))]),
            DirEntry::File(FileProbe::Untagged),
            DirEntry::File(tagged("d", "/d/s/d")),
        ]),
        DirEntry::Dir(vec![]),
        DirEntry::File(tagged("e", "/d/e")),
    ];
    assert_eq!(library.import_dir(&entries), Ok(()));
    assert_eq!(titles(&library), vec!["before", "a", "b", "c", "d", "e"]);
    assert_eq!(library.songs[3].path, "/d/s/t/c");
}

#[test]
fn a_failed_entry_at_the_top_ends_the_import() {
    let mut library = Library::new();
    let entries = vec![
        DirEntry::File(tagged("a", "/a")),
        DirEntry::File(FileProbe::Missing),
        DirEntry::Failed,
        DirEntry::File(tagged("never", "/never")),
        DirEntry::Failed,
    ];
    assert_eq!(library.import_dir(&entries), Err(2));
    assert_eq!(titles(&library), vec!["a"]);
}

#[test]
fn a_failed_first_entry_imports_nothing() {
    let mut library = Library::new();
    let entries = vec![DirEntry::Failed, DirEntry::File(tagged("never", "/never"))];
    assert_eq!(library.import_dir(&entries), Err(0));
    assert!(library.songs.is_empty());
}

#[test]
fn a_failed_entry_in_a_subdirectory_ends_that_subdirectory_only() {
    let mut library = Library::new();
    let entries = vec![
        DirEntry::File(tagged("a", "/a")),
        DirEntry::Dir(vec![
            DirEntry::File(tagged("b", "/s/b")),
            DirEntry::Dir(vec![DirEntry::Failed, DirEntry::File(tagged("x", "/s/t/x"))]),
            DirEntry::File(tagged("c", "/s/c")),
            DirEntry::Failed,
            DirEntry::File(tagged("y", "/s/y")),
        ]),
        DirEntry::File(tagged("d", "/d")),
    ];
    assert_eq!(library.import_dir(&entries), Ok(()));
    assert_eq!(titles(&library), vec!["a", "b", "c", "d"]);
}

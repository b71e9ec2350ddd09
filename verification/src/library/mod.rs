//! The track collection and how files enter it.
//!
//! Reading a directory and reading a file are the importer's business.
//! It describes what it found, as a `FileProbe` for a file and a row of
//! `DirEntry` for a directory, and the library decides what becomes a
//! track and which error a file ends in.

pub mod errors;
pub mod search;
pub mod song;
pub mod tag;

use vstd::prelude::*;
use lofty::Tag;
use errors::ImportError;
use song::{tagged_song, Song, SongView};
use tag::{tag_texts, text_at, TagField};

verus! {

/// The tracks that the player knows, in the order in which they were
/// imported.
#[derive(Debug, PartialEq, Eq)]
pub struct Library {
    pub songs: Vec<Song>,
}

/// What the importer found at the path of a file.
pub enum FileProbe {
    /// Nothing exists at the path.
    Missing,
    /// The full path of the file is not text.
    NotUnicode,
    /// The file could not be read as audio.
    Unreadable,
    /// The file has no tag of the kind its format usually carries.
    Untagged,
    /// The file's tag, and the full path of the file.
    Tagged { path: String, tag: Tag },
}

/// One entry of a directory as the importer listed it.
pub enum DirEntry {
    /// The entry could not be read. The listing of its directory breaks
    /// off here.
    Failed,
    /// A directory, with its own entries.
    Dir(Vec<DirEntry>),
    /// A file.
    File(FileProbe),
}

/// The track that a file gives, or the error it ends in.
pub open spec fn probed_song(probe: FileProbe) -> Result<SongView, ImportError> {
    match probe {
        FileProbe::Missing => Err(ImportError::FileNotFound),
        FileProbe::NotUnicode => Err(ImportError::Parsing),
        FileProbe::Unreadable => Err(ImportError::Parsing),
        FileProbe::Untagged => Err(ImportError::Parsing),
        FileProbe::Tagged { path, tag } => match text_at(tag_texts(tag), TagField::Title) {
            Some(title) => Ok(tagged_song(tag_texts(tag), title, path@)),
            None => Err(ImportError::MissingData),
        },
    }
}

/// How many entries of a listing were read: those before the first one
/// that failed.
pub open spec fn listed(entries: Seq<DirEntry>) -> nat
    decreases entries.len(),
{
    if entries.len() == 0 {
        0
    } else if entries[0] is Failed {
        0
    } else {
        1 + listed(entries.drop_first())
    }
}

/// The tracks that one entry gives: a file its track, if it has one, and
/// a directory the tracks of its entries as far as they were read.
pub open spec fn imported(entry: DirEntry) -> Seq<SongView>
    decreases entry, 0nat,
{
    match entry {
        DirEntry::Failed => Seq::empty(),
        DirEntry::File(probe) => match probed_song(probe) {
            Ok(song) => seq![song],
            Err(_) => Seq::empty(),
        },
        DirEntry::Dir(children) => imported_upto(children, listed(children@)),
    }
}

/// The tracks that the first `n` entries of a listing give, in order.
pub open spec fn imported_upto(entries: Vec<DirEntry>, n: nat) -> Seq<SongView>
    decreases entries, n,
{
    if n == 0 || n > entries.len() {
        Seq::empty()
    } else {
        imported_upto(entries, (n - 1) as nat) + imported(entries[n - 1])
    }
}

/// A listing whose first failed entry is the one at `n`, or that has `n`
/// entries and none that failed, was read up to `n`.
proof fn lemma_listed(entries: Seq<DirEntry>, n: int)
    requires
        0 <= n <= entries.len(),
        forall|j: int| 0 <= j < n ==> !(#[trigger] entries[j] is Failed),
        n < entries.len() ==> entries[n] is Failed,
    ensures
        listed(entries) == n,
    decreases n,
{
    if n > 0 {
        let rest = entries.drop_first();
        assert forall|j: int| 0 <= j < n - 1 implies !(#[trigger] rest[j] is Failed) by {
            assert(rest[j] == entries[j + 1]);
        }
        if n < entries.len() {
            assert(rest[n - 1] == entries[n]);
        }
        lemma_listed(rest, n - 1);
    }
}

impl View for Library {
    type V = Seq<SongView>;

    open spec fn view(&self) -> Seq<SongView> {
        self.songs@.map_values(|song: Song| song@)
    }
}

impl Default for Library {
    fn default() -> (library: Self)
        ensures
            library.songs@ == Seq::<Song>::empty(),
    {
        Library { songs: Vec::new() }
    }
}

impl Library {
    /// A library without tracks.
    pub fn new() -> (library: Library)
        ensures
            library.songs@ == Seq::<Song>::empty(),
    {
        Library { songs: Vec::new() }
    }

    /// Takes the file that `probe` describes into the library. A file
    /// with a tag that has a title becomes a track, at the end of the
    /// library. Any other file leaves the library as it is and ends in
    /// an error: `FileNotFound` where nothing is at the path,
    /// `MissingData` where the tag has no title, `Parsing` for the rest.
    pub fn import_file(&mut self, probe: &FileProbe) -> (result: Result<(), Box<ImportError>>)
        ensures
            probed_song(*probe) matches Ok(song) ==> result is Ok && final(self)@ == old(self)@.push(song),
            probed_song(*probe) matches Err(error) ==> {
                &&& result matches Err(reported)
                &&& *reported == error
                &&& final(self).songs@ == old(self).songs@
            },
            final(self)@ == old(self)@ + imported(DirEntry::File(*probe)),
    {
        let ghost before = self.songs@;
        match probe {
            FileProbe::Missing => {
                assert(self@ + Seq::<SongView>::empty() =~= self@);
                return Err(Box::new(ImportError::FileNotFound));
            },
            FileProbe::NotUnicode => {
                assert(self@ + Seq::<SongView>::empty() =~= self@);
                return Err(Box::new(ImportError::Parsing));
            },
            FileProbe::Unreadable => {
                assert(self@ + Seq::<SongView>::empty() =~= self@);
                return Err(Box::new(ImportError::Parsing));
            },
            FileProbe::Untagged => {
                assert(self@ + Seq::<SongView>::empty() =~= self@);
                return Err(Box::new(ImportError::Parsing));
            },
            FileProbe::Tagged { path, tag } => {
                let song = match Song::from_tag(tag, path.clone()) {
                    Ok(song) => song,
                    Err(err) => {
                        assert(self@ + Seq::<SongView>::empty() =~= self@);
                        return Err(err);
                    },
                };
                self.songs.push(song);
                assert(self@ =~= before.map_values(|song: Song| song@).push(song@));
                assert(self@ =~= before.map_values(|song: Song| song@) + seq![song@]);
            },
        }
        Ok(())
    }

    /// Takes the files of a directory into the library, those of its
    /// subdirectories included, in the order of the listing. A file that
    /// cannot be imported is passed over. An entry that failed ends the
    /// listing of its directory: in a subdirectory the import goes on
    /// with the entry after that subdirectory, and at the top it ends in
    /// an error that gives the place of the entry.
    pub fn import_dir(&mut self, entries: &Vec<DirEntry>) -> (result: Result<(), usize>)
        ensures
            final(self)@ == old(self)@ + imported_upto(*entries, listed(entries@)),
            listed(entries@) == entries.len() ==> result is Ok,
            listed(entries@) < entries.len() ==> result == Err::<(), usize>(
                listed(entries@) as usize,
            ),
    {
        match self._import_dir(entries) {
            Some(failed) => Err(failed),
            None => Ok(()),
        }
    }

    /// Imports a listing and says where it broke off, if it did.
    fn _import_dir(&mut self, entries: &Vec<DirEntry>) -> (failed: Option<usize>)
        ensures
            final(self)@ == old(self)@ + imported_upto(*entries, listed(entries@)),
            listed(entries@) <= entries.len(),
            listed(entries@) == entries.len() ==> failed is None,
            listed(entries@) < entries.len() ==> failed == Some(listed(entries@) as usize),
        decreases entries,
    {
        let mut i: usize = 0;
        assert(self@ + Seq::<SongView>::empty() =~= self@);
        while i < entries.len()
            invariant
                i <= entries.len(),
                forall|j: int| 0 <= j < i ==> !(#[trigger] entries@[j] is Failed),
                self@ == old(self)@ + imported_upto(*entries, i as nat),
            decreases entries.len() - i,
        {
            let ghost sofar = self@;
            match &entries[i] {
                DirEntry::Failed => {
                    proof {
                        lemma_listed(entries@, i as int);
                    }
                    return Some(i);
                },
                DirEntry::Dir(children) => {
                    let _ = self._import_dir(children);
                },
                DirEntry::File(probe) => {
                    let _ = self.import_file(probe);
                },
            }
            assert(self@ == sofar + imported(entries[i as int]));
            assert(self@ =~= old(self)@ + imported_upto(*entries, (i + 1) as nat));
            i = i + 1;
        }
        proof {
            lemma_listed(entries@, i as int);
        }
        None
    }
}

} // verus!

//! The search index over the library. The index is not built yet: it
//! takes words and finds nothing.

use vstd::prelude::*;

verus! {

/// The words of the library, for searching.
pub struct SearchDB {
    pub path_to_db: String,
    pub words: Vec<String>,
}

impl SearchDB {
    /// An index without words.
    pub fn new() -> (db: SearchDB)
        ensures
            db.path_to_db@ == Seq::<char>::empty(),
            db.words@ == Seq::<String>::empty(),
    {
        SearchDB { path_to_db: String::new(), words: Vec::new() }
    }

    /// The titles, albums and artists that match `input`: none of any.
    pub fn find_matches(self, input: String) -> (found: (Vec<String>, Vec<String>, Vec<String>))
        ensures
            found.0@ == Seq::<String>::empty(),
            found.1@ == Seq::<String>::empty(),
            found.2@ == Seq::<String>::empty(),
    {
        return (Vec::new(), Vec::new(), Vec::new());
    }

    /// Takes a word into the index. This always succeeds.
    pub fn insert(self, input: String) -> (result: Result<(), String>)
        ensures
            result is Ok,
    {
        return Ok(());
    }
}

} // verus!

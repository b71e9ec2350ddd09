//! Why a file could not be taken into the library.

use vstd::prelude::*;

verus! {

/// The ways in which importing one file fails.
#[derive(Debug, Clone, Copy, PartialEq, Eq, Structural)]
pub enum ImportError {
    /// The file carries a tag, but the tag has no title.
    MissingData,
    /// Nothing exists at the path.
    FileNotFound,
    /// The path or the file's contents could not be read as expected.
    Parsing,
}

impl ImportError {
    /// The text shown for this error.
    pub open spec fn message_text(self) -> Seq<char> {
        match self {
            ImportError::MissingData => "Could not gather parts of metadata."@,
            ImportError::FileNotFound => "file not found"@,
            ImportError::Parsing => "Parsing error"@,
        }
    }

    /// Renders the error as the text that is shown and logged for it.
    pub fn message(&self) -> (text: String)
        ensures
            text@ == self.message_text(),
    {
        match self {
            ImportError::MissingData => "Could not gather parts of metadata.".to_owned(),
            ImportError::FileNotFound => "file not found".to_owned(),
            ImportError::Parsing => "Parsing error".to_owned(),
        }
    }
}

} // verus!

//! The error taxonomy of archive work: container failures are fatal;
//! a name-decode failure during extraction aborts the run.
use vstd::prelude::*;

verus! {

/// A fatal failure while reading or extracting an archive.
#[derive(Debug)]
pub enum UnzipError {
    /// The archive is missing, unreadable, or structurally invalid,
    /// or an entry could not be read; carries the container's own
    /// description.
    Container { text: String },
    /// The raw name bytes of the entry at `index` are not valid under
    /// the chosen encoding.
    NameDecode { index: usize },
}

impl UnzipError {
    /// A human-readable description of the failure.
    pub fn message(&self) -> (r: String)
        ensures
            self matches UnzipError::Container { text } ==> r@ == text@,
            self is NameDecode ==> r@ == "could not decode a file name with the chosen encoding"@,
    {
        match self {
            UnzipError::Container { text } => text.clone(),
            UnzipError::NameDecode { index: _ } => {
                "could not decode a file name with the chosen encoding".to_owned()
            },
        }
    }
}

} // verus!

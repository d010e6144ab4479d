use vstd::prelude::*;

verus! {

/// Why a repository operation failed. Every failure of the storage engine is
/// carried as its diagnostic text; a lookup of an id with no row is reported
/// apart, so callers can tell the two cases.
#[derive(Debug, Clone, PartialEq)]
pub enum StoreError {
    /// No row has the requested id.
    NotFound,
    /// The storage engine failed; the text is its diagnostic.
    Storage(String),
}

impl StoreError {
    /// The error as one line of text, as the command layer reports it.
    pub fn message(&self) -> (r: String)
        ensures
            self is Storage ==> r@ == self->Storage_0@,
            self is NotFound ==> r@ == "record not found"@,
    {
        match self {
            StoreError::NotFound => String::from_str("record not found"),
            StoreError::Storage(s) => s.clone(),
        }
    }
}

} // verus!

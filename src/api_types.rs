use vstd::prelude::*;

verus! {

/// An API error, as served to clients.
#[derive(Debug, Clone, PartialEq, Eq)]
pub struct ErrorMessage {
    pub code: u16,
    pub message: String,
    pub stacktraces: Vec<String>,
}

/// An API error that lists which of the submitted items failed.
#[derive(Debug, Clone, PartialEq, Eq)]
pub struct IndexedErrorMessage {
    pub code: u16,
    pub message: String,
    pub failures: Vec<Failure>,
}

/// The failure of one submitted item, by its position.
#[derive(Debug, Clone, PartialEq, Eq)]
pub struct Failure {
    pub index: u64,
    pub message: String,
}

impl Failure {
    pub fn new(index: usize, message: String) -> (r: Self)
        ensures
            r.index == index as u64,
            r.message@ == message@,
    {
        Failure { index: index as u64, message }
    }
}

} // verus!

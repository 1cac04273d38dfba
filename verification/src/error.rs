use vstd::prelude::*;

verus! {

/// What can go wrong. None of these ends the process: the caller decides
/// what to tell its client.
#[derive(Clone, Copy, Debug, PartialEq, Eq, Structural)]
pub enum CoreError {
    /// The source could not be reached, or did not answer in time.
    UpstreamFetch,
    /// The source answered, but not in the expected shape.
    UpstreamDecode,
    /// No validator has the identifier that was asked for.
    NotFound,
}

impl CoreError {
    /// A short description of the error.
    pub fn message(&self) -> (text: String)
        ensures
            text@ == match *self {
                CoreError::UpstreamFetch => "failed to fetch validator data"@,
                CoreError::UpstreamDecode => "failed to decode validator data"@,
                CoreError::NotFound => "validator not found"@,
            },
    {
        match self {
            CoreError::UpstreamFetch => "failed to fetch validator data".to_owned(),
            CoreError::UpstreamDecode => "failed to decode validator data".to_owned(),
            CoreError::NotFound => "validator not found".to_owned(),
        }
    }
}

} // verus!

//! The failures that the storage, codec and authentication layers report.

use vstd::prelude::*;

verus! {

/// Why an operation did not produce its result.
#[derive(Clone, Copy, Debug, PartialEq, Eq, Structural)]
pub enum Error {
    /// The entity, session or user asked for is not in the table.
    NotFound,
    /// A stored record lacks a required attribute, or one of its typed
    /// attributes does not parse. This is data corruption, never coerced.
    Decode,
    /// The caller is not authenticated, or may not use this path anonymously.
    Unauthorized,
    /// The caller is authenticated but its role does not allow the operation.
    Forbidden,
    /// The backing store or an external data source failed.
    Upstream,
}

impl Error {
    /// The HTTP status that stands for this failure.
    pub open spec fn spec_status(self) -> u16 {
        match self {
            Error::NotFound => 404,
            Error::Decode => 500,
            Error::Unauthorized => 401,
            Error::Forbidden => 403,
            Error::Upstream => 500,
        }
    }

    /// The HTTP status that stands for this failure: a refusal is 401 or
    /// 403, a missing entity 404, and everything else a plain server error.
    #[verifier::when_used_as_spec(spec_status)]
    pub fn status(self) -> (code: u16)
        ensures
            code == self.spec_status(),
    {
        match self {
            Error::NotFound => 404,
            Error::Decode => 500,
            Error::Unauthorized => 401,
            Error::Forbidden => 403,
            Error::Upstream => 500,
        }
    }

    /// A short text for this failure. It says what kind of failure it is
    /// and nothing of its cause: a refusal reads the same for a missing
    /// credential, an unknown session and a user that is gone.
    pub fn to_string(self) -> (text: String)
        ensures
            text@ == match self {
                Error::NotFound => "NOT FOUND"@,
                Error::Decode => "MALFORMED RECORD"@,
                Error::Unauthorized => "UNAUTHORIZED"@,
                Error::Forbidden => "FORBIDDEN"@,
                Error::Upstream => "UPSTREAM FAILURE"@,
            },
    {
        match self {
            Error::NotFound => "NOT FOUND".to_owned(),
            Error::Decode => "MALFORMED RECORD".to_owned(),
            Error::Unauthorized => "UNAUTHORIZED".to_owned(),
            Error::Forbidden => "FORBIDDEN".to_owned(),
            Error::Upstream => "UPSTREAM FAILURE".to_owned(),
        }
    }
}

} // verus!

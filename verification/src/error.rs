//! Error taxonomy of the library.
//!
//! Transport and schema failures are produced by the surrounding program when
//! an upstream fetch or decode fails; the remaining variants are produced by
//! the library itself (a user with no matching roster during a load, an
//! unresolved league selector, and configuration rejections).

use vstd::prelude::*;
use vstd::string::StringExecFns;

verus! {

/// One error category for every failure the core can surface.
#[derive(Debug, PartialEq, Eq)]
pub enum FflError {
    /// The upstream endpoint could not be reached or answered with a failure;
    /// the payload describes the request that failed.
    Transport(String),
    /// The upstream answer did not decode into the expected shape.
    Schema(String),
    /// A user record had no matching roster entry during a league load; the
    /// payload is the owner identifier that could not be joined.
    MissingRoster(String),
    /// A command that needs a league resolved to no configured client.
    UnresolvedLeague,
    /// A client was built from a configuration whose provider type does not
    /// match the adapter it was paired with.
    MismatchedProvider,
    /// Two configured leagues share a short name; the payload is that name.
    DuplicateShortName(String),
    /// Two configured leagues share a chat-grouping identifier.
    DuplicateCategoryId(String),
}

impl FflError {
    /// The user-visible description of the error.
    pub fn message(&self) -> (r: String)
        ensures
            r@ == match *self {
                FflError::Transport(ref d) => "upstream request failed: "@ + d@,
                FflError::Schema(ref d) => "unexpected upstream data: "@ + d@,
                FflError::MissingRoster(ref u) => "no roster found for user "@ + u@,
                FflError::UnresolvedLeague => "no matching league"@,
                FflError::MismatchedProvider => "league config does not match its adapter"@,
                FflError::DuplicateShortName(ref n) => "duplicate league short name: "@ + n@,
                FflError::DuplicateCategoryId(ref c) => "duplicate category id: "@ + c@,
            },
    {
        match self {
            FflError::Transport(d) => String::from_str("upstream request failed: ").concat(
                d.as_str(),
            ),
            FflError::Schema(d) => String::from_str("unexpected upstream data: ").concat(
                d.as_str(),
            ),
            FflError::MissingRoster(u) => String::from_str("no roster found for user ").concat(
                u.as_str(),
            ),
            FflError::UnresolvedLeague => String::from_str("no matching league"),
            FflError::MismatchedProvider => String::from_str(
                "league config does not match its adapter",
            ),
            FflError::DuplicateShortName(n) => String::from_str(
                "duplicate league short name: ",
            ).concat(n.as_str()),
            FflError::DuplicateCategoryId(c) => String::from_str(
                "duplicate category id: ",
            ).concat(c.as_str()),
        }
    }
}

} // verus!

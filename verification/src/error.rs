//! The error taxonomy of a remote call.
//!
//! A call fails in exactly one of two ways: the request never received a
//! classifiable response (`Transmission`), or a response arrived whose status
//! was not `200 OK` (`ServerStatus`).  Both carry a caller-facing text and
//! offer a uniform displayable message.

use vstd::prelude::*;
use vstd::string::StringExecFns;

verus! {

/// Why a remote call failed.
#[derive(Debug, PartialEq, Eq)]
pub enum Errors {
    /// The request never received a classifiable response (network, DNS,
    /// TLS or timeout failure).  Carries a static explanatory message; the
    /// low-level cause is deliberately discarded.
    Transmission(String),
    /// A response arrived, but its status was not `200 OK`.  Carries the
    /// status line as text.
    ServerStatus(String),
}

impl Errors {
    /// The displayable message of this error.
    pub open spec fn message_view(self) -> Seq<char> {
        match self {
            Errors::Transmission(note) => "[Request Error]:🙀 "@ + note@,
            Errors::ServerStatus(status) => "[Request Error]:🙀 The server returned an error. Status: "@
                + status@ + " 🛑 ."@,
        }
    }

    /// Renders the error as one human-readable line for an end user.
    pub fn message(&self) -> (r: String)
        ensures
            r@ == self.message_view(),
    {
        match self {
            Errors::Transmission(note) => {
                let mut s = String::from_str("[Request Error]:🙀 ");
                s.append(note.as_str());
                s
            },
            Errors::ServerStatus(status) => {
                let mut s = String::from_str("[Request Error]:🙀 The server returned an error. Status: ");
                s.append(status.as_str());
                s.append(" 🛑 .");
                s
            },
        }
    }
}

} // verus!

//! The two ways in which a transaction can fail.

use vstd::prelude::*;
use vstd::string::StringExecFns;

verus! {

/// Why a transaction was not carried out. Clamping at the ceiling or at zero is
/// a normal outcome and never one of these.
#[derive(Clone, Copy, Debug, PartialEq, Eq, Structural)]
pub enum APIError {
    /// The name is none of the four accepted ones.
    IllegalDenominationName,
    /// Exclusive access to the reserves could not be had.
    StateUnavailable,
}

impl APIError {
    /// The status under which the failure is reported to a client.
    pub open spec fn status(self) -> int {
        match self {
            APIError::IllegalDenominationName => 406,
            APIError::StateUnavailable => 423,
        }
    }

    /// The text that explains the failure; `name` is the name that was asked for.
    pub open spec fn text(self, name: Seq<char>) -> Seq<char> {
        match self {
            APIError::IllegalDenominationName => "denomination name "@ + name
                + " is not acceptable.  Acceptable values are 'quarter', 'dime', 'nickel' and 'penny'"@,
            APIError::StateUnavailable => "Application state data is locked"@,
        }
    }

    /// The status under which the failure is reported to a client.
    pub fn status_code(self) -> (code: u16)
        ensures
            code == self.status(),
    {
        match self {
            APIError::IllegalDenominationName => 406,
            APIError::StateUnavailable => 423,
        }
    }

    /// The text that explains the failure to a client who asked for `name`.
    pub fn message(self, name: &str) -> (m: String)
        ensures
            m@ == self.text(name@),
    {
        match self {
            APIError::IllegalDenominationName => {
                let mut m = "denomination name ".to_owned();
                m.append(name);
                m.append(
                    " is not acceptable.  Acceptable values are 'quarter', 'dime', 'nickel' and 'penny'",
                );
                m
            },
            APIError::StateUnavailable => "Application state data is locked".to_owned(),
        }
    }
}

} // verus!

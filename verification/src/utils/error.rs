use vstd::prelude::*;
use vstd::string::StringExecFns;

verus! {

/// The one error of the gateway: data that could not be accepted, with the
/// reason in words.
#[derive(Clone, Debug, PartialEq)]
pub enum WSError {
    InvalidData(String),
}

/// What every description starts with.
pub open spec fn description_prefix() -> Seq<char> {
    "invalid data was provided: "@
}

impl WSError {
    /// The reason carried by the error.
    pub open spec fn reason(&self) -> Seq<char> {
        match *self {
            WSError::InvalidData(e) => e@,
        }
    }

    /// The text shown to a user: the fixed prefix followed by the reason.
    pub fn description(&self) -> (text: String)
        ensures
            text@ == description_prefix() + self.reason(),
    {
        match self {
            WSError::InvalidData(e) => {
                String::from_str("invalid data was provided: ").concat(e.as_str())
            },
        }
    }
}

} // verus!

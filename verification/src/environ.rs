//! What the process environment holds under one name.
use vstd::prelude::*;

verus! {

/// The state of one environment variable at the moment it was read.
#[derive(Clone, Debug, PartialEq, Eq)]
pub enum EnvVar {
    /// The variable is not set.
    NotPresent,
    /// The variable is set to something that is not valid Unicode.
    NotUnicode,
    /// The variable is set to this text.
    Value(String),
}

impl EnvVar {
    /// The text of the variable, where it has one.
    pub open spec fn text(&self) -> Option<Seq<char>> {
        match self {
            EnvVar::Value(s) => Some(s@),
            _ => None,
        }
    }

    /// The text of the variable, where it has one.
    pub fn as_str(&self) -> (r: Option<&str>)
        ensures
            match r {
                Some(s) => self.text() == Some(s@),
                None => self.text().is_none(),
            },
    {
        match self {
            EnvVar::Value(s) => Some(s.as_str()),
            _ => None,
        }
    }
}

} // verus!

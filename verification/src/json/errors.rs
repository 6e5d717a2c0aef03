use vstd::prelude::*;

verus! {

/// Why a document could not be read.
#[derive(Clone, Copy, PartialEq, Eq, Structural, Debug)]
pub enum Errors {
    /// The document holds no object the crawler reads.
    JsonParseError,
}

impl Errors {
    /// The error's name, as its `Debug` form writes it.
    pub fn to_string(&self) -> (s: String)
        ensures
            s@ == "JsonParseError"@,
    {
        match self {
            Errors::JsonParseError => String::from_str("JsonParseError"),
        }
    }
}

} // verus!

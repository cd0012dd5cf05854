use vstd::prelude::*;

use crate::triple::same_text;

verus! {

/// Byte order of the target.
#[derive(Debug, Clone, Copy, PartialEq, Eq, Structural)]
pub enum Endianess {
    Little,
    Big,
}

/// The byte-order text is neither `"little"` nor `"big"`.
#[derive(Debug, Clone, Copy, PartialEq, Eq, Structural)]
pub struct ParseEndianessError;

/// The byte order that the configuration text `s` names, if any.
pub open spec fn endianess_of(s: Seq<char>) -> Result<Endianess, ParseEndianessError> {
    if s == "little"@ {
        Ok(Endianess::Little)
    } else if s == "big"@ {
        Ok(Endianess::Big)
    } else {
        Err(ParseEndianessError)
    }
}

impl Endianess {
    /// Reads the byte order from its configuration text.
    pub fn parse(s: &str) -> (r: Result<Endianess, ParseEndianessError>)
        ensures
            r == endianess_of(s@),
    {
        if same_text(s, "little") {
            Ok(Endianess::Little)
        } else if same_text(s, "big") {
            Ok(Endianess::Big)
        } else {
            Err(ParseEndianessError)
        }
    }
}

} // verus!

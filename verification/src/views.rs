use crate::error::AuthError;
use vstd::prelude::*;

verus! {

/// The characters of a text that may be missing.
pub open spec fn text_view(r: Option<String>) -> Option<Seq<char>> {
    match r {
        Some(s) => Some(s@),
        None => None,
    }
}

/// The number that may be missing, as a mathematical integer.
pub open spec fn seconds_view(r: Option<i64>) -> Option<int> {
    match r {
        Some(s) => Some(s as int),
        None => None,
    }
}

/// The bytes of a vector that may be missing.
pub open spec fn bytes_view(r: Option<Vec<u8>>) -> Option<Seq<u8>> {
    match r {
        Some(v) => Some(v@),
        None => None,
    }
}

/// The characters of each text of a list.
pub open spec fn texts_view(v: Seq<String>) -> Seq<Seq<char>> {
    v.map_values(|s: String| s@)
}

/// The characters of a text that an operation returned, or its failure.
pub open spec fn text_result_view(r: Result<String, AuthError>) -> Result<Seq<char>, AuthError> {
    match r {
        Ok(t) => Ok(t@),
        Err(e) => Err(e),
    }
}

} // verus!

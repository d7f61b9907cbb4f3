//! What one HTTP transfer handed back: a body, or which phase of the
//! transfer failed. The transfer itself happens outside the library; every
//! adapter is a function of this value.
use vstd::prelude::*;

verus! {

/// The outcome of fetching one source's page: its body as text, a transport
/// failure, or a failure to read the body after a successful connection.
pub enum Fetched {
    Body(String),
    FetchFailed,
    ReadFailed,
}

/// An adapter result, seen at the level of character sequences.
pub open spec fn result_view(r: Result<Vec<String>, String>) -> Result<Seq<Seq<char>>, Seq<char>> {
    match r {
        Ok(v) => Ok(v.deep_view()),
        Err(e) => Err(e@),
    }
}

} // verus!

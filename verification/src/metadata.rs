//! Plain records from the metadata object graph that need no decoding.

use vstd::prelude::*;

verus! {

/// One tag attached to a piece of media (a genre, a director, a role).
#[derive(Debug, Clone)]
pub struct MediaTag {
    pub id: Option<u32>,
    pub tag: String,
    pub filter: Option<String>,
}

} // verus!

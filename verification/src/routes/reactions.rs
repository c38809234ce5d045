//! Requests to add or take back a reaction.

use vstd::prelude::*;

verus! {

/// The body of a request to react: the kind of reaction, such as "like".
#[derive(Debug)]
pub struct NewReaction {
    pub kind: String,
}

} // verus!

//! A reaction that a user left on a product.

use crate::time::Timestamp;
use vstd::prelude::*;

verus! {

/// One stored reaction. Rows get their identifiers in the order in which
/// they are created.
#[derive(Debug)]
pub struct Reaction {
    pub id: i32,
    pub product_id: i32,
    pub user_id: i32,
    pub kind: String,
    pub created_at: Timestamp,
}

/// What a `Reaction` holds, as plain values.
pub struct ReactionView {
    pub id: i32,
    pub product_id: i32,
    pub user_id: i32,
    pub kind: Seq<char>,
    pub created_at: Timestamp,
}

impl View for Reaction {
    type V = ReactionView;

    open spec fn view(&self) -> ReactionView {
        ReactionView {
            id: self.id,
            product_id: self.product_id,
            user_id: self.user_id,
            kind: self.kind@,
            created_at: self.created_at,
        }
    }
}

impl Clone for Reaction {
    fn clone(&self) -> (copy: Reaction)
        ensures
            copy@ == self@,
    {
        Reaction {
            id: self.id,
            product_id: self.product_id,
            user_id: self.user_id,
            kind: self.kind.clone(),
            created_at: self.created_at,
        }
    }
}

} // verus!

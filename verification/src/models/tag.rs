//! Tags, and which product carries which.

use vstd::prelude::*;

verus! {

/// A language, framework or tool that a product can be tagged with.
#[derive(Debug)]
pub struct Tag {
    pub id: i32,
    pub uuid: u128,
    pub name: String,
    pub kind: String,
}

/// One tag on one product.
#[derive(Clone, Copy, Debug, PartialEq, Eq, Structural)]
pub struct ProductTag {
    pub id: i32,
    pub tag_id: i32,
    pub product_id: i32,
}

} // verus!

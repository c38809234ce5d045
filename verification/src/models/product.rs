//! A portfolio entry.

use vstd::prelude::*;

verus! {

/// One stored product. Its `uuid` is the identifier that links to it from
/// outside, as the 128 bits it is made of.
#[derive(Debug)]
pub struct Product {
    pub id: i32,
    pub uuid: u128,
    pub title: String,
    pub body: String,
    pub img: String,
    pub kind: String,
    pub status: String,
    pub duration: i32,
    pub user_id: i32,
    pub simple: String,
}

impl Clone for Product {
    fn clone(&self) -> (copy: Product)
        ensures
            copy.id == self.id,
            copy.uuid == self.uuid,
            copy.title@ == self.title@,
            copy.body@ == self.body@,
            copy.img@ == self.img@,
            copy.kind@ == self.kind@,
            copy.status@ == self.status@,
            copy.duration == self.duration,
            copy.user_id == self.user_id,
            copy.simple@ == self.simple@,
    {
        Product {
            id: self.id,
            uuid: self.uuid,
            title: self.title.clone(),
            body: self.body.clone(),
            img: self.img.clone(),
            kind: self.kind.clone(),
            status: self.status.clone(),
            duration: self.duration,
            user_id: self.user_id,
            simple: self.simple.clone(),
        }
    }
}

} // verus!

//! Handlers of posts: from a request's payload to the row that is stored.

use crate::data::post::PostDB;
use crate::data::post::PostDBView;
use vstd::prelude::*;

verus! {

/// What a request to create or to change a post carries.
#[derive(Debug)]
pub struct CreatePayload {
    pub title: String,
    pub body: String,
}

impl CreatePayload {
    /// The row that is stored for the payload: its title and body, and
    /// nothing else; the datastore gives the identifier and the times.
    pub open spec fn row(&self) -> PostDBView {
        PostDBView { title: Some(self.title@), body: Some(self.body@), ..PostDBView::empty() }
    }

    /// The row that is stored for the payload.
    pub fn into_row(self) -> (r: PostDB)
        ensures
            r@ == self.row(),
    {
        PostDB {
            id: 0,
            title: Some(self.title),
            body: Some(self.body),
            created_at: None,
            updated_at: None,
        }
    }
}

} // verus!

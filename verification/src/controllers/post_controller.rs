//! The handlers of posts as one controller.

use vstd::prelude::*;

verus! {

/// The controller of posts. It holds nothing: its handlers get what they
/// need from the application state.
#[derive(Clone, Copy, Debug, PartialEq, Eq, Structural)]
pub struct PostController;

/// What a request to create or to change a post carries.
#[derive(Debug)]
pub struct CreatePayload {
    pub title: String,
    pub body: String,
}

} // verus!

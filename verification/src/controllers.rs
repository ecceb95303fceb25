//! What the request handlers compute between reading a request and
//! answering it.

pub mod post;
pub mod post_controller;

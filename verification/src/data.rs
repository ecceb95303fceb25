//! Datastore rows and what pages show of them.

pub mod post;

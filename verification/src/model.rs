//! The posts of the controller structs: the same rows and pages as in
//! [`crate::data`], under the names that those controllers use.

pub mod post;

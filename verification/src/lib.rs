//! The bootstrap layer of a prefork web service.
//!
//! One listening socket is bound, then the service runs in the calling
//! process or in a fleet of duplicated worker processes that share the
//! socket. Around every request stands a boundary that turns an error, or
//! a handling task that ended abnormally, into a well-formed reply.
//!
//! The library takes the decisions and leaves the acting to its caller:
//! [`launch`], [`supervisor`] and [`worker`] each name the action that is
//! due and take in what came of it; [`error`] is the boundary; [`system`]
//! and [`config`] hold what the service is configured with.

pub mod address;
pub mod asset;
pub mod config;
pub mod controllers;
pub mod data;
pub mod database;
pub mod error;
pub mod launch;
pub mod mode;
pub mod model;
pub mod report;
pub mod supervisor;
pub mod system;
pub mod text;
pub mod time;
pub mod worker;

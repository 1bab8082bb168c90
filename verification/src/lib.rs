//! Verified core of a terminal client for the YAP board-and-entry backend.
//!
//! The terminal user interface, the HTTP transport and the file handling live
//! outside this crate; here stand the decisions they act on: how requests are
//! addressed and framed, how answers are classified, how the entry list widget
//! is updated, how registrations are validated and how saved tokens are judged.
pub mod text;
pub mod status;
pub mod model;
pub mod views;
pub mod endpoints;
pub mod register;
pub mod token;
pub mod schedule;
pub mod clock;

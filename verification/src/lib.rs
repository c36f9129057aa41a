//! A small library behind an HTTP gateway that looks up nearby restaurants:
//! it builds the upstream query URL, turns the upstream listings into one
//! bulk `INSERT ... ON CONFLICT DO NOTHING` statement with all string fields
//! escaped, routes inbound requests, and decides each step of the request
//! handler. All statement and URL construction is specified exactly, down to
//! the character.

pub mod handler;
pub mod json;
pub mod model;
pub mod router;
pub mod sql;
pub mod text;
pub mod url;

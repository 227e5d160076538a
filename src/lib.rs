//! Per-user session dispatcher of a chat bot that relays links to a
//! read-later service, with the authorization dialog each session runs.
pub mod callback;
pub mod dialog;
pub mod endpoints;
pub mod model;
pub mod pub_sub;
pub mod responses;
pub mod store;
pub mod updates;

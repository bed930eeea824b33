//! Authenticated resource access for a small blogging service: row codecs
//! for users and posts, repositories over a table store, an authority that
//! issues and verifies bearer tokens, the access gate that stands before
//! every change to the posts, and the handlers that turn typed requests
//! into responses.
//!
//! The library does no input or output of its own. A web layer hands it
//! typed arguments and request headers; [`service::plan`] answers at once or
//! names the statement to run, and [`service::finish`] turns what the store
//! said into the response. [`memory::Store`] is a store that holds its
//! tables in memory and does what [`store::executed`] and
//! [`store::queried`] say; [`laws`] states what follows for the service as
//! a whole.

pub mod text;
pub mod clock;
pub mod token;
pub mod auth;
pub mod gate;
pub mod values;
pub mod models;
pub mod store;
pub mod memory;
pub mod handlers;
pub mod service;
pub mod laws;

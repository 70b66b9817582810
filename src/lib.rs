//! An in-memory store of notes, with the request handling that maps its
//! operations to HTTP status codes and JSON bodies.

pub mod note;
pub mod store;
pub mod laws;
pub mod json;
pub mod http;

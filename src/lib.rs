//! An HTTP file gateway's request-handling decisions: where a request path
//! lands under the storage root, what an upload does step by step, how a
//! removal and a router rejection turn into a status and a message.
pub mod outcome;
pub mod config;
pub mod target;
pub mod upload;
pub mod removal;
pub mod rejection;
pub mod store;

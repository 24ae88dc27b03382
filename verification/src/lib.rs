//! Looking up the documentation page of a Terraform resource in the public
//! registry: the identifier, the requests, and the decisions between them.
//!
//! The library performs no I/O. It says which URL to fetch next and what to do
//! with each decoded response; the caller performs the requests.

pub mod client;
pub mod error;
pub mod identifier;
pub mod pipeline;
pub mod registry;

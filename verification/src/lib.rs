//! A verified core for a small HTTP fetch client.
//!
//! The crate describes requests, folds what the host reports into responses
//! and errors, and never talks to the network itself: the surrounding program
//! performs each host call and hands its outcome back as plain values.

pub mod client;
pub mod error;
pub mod headers;
pub mod host;
pub mod json;
pub mod method;
pub mod request;
pub mod response;

pub use client::{get, post_json, Client};
pub use error::Error;
pub use headers::Headers;
pub use host::{BytesReply, FetchReply, TextReply};
pub use method::Method;
pub use request::{Request, RequestBuilder, RequestMode};
pub use response::Response;

//! What the host reports back.
//!
//! The surrounding program performs the fetch and the body reads. It hands
//! the outcome of each to this crate as one of the values below, with every
//! host failure reduced to the host's account of it.

use vstd::prelude::*;

verus! {

/// The outcome of handing a request to the host. `H` is the host's handle
/// on a response, through which the body is read later; this crate only
/// carries it.
#[derive(Debug, PartialEq, Eq)]
pub enum FetchReply<H> {
    /// The host raised while the request was being set up, or rejected the
    /// fetch. The text is its account of the failure.
    Failed(String),
    /// There is no window to fetch with.
    NoWindow,
    /// The fetch settled with something other than a response.
    NotAResponse,
    /// The fetch settled with a response of this status and these headers.
    Response { status: u16, headers: Vec<(String, String)>, handle: H },
}

/// The outcome of asking the host for a response's body as text.
#[derive(Debug, PartialEq, Eq)]
pub enum TextReply {
    /// The host raised, or rejected the read. The text is its account of the
    /// failure.
    Failed(String),
    /// The read settled with something other than a string.
    NotText,
    /// The body.
    Text(String),
}

/// The outcome of asking the host for a response's body as bytes.
#[derive(Debug, PartialEq, Eq)]
pub enum BytesReply {
    /// The host raised, or rejected the read. The text is its account of the
    /// failure.
    Failed(String),
    /// The body.
    Bytes(Vec<u8>),
}

} // verus!

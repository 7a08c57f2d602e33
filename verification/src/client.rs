//! The client and the one-call shortcuts.

use crate::error::{Error, ErrorView};
use crate::headers::names_distinct;
use crate::method::Method;
use crate::request::{Request, RequestBuilder, RequestView};
use vstd::prelude::*;

verus! {

/// A client: it holds nothing, and hands out a fresh builder per request.
#[derive(Debug, Clone, Copy, PartialEq, Eq, Structural)]
pub struct Client;

impl Client {
    /// A builder for a `GET` request to `url`.
    pub fn get(&self, url: &str) -> (builder: RequestBuilder)
        ensures
            builder@ == RequestView::fresh(Method::GET, url@),
            names_distinct(builder@.headers),
    {
        RequestBuilder::new(Method::GET, url)
    }

    /// A builder for a `POST` request to `url`.
    pub fn post(&self, url: &str) -> (builder: RequestBuilder)
        ensures
            builder@ == RequestView::fresh(Method::POST, url@),
            names_distinct(builder@.headers),
    {
        RequestBuilder::new(Method::POST, url)
    }

    /// A builder for a `PUT` request to `url`.
    pub fn put(&self, url: &str) -> (builder: RequestBuilder)
        ensures
            builder@ == RequestView::fresh(Method::PUT, url@),
            names_distinct(builder@.headers),
    {
        RequestBuilder::new(Method::PUT, url)
    }

    /// A builder for a `DELETE` request to `url`.
    pub fn delete(&self, url: &str) -> (builder: RequestBuilder)
        ensures
            builder@ == RequestView::fresh(Method::DELETE, url@),
            names_distinct(builder@.headers),
    {
        RequestBuilder::new(Method::DELETE, url)
    }

    /// A builder for a `PATCH` request to `url`.
    pub fn patch(&self, url: &str) -> (builder: RequestBuilder)
        ensures
            builder@ == RequestView::fresh(Method::PATCH, url@),
            names_distinct(builder@.headers),
    {
        RequestBuilder::new(Method::PATCH, url)
    }
}

/// A sent `GET` request to `url`, with nothing else set.
pub fn get(url: &str) -> (request: Request)
    ensures
        request@ == RequestView::fresh(Method::GET, url@),
        names_distinct(request@.headers),
{
    Client.get(url).send()
}

/// A sent `POST` request to `url` whose body is a value's JSON encoding,
/// given what the encoder made of the value. Where the encoder failed,
/// nothing is sent.
pub fn post_json(url: &str, encoded: Result<String, String>) -> (request: Result<Request, Error>)
    ensures
        match encoded {
            Ok(text) => request is Ok && request->Ok_0@ == RequestView::fresh(
                Method::POST,
                url@,
            ).with_json(text@) && names_distinct(request->Ok_0@.headers),
            Err(failure) => request is Err && request->Err_0@ == ErrorView::JsonError(failure@),
        },
{
    match Client.post(url).json(encoded) {
        Ok(builder) => Ok(builder.send()),
        Err(failure) => Err(failure),
    }
}

} // verus!

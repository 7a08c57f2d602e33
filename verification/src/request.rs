//! Building a request and handing it to the host.

use crate::error::{Error, ErrorView};
use crate::headers::{
    fold, lemma_last_write_wins, lemma_lookup_with_entry, lemma_with_entry_distinct, lookup,
    names_distinct, pairs_view, with_entries, with_entry, Headers,
};
use crate::host::FetchReply;
use crate::method::Method;
use crate::response::{Response, ResponseView};
use vstd::prelude::*;

verus! {

/// The cross-origin policy a request is made under. It is passed to the host
/// as it is.
#[derive(Debug, Clone, Copy, PartialEq, Eq, Structural)]
pub enum RequestMode {
    Cors,
    NoCors,
    SameOrigin,
}

/// A request as plain values: what a builder has gathered, and what the host
/// is given once the request is sent.
pub struct RequestView {
    pub url: Seq<char>,
    pub method: Method,
    pub headers: Seq<(Seq<char>, Seq<char>)>,
    pub body: Option<Seq<char>>,
    pub mode: RequestMode,
}

impl RequestView {
    /// A request for `url` with no headers and no body, made under
    /// [`RequestMode::Cors`].
    pub open spec fn fresh(method: Method, url: Seq<char>) -> RequestView {
        RequestView { url, method, headers: Seq::empty(), body: None, mode: RequestMode::Cors }
    }

    /// The request with `value` written for the header `name`.
    pub open spec fn with_header(self, name: Seq<char>, value: Seq<char>) -> RequestView {
        RequestView { headers: with_entry(self.headers, name, value), ..self }
    }

    /// The request with every pair of `more` written, first to last.
    pub open spec fn with_headers(self, more: Seq<(Seq<char>, Seq<char>)>) -> RequestView {
        RequestView { headers: with_entries(self.headers, more), ..self }
    }

    /// The request made under `mode`.
    pub open spec fn with_mode(self, mode: RequestMode) -> RequestView {
        RequestView { mode, ..self }
    }

    /// The request with `body` as its body.
    pub open spec fn with_body(self, body: Seq<char>) -> RequestView {
        RequestView { body: Some(body), ..self }
    }

    /// The request with the JSON text `encoded` as its body, and marked as
    /// carrying JSON.
    pub open spec fn with_json(self, encoded: Seq<char>) -> RequestView {
        self.with_body(encoded).with_header("Content-Type"@, "application/json"@)
    }
}

/// What answering a request comes to: the response, or the failure raised.
pub open spec fn fetch_outcome<H>(reply: FetchReply<H>) -> Result<ResponseView<H>, ErrorView> {
    match reply {
        FetchReply::Failed(failure) => Err(ErrorView::JsError(failure@)),
        FetchReply::NoWindow => Err(ErrorView::JsError("Failed to get window"@)),
        FetchReply::NotAResponse => Err(ErrorView::JsError("Response conversion failed"@)),
        FetchReply::Response { status, headers, handle } => Ok(
            ResponseView {
                status,
                headers: with_entries(Seq::empty(), pairs_view(headers@)),
                handle,
            },
        ),
    }
}

/// Of two writes to one header of a request the later one wins: the request
/// is the one that the later write alone gives, and the header reads as the
/// later value.
pub proof fn lemma_header_last_write_wins(
    request: RequestView,
    name: Seq<char>,
    first: Seq<char>,
    last: Seq<char>,
)
    requires
        names_distinct(request.headers),
    ensures
        request.with_header(name, first).with_header(name, last) == request.with_header(name, last),
        lookup(request.with_header(name, first).with_header(name, last).headers, name) == Some(
            last,
        ),
{
    lemma_last_write_wins(request.headers, name, first, last);
}

/// A request given a JSON body carries exactly that text as its body, and
/// its `Content-Type` header, under any spelling of the name, reads exactly
/// `application/json`, whatever was written for it before. Nothing else of
/// the request changes.
pub proof fn lemma_json_marks_content_type(request: RequestView, encoded: Seq<char>, name: Seq<char>)
    requires
        names_distinct(request.headers),
    ensures
        request.with_json(encoded).body == Some(encoded),
        request.with_json(encoded).url == request.url,
        request.with_json(encoded).method == request.method,
        request.with_json(encoded).mode == request.mode,
        names_distinct(request.with_json(encoded).headers),
        lookup(request.with_json(encoded).headers, name) == if fold(name) == fold("Content-Type"@) {
            Some("application/json"@)
        } else {
            lookup(request.headers, name)
        },
{
    lemma_with_entry_distinct(request.headers, "Content-Type"@, "application/json"@);
    lemma_lookup_with_entry(request.headers, "Content-Type"@, "application/json"@, name);
}

/// A builder for a request: it gathers the method, the address, the headers,
/// the body and the mode, and is used up when the request is sent.
#[derive(Debug, PartialEq, Eq)]
pub struct RequestBuilder {
    url: String,
    method: Method,
    headers: Headers,
    body: Option<String>,
    mode: RequestMode,
}

impl View for RequestBuilder {
    type V = RequestView;

    closed spec fn view(&self) -> RequestView {
        RequestView {
            url: self.url@,
            method: self.method,
            headers: self.headers@,
            body: match self.body {
                Some(body) => Some(body@),
                None => None,
            },
            mode: self.mode,
        }
    }
}

impl RequestBuilder {
    /// A builder for a request to `url`: no headers, no body, made under
    /// [`RequestMode::Cors`].
    pub fn new(method: Method, url: &str) -> (builder: RequestBuilder)
        ensures
            builder@ == RequestView::fresh(method, url@),
            names_distinct(builder@.headers),
    {
        RequestBuilder {
            url: url.to_owned(),
            method,
            headers: Headers::new(),
            body: None,
            mode: RequestMode::Cors,
        }
    }

    /// Writes `value` for the header `key`, replacing what was written for it
    /// under any spelling.
    pub fn header(self, key: &str, value: &str) -> (builder: RequestBuilder)
        ensures
            builder@ == self@.with_header(key@, value@),
            names_distinct(builder@.headers),
    {
        let mut builder = self;
        builder.headers.insert(key, value);
        builder
    }

    /// Writes every pair of `headers`, first to last, each replacing what was
    /// written for its name.
    pub fn headers(self, headers: Vec<(String, String)>) -> (builder: RequestBuilder)
        ensures
            builder@ == self@.with_headers(pairs_view(headers@)),
            names_distinct(builder@.headers),
    {
        let mut builder = self;
        builder.headers.extend(&headers);
        builder
    }

    /// Sets the mode the request is made under.
    pub fn mode(self, mode: RequestMode) -> (builder: RequestBuilder)
        ensures
            builder@ == self@.with_mode(mode),
    {
        let mut builder = self;
        builder.mode = mode;
        builder
    }

    /// Sets the body.
    pub fn body(self, body: &str) -> (builder: RequestBuilder)
        ensures
            builder@ == self@.with_body(body@),
    {
        let mut builder = self;
        builder.body = Some(body.to_owned());
        builder
    }

    /// Sets the body to a value's JSON encoding, given what the encoder made
    /// of the value, and marks the request as carrying JSON. Where the
    /// encoder failed, the builder is dropped and the failure is returned
    /// with the encoder's text.
    pub fn json(self, encoded: Result<String, String>) -> (builder: Result<RequestBuilder, Error>)
        ensures
            match encoded {
                Ok(text) => builder is Ok && builder->Ok_0@ == self@.with_json(text@)
                    && names_distinct(builder->Ok_0@.headers),
                Err(failure) => builder is Err && builder->Err_0@ == ErrorView::JsonError(
                    failure@,
                ),
            },
    {
        match encoded {
            Ok(text) => {
                let mut builder = self;
                builder.body = Some(text);
                builder.headers.insert("Content-Type", "application/json");
                Ok(builder)
            },
            Err(failure) => Err(Error::JsonError(failure)),
        }
    }

    /// Seals the request: what was gathered is what the host is to fetch,
    /// once.
    pub fn send(self) -> (request: Request)
        ensures
            request@ == self@,
            names_distinct(request@.headers),
    {
        let request = Request {
            url: self.url,
            method: self.method,
            headers: self.headers,
            body: self.body,
            mode: self.mode,
        };
        proof {
            use_type_invariant(&request.headers);
            request.headers.lemma_names_distinct();
        }
        request
    }
}

/// A request that has been sent: the description the host is given. It can
/// be read and no longer changed, and is used up by the host's reply.
#[derive(Debug, PartialEq, Eq)]
pub struct Request {
    url: String,
    method: Method,
    headers: Headers,
    body: Option<String>,
    mode: RequestMode,
}

impl View for Request {
    type V = RequestView;

    closed spec fn view(&self) -> RequestView {
        RequestView {
            url: self.url@,
            method: self.method,
            headers: self.headers@,
            body: match self.body {
                Some(body) => Some(body@),
                None => None,
            },
            mode: self.mode,
        }
    }
}

impl Request {
    /// The method's wire name.
    pub fn method(&self) -> (name: &'static str)
        ensures
            name@ == self@.method.name(),
    {
        self.method.as_str()
    }

    /// The address.
    pub fn url(&self) -> (url: &str)
        ensures
            url@ == self@.url,
    {
        self.url.as_str()
    }

    /// The mode the request is made under.
    pub fn mode(&self) -> (mode: RequestMode)
        ensures
            mode == self@.mode,
    {
        self.mode
    }

    /// The body, where one was set.
    pub fn body(&self) -> (body: Option<&String>)
        ensures
            match body {
                Some(text) => self@.body == Some(text@),
                None => self@.body is None,
            },
    {
        self.body.as_ref()
    }

    /// The value written for the header `name`, under any spelling of the
    /// name.
    pub fn header(&self, name: &str) -> (value: Option<&String>)
        ensures
            match value {
                Some(held) => lookup(self@.headers, name@) == Some(held@),
                None => lookup(self@.headers, name@) is None,
            },
    {
        self.headers.get(name)
    }

    /// The headers to set on the host's request, one pair per header name.
    pub fn headers(&self) -> (pairs: Vec<(String, String)>)
        ensures
            pairs_view(pairs@) == self@.headers,
            names_distinct(self@.headers),
    {
        self.headers.to_vec()
    }

    /// Folds the host's reply into the outcome of the request: the response,
    /// or the failure the host reported. No response means no handle, so
    /// after a failure there is nothing a body could be read through.
    pub fn respond<H>(self, reply: FetchReply<H>) -> (out: Result<Response<H>, Error>)
        ensures
            match fetch_outcome(reply) {
                Ok(response) => out is Ok && out->Ok_0@ == response,
                Err(failure) => out is Err && out->Err_0@ == failure,
            },
    {
        match reply {
            FetchReply::Failed(failure) => Err(Error::JsError(failure)),
            FetchReply::NoWindow => Err(Error::JsError(String::from_str("Failed to get window"))),
            FetchReply::NotAResponse => Err(
                Error::JsError(String::from_str("Response conversion failed")),
            ),
            FetchReply::Response { status, headers, handle } => Ok(
                Response::new(status, &headers, handle),
            ),
        }
    }
}

} // verus!

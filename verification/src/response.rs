//! Responses and the reading of their bodies.

use crate::error::{http_error_text, Error, ErrorView};
use crate::headers::{lookup, names_distinct, pairs_view, with_entries, Headers};
use crate::host::{BytesReply, TextReply};
use crate::json::{json_document, parse_document};
use vstd::prelude::*;

verus! {

/// Whether a status lies in the successful range, 200 to 299.
pub open spec fn is_success(status: u16) -> bool {
    200 <= status <= 299
}

/// What reading a body as text comes to: the text, or the failure raised.
pub open spec fn text_outcome(reply: TextReply) -> Result<Seq<char>, ErrorView> {
    match reply {
        TextReply::Failed(failure) => Err(ErrorView::JsError(failure@)),
        TextReply::NotText => Err(ErrorView::JsError("Failed to convert to string"@)),
        TextReply::Text(text) => Ok(text@),
    }
}

/// Whether `out` is what a decoder's `parsed` comes to: the decoded value, or
/// a JSON failure carrying the decoder's text.
pub open spec fn decodes_to<T>(parsed: Result<T, String>, out: Result<T, Error>) -> bool {
    match parsed {
        Ok(value) => out == Ok::<T, Error>(value),
        Err(failure) => out is Err && out->Err_0@ == ErrorView::JsonError(failure@),
    }
}

/// Turns a decoder's outcome into this crate's: a failure becomes
/// [`Error::JsonError`] with the decoder's text.
pub fn decoded<T>(parsed: Result<T, String>) -> (out: Result<T, Error>)
    ensures
        decodes_to(parsed, out),
{
    match parsed {
        Ok(value) => Ok(value),
        Err(failure) => Err(Error::JsonError(failure)),
    }
}

/// A response as the host delivered it: the status, the headers, and the
/// host's handle `H` on the response. The body stays with the host until it is
/// read through that handle.
#[derive(Debug, PartialEq, Eq)]
pub struct Response<H> {
    status: u16,
    headers: Headers,
    handle: H,
}

/// A [`Response`] as plain values, beside the handle it carries.
pub struct ResponseView<H> {
    pub status: u16,
    pub headers: Seq<(Seq<char>, Seq<char>)>,
    pub handle: H,
}

impl<H> View for Response<H> {
    type V = ResponseView<H>;

    closed spec fn view(&self) -> ResponseView<H> {
        ResponseView { status: self.status, headers: self.headers@, handle: self.handle }
    }
}

impl<H> Response<H> {
    /// A response with the given status, the given headers, written first to
    /// last, and the given handle.
    pub fn new(status: u16, headers: &Vec<(String, String)>, handle: H) -> (response: Response<H>)
        ensures
            response@ == (ResponseView {
                status,
                headers: with_entries(Seq::empty(), pairs_view(headers@)),
                handle,
            }),
            names_distinct(response@.headers),
    {
        let mut held = Headers::new();
        held.extend(headers);
        Response { status, headers: held, handle }
    }

    /// The host's handle on this response.
    pub fn handle(&self) -> (handle: &H)
        ensures
            *handle == self@.handle,
    {
        &self.handle
    }

    /// The status code.
    pub fn status(&self) -> (status: u16)
        ensures
            status == self@.status,
    {
        self.status
    }

    /// Whether the status lies in the successful range, 200 to 299.
    pub fn ok(&self) -> (ok: bool)
        ensures
            ok == is_success(self@.status),
    {
        200 <= self.status && self.status <= 299
    }

    /// The value of the header `name`, under any spelling of the name, or
    /// `None` where the response has no such header. Never fails.
    pub fn header(&self, name: &str) -> (value: Result<Option<String>, Error>)
        ensures
            match value {
                Ok(Some(held)) => lookup(self@.headers, name@) == Some(held@),
                Ok(None) => lookup(self@.headers, name@) is None,
                Err(_) => false,
            },
    {
        match self.headers.get(name) {
            Some(held) => Ok(Some(held.clone())),
            None => Ok(None),
        }
    }

    /// The body as text, given the host's reply to the read.
    pub fn text(self, reply: TextReply) -> (text: Result<String, Error>)
        ensures
            match text_outcome(reply) {
                Ok(body) => text is Ok && text->Ok_0@ == body,
                Err(failure) => text is Err && text->Err_0@ == failure,
            },
            reply matches TextReply::Text(body) ==> text == Ok::<String, Error>(body),
    {
        match reply {
            TextReply::Failed(failure) => Err(Error::JsError(failure)),
            TextReply::NotText => Err(
                Error::JsError(String::from_str("Failed to convert to string")),
            ),
            TextReply::Text(body) => Ok(body),
        }
    }

    /// The body decoded by `parse`, given the host's reply to the read. The
    /// decoder runs only on a body that was read.
    pub fn json<T, F: FnOnce(String) -> Result<T, String>>(self, reply: TextReply, parse: F) -> (out:
        Result<T, Error>)
        requires
            forall|text: String| call_requires(parse, (text,)),
        ensures
            match reply {
                TextReply::Text(body) => exists|parsed: Result<T, String>|
                    #[trigger] call_ensures(parse, (body,), parsed) && decodes_to(parsed, out),
                _ => out is Err && Err::<Seq<char>, ErrorView>(out->Err_0@) == text_outcome(reply),
            },
    {
        match self.text(reply) {
            Ok(body) => decoded(parse(body)),
            Err(failure) => Err(failure),
        }
    }

    /// The body as a dynamic JSON value, given the host's reply to the read.
    pub fn json_value(self, reply: TextReply) -> (out: Result<serde_json::Value, Error>)
        ensures
            match text_outcome(reply) {
                Ok(body) => match json_document(body) {
                    Ok(value) => out == Ok::<serde_json::Value, Error>(value),
                    Err(failure) => out is Err && out->Err_0@ == ErrorView::JsonError(failure),
                },
                Err(failure) => out is Err && out->Err_0@ == failure,
            },
    {
        self.json(reply, parse_document)
    }

    /// The body as bytes, given the host's reply to the read.
    pub fn bytes(self, reply: BytesReply) -> (bytes: Result<Vec<u8>, Error>)
        ensures
            match reply {
                BytesReply::Bytes(body) => bytes == Ok::<Vec<u8>, Error>(body),
                BytesReply::Failed(failure) => bytes is Err && bytes->Err_0@ == ErrorView::JsError(
                    failure@,
                ),
            },
    {
        match reply {
            BytesReply::Bytes(body) => Ok(body),
            BytesReply::Failed(failure) => Err(Error::JsError(failure)),
        }
    }

    /// The response itself where its status is a success; otherwise the
    /// status failure, which carries the status and not the body.
    pub fn error_for_status(self) -> (out: Result<Response<H>, Error>)
        ensures
            is_success(self@.status) ==> out == Ok::<Response<H>, Error>(self),
            !is_success(self@.status) ==> out is Err && out->Err_0@ == ErrorView::HttpError(
                self@.status,
                http_error_text(self@.status),
            ),
    {
        if self.ok() {
            Ok(self)
        } else {
            Err(Error::for_status(self.status()))
        }
    }
}

} // verus!

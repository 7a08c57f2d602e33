//! What can go wrong with a request, and the text of a status failure.

use vstd::prelude::*;

verus! {

/// The ways a request, or the reading of its response, can fail.
#[derive(Debug, PartialEq, Eq)]
pub enum Error {
    /// The host failed; the text is its account of the failure.
    JsError(String),
    /// The response's status is outside the successful range; the text is
    /// `HTTP Error` followed by the status in decimal.
    HttpError(u16, String),
    /// A body could not be encoded or decoded as JSON; the text is the
    /// codec's account of the failure.
    JsonError(String),
}

/// An [`Error`] with each text taken as its characters.
pub enum ErrorView {
    JsError(Seq<char>),
    HttpError(u16, Seq<char>),
    JsonError(Seq<char>),
}

impl View for Error {
    type V = ErrorView;

    open spec fn view(&self) -> ErrorView {
        match self {
            Error::JsError(text) => ErrorView::JsError(text@),
            Error::HttpError(status, text) => ErrorView::HttpError(*status, text@),
            Error::JsonError(text) => ErrorView::JsonError(text@),
        }
    }
}

/// The character that writes a single decimal digit.
pub open spec fn digit_char(d: nat) -> char {
    if d == 0 {
        '0'
    } else if d == 1 {
        '1'
    } else if d == 2 {
        '2'
    } else if d == 3 {
        '3'
    } else if d == 4 {
        '4'
    } else if d == 5 {
        '5'
    } else if d == 6 {
        '6'
    } else if d == 7 {
        '7'
    } else if d == 8 {
        '8'
    } else {
        '9'
    }
}

/// A number written in decimal, without sign or leading zeros.
pub open spec fn decimal(n: nat) -> Seq<char>
    decreases n,
{
    if n < 10 {
        seq![digit_char(n)]
    } else {
        decimal(n / 10).push(digit_char(n % 10))
    }
}

/// The text carried by the failure for `status`.
pub open spec fn http_error_text(status: u16) -> Seq<char> {
    "HTTP Error "@ + decimal(status as nat)
}

fn digit_str(d: u16) -> (digit: &'static str)
    requires
        d < 10,
    ensures
        digit@ == seq![digit_char(d as nat)],
{
    proof {
        reveal_strlit("0");
        reveal_strlit("1");
        reveal_strlit("2");
        reveal_strlit("3");
        reveal_strlit("4");
        reveal_strlit("5");
        reveal_strlit("6");
        reveal_strlit("7");
        reveal_strlit("8");
        reveal_strlit("9");
    }
    let digit = if d == 0 {
        "0"
    } else if d == 1 {
        "1"
    } else if d == 2 {
        "2"
    } else if d == 3 {
        "3"
    } else if d == 4 {
        "4"
    } else if d == 5 {
        "5"
    } else if d == 6 {
        "6"
    } else if d == 7 {
        "7"
    } else if d == 8 {
        "8"
    } else {
        "9"
    };
    assert(digit@ =~= seq![digit_char(d as nat)]);
    digit
}

/// Writes `n` in decimal.
pub fn decimal_text(n: u16) -> (text: String)
    ensures
        text@ == decimal(n as nat),
    decreases n,
{
    if n < 10 {
        String::from_str(digit_str(n))
    } else {
        let text = decimal_text(n / 10).concat(digit_str(n % 10));
        assert(text@ =~= decimal(n as nat));
        text
    }
}

impl Error {
    /// The failure raised for a response whose status is not a success.
    pub fn for_status(status: u16) -> (err: Error)
        ensures
            err@ == ErrorView::HttpError(status, http_error_text(status)),
    {
        let digits = decimal_text(status);
        let text = String::from_str("HTTP Error ").concat(digits.as_str());
        Error::HttpError(status, text)
    }
}

} // verus!

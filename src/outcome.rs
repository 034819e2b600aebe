//! What a fetch cycle can end in, and how a transport result is classified.

use vstd::prelude::*;

use crate::payload::{decode_api_response, decode_spec, ApiResponse, PayloadView};

verus! {

/// Why a fetch cycle failed.
#[derive(Clone, Debug)]
pub enum ErrorInfo {
    /// No response was obtained.
    Network(String),
    /// A response came with a status outside the success range; its body, where
    /// it could be read.
    HttpStatus(u16, Option<String>),
    /// A success response whose body does not hold the payload.
    Parse(String),
}

/// An `ErrorInfo` as mathematical text.
pub enum ErrorView {
    Network(Seq<char>),
    HttpStatus(u16, Option<Seq<char>>),
    Parse(Seq<char>),
}

pub open spec fn opt_text_view(o: Option<String>) -> Option<Seq<char>> {
    match o {
        Some(s) => Some(s@),
        None => None,
    }
}

impl View for ErrorInfo {
    type V = ErrorView;

    open spec fn view(&self) -> ErrorView {
        match self {
            ErrorInfo::Network(d) => ErrorView::Network(d@),
            ErrorInfo::HttpStatus(code, body) => ErrorView::HttpStatus(*code, opt_text_view(*body)),
            ErrorInfo::Parse(d) => ErrorView::Parse(d@),
        }
    }
}

fn copy_opt_text(o: &Option<String>) -> (r: Option<String>)
    ensures
        opt_text_view(r) == opt_text_view(*o),
{
    match o {
        Some(s) => Some(s.clone()),
        None => None,
    }
}

impl ErrorInfo {
    /// A variant by variant copy.
    pub fn duplicate(&self) -> (r: ErrorInfo)
        ensures
            r@ == self@,
    {
        match self {
            ErrorInfo::Network(d) => ErrorInfo::Network(d.clone()),
            ErrorInfo::HttpStatus(code, body) => ErrorInfo::HttpStatus(*code, copy_opt_text(body)),
            ErrorInfo::Parse(d) => ErrorInfo::Parse(d.clone()),
        }
    }
}

fn opt_text_eq(a: &Option<String>, b: &Option<String>) -> (r: bool)
    ensures
        r == (opt_text_view(*a) == opt_text_view(*b)),
{
    match (a, b) {
        (Some(x), Some(y)) => *x == *y,
        (None, None) => true,
        _ => false,
    }
}

impl PartialEq for ErrorInfo {
    fn eq(&self, other: &ErrorInfo) -> (r: bool) {
        match (self, other) {
            (ErrorInfo::Network(a), ErrorInfo::Network(b)) => *a == *b,
            (ErrorInfo::HttpStatus(c, a), ErrorInfo::HttpStatus(d, b)) => *c == *d && opt_text_eq(
                a,
                b,
            ),
            (ErrorInfo::Parse(a), ErrorInfo::Parse(b)) => *a == *b,
            _ => false,
        }
    }
}

impl vstd::std_specs::cmp::PartialEqSpecImpl for ErrorInfo {
    open spec fn obeys_eq_spec() -> bool {
        true
    }

    open spec fn eq_spec(&self, other: &ErrorInfo) -> bool {
        self@ == other@
    }
}

/// What the transport hands back for one `GET` request.
#[derive(Clone, Debug)]
pub enum FetchOutcome {
    /// No response was received; a description of the failure.
    Transport(String),
    /// A response with its status code and its body as text, `None` where the
    /// body could not be read.
    Response(u16, Option<String>),
}

/// The status codes that count as success.
pub open spec fn is_success_status(code: u16) -> bool {
    200 <= code <= 299
}

/// The detail given when a success response's body could not be read.
pub const UNREADABLE_BODY: &'static str = "response body could not be read";

/// The classification of a fetch outcome: the payload, or why the cycle
/// failed.
pub open spec fn classify_spec(o: FetchOutcome) -> Result<PayloadView, ErrorView> {
    match o {
        FetchOutcome::Transport(d) => Err(ErrorView::Network(d@)),
        FetchOutcome::Response(code, body) => if !is_success_status(code) {
            Err(ErrorView::HttpStatus(code, opt_text_view(body)))
        } else {
            match body {
                None => Err(ErrorView::Parse(UNREADABLE_BODY@)),
                Some(t) => match decode_spec(t@) {
                    Ok(p) => Ok(p),
                    Err(d) => Err(ErrorView::Parse(d)),
                },
            }
        },
    }
}

/// The view of a classification result.
pub open spec fn classified_view(r: Result<ApiResponse, ErrorInfo>) -> Result<
    PayloadView,
    ErrorView,
> {
    match r {
        Ok(p) => Ok(p@),
        Err(e) => Err(e@),
    }
}

/// Classifies what the transport handed back: a transport failure is a
/// `Network` error; a status outside `200..=299` an `HttpStatus` error with
/// that code and body; a success status whose body does not decode a `Parse`
/// error; the payload otherwise.
pub fn classify(o: FetchOutcome) -> (r: Result<ApiResponse, ErrorInfo>)
    ensures
        classified_view(r) == classify_spec(o),
        o is Transport ==> (r matches Err(ErrorInfo::Network(d)) && d@ == o->Transport_0@),
        o is Response && !is_success_status(o->Response_0) ==> (r matches Err(
            ErrorInfo::HttpStatus(c, b),
        ) && c == o->Response_0 && opt_text_view(b) == opt_text_view(o->Response_1)),
        o is Response && is_success_status(o->Response_0) ==> (r is Ok || r matches Err(
            ErrorInfo::Parse(_),
        )),
{
    match o {
        FetchOutcome::Transport(d) => Err(ErrorInfo::Network(d)),
        FetchOutcome::Response(code, body) => {
            if code < 200 || code > 299 {
                Err(ErrorInfo::HttpStatus(code, body))
            } else {
                match body {
                    None => Err(ErrorInfo::Parse(UNREADABLE_BODY.to_owned())),
                    Some(t) => match decode_api_response(t.as_str()) {
                        Ok(p) => Ok(p),
                        Err(d) => Err(ErrorInfo::Parse(d)),
                    },
                }
            }
        },
    }
}

} // verus!

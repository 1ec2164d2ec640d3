//! Structured invocation results: every successful or failed invocation yields
//! a `Response` for the transport layer to render. The core never formats
//! platform-specific markup.

use vstd::prelude::*;

verus! {

/// How the transport should present a `Response`.
#[derive(Debug, Clone, Copy, PartialEq, Eq, Structural)]
pub enum ResponseType {
    Error,
    Success,
    Warning,
}

/// A rendered invocation result: a severity, a title and a body.
#[derive(Debug)]
pub struct Response {
    pub response_type: ResponseType,
    pub title: String,
    pub contents: String,
}

impl Response {
    pub fn new_error(title: String, contents: String) -> (r: Response)
        ensures
            r.response_type == ResponseType::Error,
            r.title == title,
            r.contents == contents,
    {
        Response { response_type: ResponseType::Error, title, contents }
    }

    pub fn new_success(title: String, contents: String) -> (r: Response)
        ensures
            r.response_type == ResponseType::Success,
            r.title == title,
            r.contents == contents,
    {
        Response { response_type: ResponseType::Success, title, contents }
    }

    pub fn new_warning(title: String, contents: String) -> (r: Response)
        ensures
            r.response_type == ResponseType::Warning,
            r.title == title,
            r.contents == contents,
    {
        Response { response_type: ResponseType::Warning, title, contents }
    }
}

} // verus!

//! The failures a request can end in, and what the client is told of them.

use crate::response::{html_page, Page, PageView, Response, ResponseView};
use vstd::prelude::*;

verus! {

/// A request that could not be answered with the page it asked for.
#[derive(Debug, Clone, Copy, PartialEq, Eq, Structural)]
pub enum Error {
    /// A missing static asset or an unmatched route.
    NotFound,
    /// Anything that went wrong on the server's side.
    InternalError,
}

/// The error page for an error: its status code, and the code and the
/// message on the page.
pub open spec fn error_page(error: Error) -> ResponseView {
    html_page(
        error.status(),
        PageView::Failure { code: error.status(), text: error.explanation() },
    )
}

impl Error {
    /// The HTTP status code of the error.
    pub open spec fn status(self) -> int {
        match self {
            Error::NotFound => 404,
            Error::InternalError => 500,
        }
    }

    /// What the error page says. Nothing of the cause is told.
    pub open spec fn explanation(self) -> Seq<char> {
        match self {
            Error::NotFound => "The resource you requested could not be located."@,
            Error::InternalError => "Something went wrong."@,
        }
    }

    /// The error that a refused request stands for: a refusal for want of
    /// a matching route is not-found, every other one an internal error.
    pub fn of_rejection(not_found: bool) -> (error: Error)
        ensures
            error == (if not_found {
                Error::NotFound
            } else {
                Error::InternalError
            }),
    {
        if not_found {
            Error::NotFound
        } else {
            Error::InternalError
        }
    }

    /// The HTTP status code of the error.
    pub fn status_code(self) -> (code: u16)
        ensures
            code == self.status(),
    {
        match self {
            Error::NotFound => 404,
            Error::InternalError => 500,
        }
    }

    /// What the error page says.
    pub fn message(self) -> (message: &'static str)
        ensures
            message@ == self.explanation(),
    {
        match self {
            Error::NotFound => "The resource you requested could not be located.",
            Error::InternalError => "Something went wrong.",
        }
    }

    /// The error page.
    pub fn into_response(self) -> (response: Response)
        ensures
            response@ == error_page(self),
    {
        let code = self.status_code();
        Response::html(code, Page::Failure { code, text: self.message().to_owned() })
    }
}

/// The error page for a request that the routes refused.
pub fn customize_error(not_found: bool) -> (response: Response)
    ensures
        response@ == error_page(
            if not_found {
                Error::NotFound
            } else {
                Error::InternalError
            },
        ),
{
    Error::of_rejection(not_found).into_response()
}

} // verus!

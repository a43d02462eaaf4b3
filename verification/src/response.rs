//! What a handler answers with: the status, the headers that matter and
//! the page to render. Rendering and sending are the caller's business.

use vstd::prelude::*;

verus! {

/// The page that a response shows.
#[derive(Debug, Clone, PartialEq, Eq)]
pub enum Page {
    /// An empty line, as sent with a redirect.
    Blank,
    /// The login form, with a message if an attempt has failed.
    Login { message: Option<String> },
    /// The signup form, with a message if an attempt has failed.
    Signup { message: Option<String> },
    /// The home page, with its numbered paragraphs.
    Home { paras: Vec<(String, usize)> },
    /// An error page.
    Failure { code: u16, text: String },
    /// The bytes of a static asset.
    Asset { content: Vec<u8> },
}

/// The mathematical value of a [`Page`].
pub enum PageView {
    Blank,
    Login { message: Option<Seq<char>> },
    Signup { message: Option<Seq<char>> },
    Home { paras: Seq<(Seq<char>, int)> },
    Failure { code: int, text: Seq<char> },
    Asset { content: Seq<u8> },
}

/// The value of an optional text.
pub open spec fn text_view(text: Option<String>) -> Option<Seq<char>> {
    match text {
        Some(t) => Some(t@),
        None => None,
    }
}

impl View for Page {
    type V = PageView;

    open spec fn view(&self) -> PageView {
        match *self {
            Page::Blank => PageView::Blank,
            Page::Login { message } => PageView::Login { message: text_view(message) },
            Page::Signup { message } => PageView::Signup { message: text_view(message) },
            Page::Home { paras } => PageView::Home {
                paras: paras@.map_values(|p: (String, usize)| (p.0@, p.1 as int)),
            },
            Page::Failure { code, text } => PageView::Failure { code: code as int, text: text@ },
            Page::Asset { content } => PageView::Asset { content: content@ },
        }
    }
}

/// A response, before it is rendered.
#[derive(Debug, Clone, PartialEq, Eq)]
pub struct Response {
    /// The HTTP status code.
    pub status: u16,
    /// The `Location` header, if the response redirects.
    pub location: Option<String>,
    /// The `Set-Cookie` header, if the response sets or expires a cookie.
    pub set_cookie: Option<String>,
    /// The `Content-Type` header.
    pub content_type: String,
    /// What to show.
    pub page: Page,
}

/// The mathematical value of a [`Response`].
pub struct ResponseView {
    pub status: int,
    pub location: Option<Seq<char>>,
    pub set_cookie: Option<Seq<char>>,
    pub content_type: Seq<char>,
    pub page: PageView,
}

impl View for Response {
    type V = ResponseView;

    open spec fn view(&self) -> ResponseView {
        ResponseView {
            status: self.status as int,
            location: text_view(self.location),
            set_cookie: text_view(self.set_cookie),
            content_type: self.content_type@,
            page: self.page@,
        }
    }
}

/// The content type of a rendered page.
pub open spec fn html_type() -> Seq<char> {
    "text/html; charset=utf-8"@
}

/// A rendered page under a status code, without further headers.
pub open spec fn html_page(status: int, page: PageView) -> ResponseView {
    ResponseView { status, location: None, set_cookie: None, content_type: html_type(), page }
}

/// A redirect to the home page, with a `Set-Cookie` header if one is
/// given.
pub open spec fn redirect_home(set_cookie: Option<Seq<char>>) -> ResponseView {
    ResponseView {
        status: 302,
        location: Some("/"@),
        set_cookie,
        content_type: html_type(),
        page: PageView::Blank,
    }
}

impl Response {
    /// A rendered page under a status code, without further headers.
    pub fn html(status: u16, page: Page) -> (response: Response)
        ensures
            response@ == html_page(status as int, page@),
    {
        Response {
            status,
            location: None,
            set_cookie: None,
            content_type: "text/html; charset=utf-8".to_owned(),
            page,
        }
    }

    /// A redirect to the home page, with a `Set-Cookie` header if one is
    /// given.
    pub fn redirect(set_cookie: Option<String>) -> (response: Response)
        ensures
            response@ == redirect_home(text_view(set_cookie)),
    {
        Response {
            status: 302,
            location: Some("/".to_owned()),
            set_cookie,
            content_type: "text/html; charset=utf-8".to_owned(),
            page: Page::Blank,
        }
    }
}

} // verus!

//! Routing of the demonstration web server's requests.
use vstd::prelude::*;

use crate::text::has_prefix;

verus! {

/// The request line that asks for the home page.
pub open spec fn home_request() -> Seq<char> {
    "GET / HTTP/1.1\r\n"@
}

/// The request line that asks for the home page after a pause.
pub open spec fn slow_request() -> Seq<char> {
    "GET /sleep HTTP/1.1\r\n"@
}

/// What the server does with a request.
#[derive(Clone, Copy, Debug, PartialEq, Eq, Structural)]
pub enum Route {
    /// Serve the home page.
    Home,
    /// Pause, then serve the home page.
    SlowHome,
    /// Serve the not-found page.
    NotFound,
}

/// The route of a request that begins as `request`.
pub open spec fn route_of(request: Seq<char>) -> Route {
    if home_request().is_prefix_of(request) {
        Route::Home
    } else if slow_request().is_prefix_of(request) {
        Route::SlowHome
    } else {
        Route::NotFound
    }
}

/// Chooses the route of a request from its first bytes, read as text.
pub fn route(request: &str) -> (r: Route)
    ensures
        r == route_of(request@),
{
    if has_prefix(request, "GET / HTTP/1.1\r\n") {
        Route::Home
    } else if has_prefix(request, "GET /sleep HTTP/1.1\r\n") {
        Route::SlowHome
    } else {
        Route::NotFound
    }
}

/// The status line that answers a request on route `r`.
pub open spec fn status_line_of(r: Route) -> Seq<char> {
    match r {
        Route::NotFound => "HTTP/1.1 404 NOT FOUND\r\n\r\n"@,
        _ => "HTTP/1.1 200 OK\r\n\r\n"@,
    }
}

/// The file whose contents answer a request on route `r`.
pub open spec fn page_of(r: Route) -> Seq<char> {
    match r {
        Route::NotFound => "html/404.html"@,
        _ => "html/hello.html"@,
    }
}

impl Route {
    /// The status line of the response.
    pub fn status_line(self) -> (r: &'static str)
        ensures
            r@ == status_line_of(self),
    {
        match self {
            Route::NotFound => "HTTP/1.1 404 NOT FOUND\r\n\r\n",
            _ => "HTTP/1.1 200 OK\r\n\r\n",
        }
    }

    /// The path of the page that makes up the response body.
    pub fn page(self) -> (r: &'static str)
        ensures
            r@ == page_of(self),
    {
        match self {
            Route::NotFound => "html/404.html",
            _ => "html/hello.html",
        }
    }

    /// Whether the server pauses before answering.
    pub fn pauses(self) -> (r: bool)
        ensures
            r == (self == Route::SlowHome),
    {
        match self {
            Route::SlowHome => true,
            _ => false,
        }
    }
}

} // verus!

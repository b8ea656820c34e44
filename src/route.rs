use vstd::prelude::*;

verus! {

/// The page that answers a request line.
#[derive(Clone, Copy, Debug, PartialEq, Eq, Structural)]
pub enum Route {
    /// `GET /`: the greeting page.
    Hello,
    /// `GET /sleep`: the greeting page, after a pause.
    SlowHello,
    /// Anything else.
    NotFound,
}

pub open spec fn route_of(line: Seq<char>) -> Route {
    if line == "GET / HTTP/1.1"@ {
        Route::Hello
    } else if line == "GET /sleep HTTP/1.1"@ {
        Route::SlowHello
    } else {
        Route::NotFound
    }
}

/// Picks the page for a request line, given without its line ending.
pub fn route(line: &str) -> (r: Route)
    ensures
        r == route_of(line@),
{
    let l = line.to_owned();
    if l == "GET / HTTP/1.1".to_owned() {
        Route::Hello
    } else if l == "GET /sleep HTTP/1.1".to_owned() {
        Route::SlowHello
    } else {
        Route::NotFound
    }
}

impl Route {
    /// The status line of the response.
    pub fn status_line(&self) -> (r: &'static str)
        ensures
            *self != Route::NotFound ==> r@ == "HTTP/1.1 200 OK"@,
            *self == Route::NotFound ==> r@ == "HTTP/1.1 404 NOT FOUND"@,
    {
        match self {
            Route::NotFound => "HTTP/1.1 404 NOT FOUND",
            _ => "HTTP/1.1 200 OK",
        }
    }

    /// The file whose contents make the response body.
    pub fn filename(&self) -> (r: &'static str)
        ensures
            *self != Route::NotFound ==> r@ == "hello.html"@,
            *self == Route::NotFound ==> r@ == "404.html"@,
    {
        match self {
            Route::NotFound => "404.html",
            _ => "hello.html",
        }
    }

    /// How long to pause before answering, in milliseconds.
    pub fn pause_ms(&self) -> (r: u64)
        ensures
            *self == Route::SlowHello ==> r == 500,
            *self != Route::SlowHello ==> r == 0,
    {
        match self {
            Route::SlowHello => 500,
            _ => 0,
        }
    }
}

} // verus!

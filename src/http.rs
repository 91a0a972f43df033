use vstd::prelude::*;
use vstd::string::StringSliceAdditionalSpecFns;

verus! {

/// What the demo server does with a request, chosen by its first line.
#[derive(Clone, Copy, Debug, PartialEq, Eq, Structural)]
pub enum Route {
    /// `GET / HTTP/1.1`: a greeting.
    Index,
    /// `GET /sleep HTTP/1.1`: a greeting after a pause.
    Sleep,
    /// Anything else.
    NotFound,
}

/// The route of a request whose first line has the bytes `line`.
pub open spec fn route_of(line: Seq<u8>) -> Route {
    if line == "GET / HTTP/1.1".spec_bytes() {
        Route::Index
    } else if line == "GET /sleep HTTP/1.1".spec_bytes() {
        Route::Sleep
    } else {
        Route::NotFound
    }
}

/// The bytes of the status line answered for `r`.
pub open spec fn status_bytes(r: Route) -> Seq<u8> {
    match r {
        Route::Index => "HTTP/1.1 200 OK".spec_bytes(),
        Route::Sleep => "HTTP/1.1 200 OK".spec_bytes(),
        Route::NotFound => "HTTP/1.1 404 Not Found".spec_bytes(),
    }
}

/// The bytes of the body answered for `r`.
pub open spec fn content_bytes(r: Route) -> Seq<u8> {
    match r {
        Route::Index => "Hello\r\n".spec_bytes(),
        Route::Sleep => "I'm awake!\r\n".spec_bytes(),
        Route::NotFound => "Not found!\r\n".spec_bytes(),
    }
}

/// The decimal digits of `n`, most significant first, as ASCII bytes.
pub open spec fn decimal_of(n: nat) -> Seq<u8>
    decreases n,
{
    if n < 10 {
        seq![(48 + n) as u8]
    } else {
        decimal_of(n / 10).push((48 + n % 10) as u8)
    }
}

/// The bytes of a response with status line `status` and body `content`.
pub open spec fn response_of(status: Seq<u8>, content: Seq<u8>) -> Seq<u8> {
    status + "\r\nContent-Length: ".spec_bytes() + decimal_of(content.len()) + "\r\n\r\n".spec_bytes()
        + content
}

/// Whether two byte slices hold the same bytes.
pub fn bytes_equal(a: &[u8], b: &[u8]) -> (r: bool)
    ensures
        r == (a@ == b@),
{
    if a.len() != b.len() {
        return false;
    }
    let mut i: usize = 0;
    while i < a.len()
        invariant
            a@.len() == b@.len(),
            i <= a@.len(),
            forall|k: int| 0 <= k < i ==> a@[k] == b@[k],
        decreases a@.len() - i,
    {
        if a[i] != b[i] {
            return false;
        }
        i = i + 1;
    }
    assert(a@ =~= b@);
    true
}

/// Picks the route for the request whose first line is `request_line`.
pub fn route(request_line: &str) -> (r: Route)
    ensures
        r == route_of(request_line.spec_bytes()),
{
    let line = request_line.as_bytes();
    if bytes_equal(line, "GET / HTTP/1.1".as_bytes()) {
        Route::Index
    } else if bytes_equal(line, "GET /sleep HTTP/1.1".as_bytes()) {
        Route::Sleep
    } else {
        Route::NotFound
    }
}

impl Route {
    /// The status line of the response.
    pub fn status(&self) -> (r: &'static str)
        ensures
            r.spec_bytes() == status_bytes(*self),
    {
        match self {
            Route::Index => "HTTP/1.1 200 OK",
            Route::Sleep => "HTTP/1.1 200 OK",
            Route::NotFound => "HTTP/1.1 404 Not Found",
        }
    }

    /// The body of the response.
    pub fn content(&self) -> (r: &'static str)
        ensures
            r.spec_bytes() == content_bytes(*self),
    {
        match self {
            Route::Index => "Hello\r\n",
            Route::Sleep => "I'm awake!\r\n",
            Route::NotFound => "Not found!\r\n",
        }
    }

    /// Whether the server pauses before answering.
    pub fn sleeps(&self) -> (r: bool)
        ensures
            r == (*self == Route::Sleep),
    {
        match self {
            Route::Sleep => true,
            _ => false,
        }
    }

    /// The full response for this route.
    pub fn response(&self) -> (r: Vec<u8>)
        ensures
            r@ == response_of(status_bytes(*self), content_bytes(*self)),
    {
        render_response(self.status(), self.content())
    }
}

/// Appends the bytes of `b` to `out`.
fn append_bytes(out: &mut Vec<u8>, b: &[u8])
    ensures
        final(out)@ == old(out)@ + b@,
{
    let mut i: usize = 0;
    while i < b.len()
        invariant
            i <= b@.len(),
            out@ == old(out)@ + b@.subrange(0, i as int),
        decreases b@.len() - i,
    {
        out.push(b[i]);
        i = i + 1;
        assert(b@.subrange(0, i as int) =~= b@.subrange(0, i - 1).push(b@[i - 1]));
    }
    assert(b@.subrange(0, b@.len() as int) =~= b@);
}

/// Appends the decimal digits of `n` to `out`.
fn append_decimal(out: &mut Vec<u8>, n: usize)
    ensures
        final(out)@ == old(out)@ + decimal_of(n as nat),
    decreases n,
{
    if n >= 10 {
        append_decimal(out, n / 10);
    }
    out.push((48 + n % 10) as u8);
    assert(out@ =~= old(out)@ + decimal_of(n as nat));
}

/// A response: the status line, a `Content-Length` header giving the body's
/// length in bytes, a blank line, then the body.
pub fn render_response(status: &str, content: &str) -> (r: Vec<u8>)
    ensures
        r@ == response_of(status.spec_bytes(), content.spec_bytes()),
{
    let body = content.as_bytes();
    let mut out: Vec<u8> = Vec::new();
    append_bytes(&mut out, status.as_bytes());
    append_bytes(&mut out, "\r\nContent-Length: ".as_bytes());
    append_decimal(&mut out, body.len());
    append_bytes(&mut out, "\r\n\r\n".as_bytes());
    append_bytes(&mut out, body);
    out
}

} // verus!

//! The unit of work the accompanying web server hands the pool: deciding,
//! from the first bytes of a request, which page and status line to serve,
//! and assembling the response text.
//!
//! Reading the request, loading the page from disk and writing the response
//! back are plain I/O and stay with the caller; everything decided here is
//! specified exactly over sequences of characters.

use vstd::prelude::*;
use vstd::string::StrSliceExecFns;
use vstd::string::StringExecFns;

verus! {

/// Holds when `text` begins with `prefix`.
pub open spec fn spec_starts_with(text: Seq<char>, prefix: Seq<char>) -> bool {
    prefix.len() <= text.len() && text.subrange(0, prefix.len() as int) == prefix
}

/// Whether `text` begins with `prefix`, decided character by character.
pub fn starts_with(text: &str, prefix: &str) -> (r: bool)
    ensures
        r == spec_starts_with(text@, prefix@),
{
    let n = prefix.unicode_len();
    if text.unicode_len() < n {
        return false;
    }
    let mut i: usize = 0;
    while i < n
        invariant
            i <= n,
            n == prefix@.len(),
            n <= text@.len(),
            forall|j: int| 0 <= j < i ==> text@[j] == prefix@[j],
        decreases n - i,
    {
        if text.get_char(i) != prefix.get_char(i) {
            assert(!spec_starts_with(text@, prefix@)) by {
                assert(text@[i as int] != prefix@[i as int]);
            }
            return false;
        }
        i = i + 1;
    }
    proof {
        assert(text@.subrange(0, n as int) =~= prefix@);
    }
    true
}

/// The three requests the server tells apart.
#[derive(Clone, Copy, Debug, PartialEq, Eq, Structural)]
pub enum Route {
    /// A plain `GET` of the root page.
    Root,
    /// A `GET` of the root page on the path that asks the worker to dawdle
    /// before answering, to make the pool's parallelism observable.
    Sleep,
    /// Anything else.
    NotFound,
}

/// The route a request line selects: the two recognized request prefixes, in
/// the order they are tried, and `NotFound` for everything else.
pub open spec fn spec_route(request: Seq<char>) -> Route {
    if spec_starts_with(request, "GET / HTTP/1.1\r\n"@) {
        Route::Root
    } else if spec_starts_with(request, "GET /sleep HTTP/1.1\r\n"@) {
        Route::Sleep
    } else {
        Route::NotFound
    }
}

/// Decides which route the request selects.
pub fn route(request: &str) -> (r: Route)
    ensures
        r == spec_route(request@),
{
    if starts_with(request, "GET / HTTP/1.1\r\n") {
        Route::Root
    } else if starts_with(request, "GET /sleep HTTP/1.1\r\n") {
        Route::Sleep
    } else {
        Route::NotFound
    }
}

impl Route {
    /// The page served for this route.
    pub open spec fn spec_file_name(&self) -> Seq<char> {
        match *self {
            Route::Root => "index.html"@,
            Route::Sleep => "index.html"@,
            Route::NotFound => "404.html"@,
        }
    }

    /// The status line sent for this route.
    pub open spec fn spec_status_line(&self) -> Seq<char> {
        match *self {
            Route::Root => "200 OK"@,
            Route::Sleep => "200 OK"@,
            Route::NotFound => "404 NOT FOUND"@,
        }
    }

    /// The name of the file whose contents answer this route.
    pub fn file_name(&self) -> (r: &'static str)
        ensures
            r@ == self.spec_file_name(),
    {
        match *self {
            Route::Root => "index.html",
            Route::Sleep => "index.html",
            Route::NotFound => "404.html",
        }
    }

    /// The status line for this route.
    pub fn status_line(&self) -> (r: &'static str)
        ensures
            r@ == self.spec_status_line(),
    {
        match *self {
            Route::Root => "200 OK",
            Route::Sleep => "200 OK",
            Route::NotFound => "404 NOT FOUND",
        }
    }
}

/// The character for one decimal digit.
pub open spec fn spec_digit(d: nat) -> char {
    if d == 0 {
        '0'
    } else if d == 1 {
        '1'
    } else if d == 2 {
        '2'
    } else if d == 3 {
        '3'
    } else if d == 4 {
        '4'
    } else if d == 5 {
        '5'
    } else if d == 6 {
        '6'
    } else if d == 7 {
        '7'
    } else if d == 8 {
        '8'
    } else {
        '9'
    }
}

/// The usual decimal numeral for `n`: no sign, and no leading zero except on
/// zero itself.
pub open spec fn spec_decimal(n: nat) -> Seq<char>
    decreases n,
{
    if n < 10 {
        seq![spec_digit(n)]
    } else {
        spec_decimal(n / 10) + seq![spec_digit(n % 10)]
    }
}

/// One decimal digit as a string slice.
fn digit_str(d: usize) -> (r: &'static str)
    requires
        d < 10,
    ensures
        r@ =~= seq![spec_digit(d as nat)],
{
    proof {
        reveal_strlit("0");
        reveal_strlit("1");
        reveal_strlit("2");
        reveal_strlit("3");
        reveal_strlit("4");
        reveal_strlit("5");
        reveal_strlit("6");
        reveal_strlit("7");
        reveal_strlit("8");
        reveal_strlit("9");
    }
    if d == 0 {
        "0"
    } else if d == 1 {
        "1"
    } else if d == 2 {
        "2"
    } else if d == 3 {
        "3"
    } else if d == 4 {
        "4"
    } else if d == 5 {
        "5"
    } else if d == 6 {
        "6"
    } else if d == 7 {
        "7"
    } else if d == 8 {
        "8"
    } else {
        "9"
    }
}

/// Renders `n` in decimal.
pub fn decimal_string(n: usize) -> (r: String)
    ensures
        r@ == spec_decimal(n as nat),
    decreases n,
{
    if n < 10 {
        String::from_str(digit_str(n))
    } else {
        proof {
            assert(n / 10 < n) by (nonlinear_arith)
                requires
                    n >= 10,
            ;
        }
        let mut prefix = decimal_string(n / 10);
        prefix.append(digit_str(n % 10));
        prefix
    }
}

/// The full response for a status line, a body length and a page body: the
/// protocol tag, the status line, a `Content-Length` header carrying `length`
/// in decimal, a blank line, and the page.
pub open spec fn spec_response(status: Seq<char>, length: nat, page: Seq<char>) -> Seq<char> {
    "HTTP/1.1 "@ + status + "\r\nContent-Length: "@ + spec_decimal(length) + "\r\n\r\n"@
        + page
}

/// Assembles the response text for a status line and a page body.
///
/// `Content-Length` must carry the body's length in bytes, which a sequence
/// of characters cannot tell; the caller supplies it as `length`, the page's
/// byte count.
pub fn build_response(status: &str, length: usize, page: &str) -> (r: String)
    ensures
        r@ == spec_response(status@, length as nat, page@),
{
    let mut r = String::from_str("HTTP/1.1 ");
    r.append(status);
    r.append("\r\nContent-Length: ");
    let digits = decimal_string(length);
    r.append(digits.as_str());
    r.append("\r\n\r\n");
    r.append(page);
    proof {
        assert(r@ =~= spec_response(status@, length as nat, page@));
    }
    r
}

} // verus!

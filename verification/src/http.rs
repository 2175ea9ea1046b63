//! The pure compute of the HTTP front end that feeds the pool.
//!
//! The front end reads one request line per connection, maps it through a
//! fixed three-way table to a status, a file and an optional artificial
//! delay, and writes back a minimal status-line + Content-Length + body
//! response.  The mapping and the response assembly are plain functions on
//! strings and are verified here; reading the line, sleeping, loading the
//! file and writing the bytes are left to the caller.

use vstd::prelude::*;

verus! {

/// Compares two strings character by character.
pub fn str_eq(a: &str, b: &str) -> (r: bool)
    ensures
        r == (a@ == b@),
{
    let alen = a.unicode_len();
    let blen = b.unicode_len();
    if alen != blen {
        return false;
    }
    let mut i: usize = 0;
    while i < alen
        invariant
            alen == a@.len(),
            alen == b@.len(),
            i <= alen,
            forall|k: int| 0 <= k < i ==> a@[k] == b@[k],
        decreases alen - i,
    {
        if a.get_char(i) != b.get_char(i) {
            return false;
        }
        i += 1;
    }
    proof {
        assert(a@ =~= b@);
    }
    true
}

/// Which file a response serves.
#[derive(Debug, PartialEq, Eq, Structural, Clone, Copy)]
pub enum Resource {
    /// The home page.
    HomePage,
    /// The not-found page.
    MissingPage,
}

/// The decision for one request line: which status to answer, which file to
/// serve, and whether to insert an artificial delay first.
#[derive(Debug, PartialEq, Eq, Structural, Clone, Copy)]
pub struct Route {
    /// The numeric status of the answer.
    pub status: u16,
    /// The file whose contents form the body.
    pub resource: Resource,
    /// Whether to pause before answering.
    pub delay: bool,
}

/// The fixed three-way request table: the home path is served the home page,
/// the sleep path is served the home page after a delay, and anything else
/// is answered with a not-found status and the not-found page.
pub open spec fn spec_route(line: Seq<char>) -> Route {
    if line == "GET / HTTP/1.1"@ {
        Route { status: 200, resource: Resource::HomePage, delay: false }
    } else if line == "GET /sleep HTTP/1.1"@ {
        Route { status: 200, resource: Resource::HomePage, delay: true }
    } else {
        Route { status: 404, resource: Resource::MissingPage, delay: false }
    }
}

/// Maps one request line through the fixed three-way table.
pub fn route(line: &str) -> (r: Route)
    ensures
        r == spec_route(line@),
{
    if str_eq(line, "GET / HTTP/1.1") {
        Route { status: 200, resource: Resource::HomePage, delay: false }
    } else if str_eq(line, "GET /sleep HTTP/1.1") {
        Route { status: 200, resource: Resource::HomePage, delay: true }
    } else {
        Route { status: 404, resource: Resource::MissingPage, delay: false }
    }
}

/// The status line answering with `status`.
pub open spec fn spec_status_line(status: u16) -> Seq<char> {
    if status == 200 {
        "HTTP/1.1 200 OK"@
    } else {
        "HTTP/1.1 404 NOT FOUND"@
    }
}

/// The file name serving `resource`.
pub open spec fn spec_file_name(resource: Resource) -> Seq<char> {
    match resource {
        Resource::HomePage => "index.html"@,
        Resource::MissingPage => "404.html"@,
    }
}

impl Route {
    /// The status line this route answers with.
    pub fn status_line(&self) -> (s: &'static str)
        ensures
            s@ == spec_status_line(self.status),
    {
        if self.status == 200 {
            "HTTP/1.1 200 OK"
        } else {
            "HTTP/1.1 404 NOT FOUND"
        }
    }

    /// The name of the file whose contents this route serves.
    pub fn file_name(&self) -> (s: &'static str)
        ensures
            s@ == spec_file_name(self.resource),
    {
        match self.resource {
            Resource::HomePage => "index.html",
            Resource::MissingPage => "404.html",
        }
    }
}

/// The character for one decimal digit.
pub open spec fn digit_char(d: nat) -> char
    recommends
        d < 10,
{
    if d == 0 {
        '0'
    } else if d == 1 {
        '1'
    } else if d == 2 {
        '2'
    } else if d == 3 {
        '3'
    } else if d == 4 {
        '4'
    } else if d == 5 {
        '5'
    } else if d == 6 {
        '6'
    } else if d == 7 {
        '7'
    } else if d == 8 {
        '8'
    } else {
        '9'
    }
}

/// The decimal digits of `n`, most significant first, without leading zeros
/// (a single zero for `n == 0`).
pub open spec fn spec_decimal(n: nat) -> Seq<char>
    decreases n,
{
    if n < 10 {
        seq![digit_char(n)]
    } else {
        spec_decimal(n / 10).push(digit_char(n % 10))
    }
}

/// The one-character string for a decimal digit.
fn digit_str(d: usize) -> (s: &'static str)
    requires
        d < 10,
    ensures
        s@ == seq![digit_char(d as nat)],
{
    proof {
        reveal_strlit("0");
        reveal_strlit("1");
        reveal_strlit("2");
        reveal_strlit("3");
        reveal_strlit("4");
        reveal_strlit("5");
        reveal_strlit("6");
        reveal_strlit("7");
        reveal_strlit("8");
        reveal_strlit("9");
    }
    let s: &'static str = if d == 0 {
        "0"
    } else if d == 1 {
        "1"
    } else if d == 2 {
        "2"
    } else if d == 3 {
        "3"
    } else if d == 4 {
        "4"
    } else if d == 5 {
        "5"
    } else if d == 6 {
        "6"
    } else if d == 7 {
        "7"
    } else if d == 8 {
        "8"
    } else {
        "9"
    };
    proof {
        assert(s@ =~= seq![digit_char(d as nat)]);
    }
    s
}

/// Renders `n` in decimal.
pub fn decimal_string(n: usize) -> (s: String)
    ensures
        s@ == spec_decimal(n as nat),
    decreases n,
{
    if n < 10 {
        let mut s = String::new();
        s.append(digit_str(n));
        proof {
            assert(s@ =~= spec_decimal(n as nat));
        }
        s
    } else {
        let mut s = decimal_string(n / 10);
        s.append(digit_str(n % 10));
        proof {
            assert(s@ =~= spec_decimal(n as nat));
        }
        s
    }
}

/// The full response text: status line, a Content-Length header giving the
/// body's length in bytes, a blank line, then the body.
pub open spec fn spec_response(status_line: Seq<char>, body: Seq<char>) -> Seq<char> {
    status_line + "\r\nContent-Length: "@ + spec_decimal(vstd::utf8::encode_utf8(body).len())
        + "\r\n\r\n"@ + body
}

/// Assembles the response for one already-routed request.
pub fn build_response(status_line: &str, body: &str) -> (r: String)
    ensures
        r@ == spec_response(status_line@, body@),
{
    let mut r = String::from_str(status_line);
    r.append("\r\nContent-Length: ");
    let bytes = body.as_bytes();
    let len_str = decimal_string(bytes.len());
    r.append(len_str.as_str());
    r.append("\r\n\r\n");
    r.append(body);
    proof {
        assert(bytes@ == vstd::utf8::encode_utf8(body@));
        assert(r@ =~= spec_response(status_line@, body@));
    }
    r
}

} // verus!

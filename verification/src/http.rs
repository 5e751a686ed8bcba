//! The pure half of connection handling: mapping a request line to a
//! canned status, file name and artificial delay, and assembling the
//! response text a worker writes back. Reading the request and writing
//! the response are the caller's business; everything here is computation
//! on plain strings.

use vstd::prelude::*;

verus! {

use vstd::string::StrSliceExecFns;
use vstd::string::StringExecFns;
use vstd::string::StringSliceAdditionalSpecFns;

/// The status a request line maps to.
#[derive(Clone, Copy, Debug, PartialEq, Eq, Structural)]
pub enum Status {
    Okay,
    NotFound,
}

/// Where a request line leads: the response status, and how many seconds
/// the handler stalls first (the recognized slow path only).
#[derive(Clone, Copy, Debug, PartialEq, Eq, Structural)]
pub struct Route {
    pub status: Status,
    pub delay_secs: u64,
}

/// The route each request line maps to: the root path is served as found,
/// the slow path is served as found after a five-second stall, and any
/// other line is answered not-found.
pub open spec fn spec_route(line: Seq<char>) -> Route {
    if line == "GET / HTTP/1.1"@ {
        Route { status: Status::Okay, delay_secs: 0 }
    } else if line == "GET /sleep HTTP/1.1"@ {
        Route { status: Status::Okay, delay_secs: 5 }
    } else {
        Route { status: Status::NotFound, delay_secs: 0 }
    }
}

/// The status line sent for each status.
pub open spec fn spec_status_line(s: Status) -> Seq<char> {
    match s {
        Status::Okay => "HTTP/1.1 200 OK"@,
        Status::NotFound => "HTTP/1.1 404 NOT FOUND"@,
    }
}

/// The file served for each status.
pub open spec fn spec_file_name(s: Status) -> Seq<char> {
    match s {
        Status::Okay => "index.html"@,
        Status::NotFound => "404.html"@,
    }
}

/// Character-by-character string equality, decided without assuming
/// anything about the contents of either side.
pub fn str_eq(a: &str, b: &str) -> (r: bool)
    ensures
        r == (a@ == b@),
{
    let alen = a.unicode_len();
    let blen = b.unicode_len();
    if alen != blen {
        return false;
    }
    let mut i: usize = 0;
    while i < alen
        invariant
            i <= alen,
            alen == a@.len(),
            alen == b@.len(),
            forall|k: int| 0 <= k < i ==> a@[k] == b@[k],
        decreases alen - i,
    {
        if a.get_char(i) != b.get_char(i) {
            return false;
        }
        i = i + 1;
    }
    proof {
        assert(a@ =~= b@);
    }
    true
}

/// Maps a request line to its route, exactly as `spec_route` says.
pub fn route(line: &str) -> (r: Route)
    ensures
        r == spec_route(line@),
{
    if str_eq(line, "GET / HTTP/1.1") {
        Route { status: Status::Okay, delay_secs: 0 }
    } else if str_eq(line, "GET /sleep HTTP/1.1") {
        Route { status: Status::Okay, delay_secs: 5 }
    } else {
        Route { status: Status::NotFound, delay_secs: 0 }
    }
}

/// Returns the status line for `s`.
pub fn status_line(s: Status) -> (r: &'static str)
    ensures
        r@ == spec_status_line(s),
{
    match s {
        Status::Okay => "HTTP/1.1 200 OK",
        Status::NotFound => "HTTP/1.1 404 NOT FOUND",
    }
}

/// Returns the name of the file served for `s`.
pub fn file_name(s: Status) -> (r: &'static str)
    ensures
        r@ == spec_file_name(s),
{
    match s {
        Status::Okay => "index.html",
        Status::NotFound => "404.html",
    }
}

/// The digit character for a value below ten.
pub open spec fn spec_digit(d: nat) -> char {
    if d == 0 {
        '0'
    } else if d == 1 {
        '1'
    } else if d == 2 {
        '2'
    } else if d == 3 {
        '3'
    } else if d == 4 {
        '4'
    } else if d == 5 {
        '5'
    } else if d == 6 {
        '6'
    } else if d == 7 {
        '7'
    } else if d == 8 {
        '8'
    } else {
        '9'
    }
}

/// The decimal rendering of `n`, most significant digit first, with no
/// leading zero except for `n == 0` itself.
pub open spec fn spec_decimal(n: nat) -> Seq<char>
    decreases n,
{
    if n < 10 {
        seq![spec_digit(n)]
    } else {
        spec_decimal(n / 10).push(spec_digit(n % 10))
    }
}

/// The one-character string for a digit value.
fn digit_str(d: u64) -> (r: &'static str)
    requires
        d < 10,
    ensures
        r@ == seq![spec_digit(d as nat)],
{
    let r: &'static str = if d == 0 {
        proof {
            reveal_strlit("0");
        }
        "0"
    } else if d == 1 {
        proof {
            reveal_strlit("1");
        }
        "1"
    } else if d == 2 {
        proof {
            reveal_strlit("2");
        }
        "2"
    } else if d == 3 {
        proof {
            reveal_strlit("3");
        }
        "3"
    } else if d == 4 {
        proof {
            reveal_strlit("4");
        }
        "4"
    } else if d == 5 {
        proof {
            reveal_strlit("5");
        }
        "5"
    } else if d == 6 {
        proof {
            reveal_strlit("6");
        }
        "6"
    } else if d == 7 {
        proof {
            reveal_strlit("7");
        }
        "7"
    } else if d == 8 {
        proof {
            reveal_strlit("8");
        }
        "8"
    } else {
        proof {
            reveal_strlit("9");
        }
        "9"
    };
    proof {
        assert(r@ =~= seq![spec_digit(d as nat)]);
    }
    r
}

/// Appends the decimal rendering of `n` to `out`.
fn push_decimal(out: &mut String, n: u64)
    ensures
        final(out)@ == old(out)@ + spec_decimal(n as nat),
    decreases n,
{
    if n < 10 {
        out.append(digit_str(n));
    } else {
        assert(n / 10 < n && n / 10 >= 1) by (nonlinear_arith)
            requires
                n >= 10,
        ;
        push_decimal(out, n / 10);
        out.append(digit_str(n % 10));
        proof {
            assert(old(out)@ + spec_decimal((n / 10) as nat) + seq![spec_digit((n % 10) as nat)]
                =~= old(out)@ + spec_decimal(n as nat));
        }
    }
}

/// Renders `n` in decimal.
pub fn u64_to_string(n: u64) -> (r: String)
    ensures
        r@ == spec_decimal(n as nat),
{
    let mut s = String::new();
    push_decimal(&mut s, n);
    proof {
        assert(Seq::<char>::empty() + spec_decimal(n as nat) =~= spec_decimal(n as nat));
    }
    s
}

/// The full response for a status and a body of `body_bytes` bytes: the
/// status line, a content-length header giving the body's byte length,
/// a blank line, then the body.
pub open spec fn spec_response(s: Status, body: Seq<char>, body_bytes: nat) -> Seq<char> {
    spec_status_line(s) + "\r\nContent-Length: "@ + spec_decimal(body_bytes) + "\r\n\r\n"@ + body
}

/// Assembles the response text for `status` with body `contents`.
pub fn build_response(status: Status, contents: &str) -> (r: String)
    ensures
        r@ == spec_response(status, contents@, contents.len() as nat),
{
    let mut r = String::from_str(status_line(status));
    r.append("\r\nContent-Length: ");
    let n = contents.len();
    push_decimal(&mut r, n as u64);
    r.append("\r\n\r\n");
    r.append(contents);
    proof {
        assert(r@ =~= spec_response(status, contents@, contents.len() as nat));
    }
    r
}

} // verus!

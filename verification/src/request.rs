//! Request parsing: the head of a request (everything the server reads from a
//! connection) is split into lines, the request line into method and path,
//! and each header line into a name and a value kept in arrival order.

use vstd::prelude::*;
use crate::bytes::{find_from, lemma_find_from, find_byte_from, subvec};

verus! {

pub const LF: u8 = 10;

pub const CR: u8 = 13;

pub const SPACE: u8 = 32;

pub const COLON: u8 = 58;

/// One header, split at the first colon of its line.
pub struct Header {
    pub name: Vec<u8>,
    pub value: Vec<u8>,
}

/// Mathematical model of a header.
#[verifier::ext_equal]
pub struct HeaderM {
    pub name: Seq<u8>,
    pub value: Seq<u8>,
}

pub open spec fn header_model(h: Header) -> HeaderM {
    HeaderM { name: h.name@, value: h.value@ }
}

pub open spec fn headers_model(hs: Seq<Header>) -> Seq<HeaderM> {
    hs.map_values(|h: Header| header_model(h))
}

/// A parsed request. Headers keep their arrival order; the body is the raw
/// remainder after the blank line, untouched.
pub struct Request {
    pub method: Vec<u8>,
    pub path: Vec<u8>,
    pub headers: Vec<Header>,
    pub body: Vec<u8>,
}

/// Mathematical model of a request.
#[verifier::ext_equal]
pub struct ReqM {
    pub method: Seq<u8>,
    pub path: Seq<u8>,
    pub headers: Seq<HeaderM>,
    pub body: Seq<u8>,
}

pub open spec fn request_model(r: Request) -> ReqM {
    ReqM {
        method: r.method@,
        path: r.path@,
        headers: headers_model(r.headers@),
        body: r.body@,
    }
}

/// The one malformed-request condition: the request line has no path token.
#[derive(Debug, Clone, Copy, PartialEq, Eq)]
pub enum ParseError {
    MissingPath,
}

/// Index just past the line that starts at `i`: one past its line feed, or
/// the end of the input for an unterminated final line.
pub open spec fn next_line_start(s: Seq<u8>, i: int) -> int {
    match find_from(s, LF, i) {
        Some(j) => j + 1,
        None => s.len() as int,
    }
}

/// Exclusive end of the text of the line that starts at `i`.
pub open spec fn line_end(s: Seq<u8>, i: int) -> int {
    match find_from(s, LF, i) {
        Some(j) => j,
        None => s.len() as int,
    }
}

/// Drops a final carriage return, so that CRLF and bare LF both end a line.
pub open spec fn strip_cr(l: Seq<u8>) -> Seq<u8> {
    if l.len() > 0 && l[l.len() - 1] == CR {
        l.drop_last()
    } else {
        l
    }
}

/// The text of the line that starts at `i`, without its line ending.
pub open spec fn line_at(s: Seq<u8>, i: int) -> Seq<u8> {
    strip_cr(s.subrange(i, line_end(s, i)))
}

/// Method and path of a request line: the method is everything before the
/// first space, the path runs from there to the next space or the end.
/// A line without any space has no path token.
pub open spec fn spec_request_line(l: Seq<u8>) -> Option<(Seq<u8>, Seq<u8>)> {
    match find_from(l, SPACE, 0) {
        None => None,
        Some(j) => {
            let path_end = match find_from(l, SPACE, j + 1) {
                Some(k) => k,
                None => l.len() as int,
            };
            Some((l.subrange(0, j), l.subrange(j + 1, path_end)))
        },
    }
}

/// Drops one leading space, the conventional separator after the colon.
pub open spec fn strip_leading_space(v: Seq<u8>) -> Seq<u8> {
    if v.len() > 0 && v[0] == SPACE {
        v.drop_first()
    } else {
        v
    }
}

/// A header line split at its first colon; a line without a colon keeps its
/// whole text as the name and has an empty value.
pub open spec fn spec_header_line(l: Seq<u8>) -> HeaderM {
    match find_from(l, COLON, 0) {
        None => HeaderM { name: l, value: Seq::empty() },
        Some(j) => HeaderM {
            name: l.subrange(0, j),
            value: strip_leading_space(l.subrange(j + 1, l.len() as int)),
        },
    }
}

/// The headers from `i` on, up to the blank line or the end of the input.
pub open spec fn spec_headers(s: Seq<u8>, i: int) -> Seq<HeaderM>
    decreases s.len() - i
    via spec_headers_decreases
{
    if i < 0 || i >= s.len() {
        Seq::empty()
    } else if line_at(s, i).len() == 0 {
        Seq::empty()
    } else {
        seq![spec_header_line(line_at(s, i))] + spec_headers(s, next_line_start(s, i))
    }
}

#[via_fn]
proof fn spec_headers_decreases(s: Seq<u8>, i: int) {
    if 0 <= i < s.len() {
        lemma_find_from(s, LF, i);
    }
}

/// Where the body starts: just past the blank line that ends the headers, or
/// the end of the input if no blank line arrives.
pub open spec fn spec_body_start(s: Seq<u8>, i: int) -> int
    decreases s.len() - i
    via spec_body_start_decreases
{
    if i < 0 || i >= s.len() {
        s.len() as int
    } else if line_at(s, i).len() == 0 {
        next_line_start(s, i)
    } else {
        spec_body_start(s, next_line_start(s, i))
    }
}

#[via_fn]
proof fn spec_body_start_decreases(s: Seq<u8>, i: int) {
    if 0 <= i < s.len() {
        lemma_find_from(s, LF, i);
    }
}

/// What parsing a head yields: nothing when the request line has no path
/// token, else the method, path, headers and raw body remainder.
pub open spec fn spec_parse(s: Seq<u8>) -> Option<ReqM> {
    match spec_request_line(line_at(s, 0)) {
        None => None,
        Some(mp) => Some(
            ReqM {
                method: mp.0,
                path: mp.1,
                headers: spec_headers(s, next_line_start(s, 0)),
                body: s.subrange(spec_body_start(s, next_line_start(s, 0)), s.len() as int),
            },
        ),
    }
}

/// Reads the line that starts at `start`: its text without the line ending,
/// and the index where the next line starts.
fn read_line(buf: &Vec<u8>, start: usize) -> (r: (Vec<u8>, usize))
    requires
        start <= buf@.len(),
    ensures
        r.0@ == line_at(buf@, start as int),
        r.1 as int == next_line_start(buf@, start as int),
        start <= r.1 <= buf@.len(),
        start < buf@.len() ==> start < r.1,
{
    proof {
        lemma_find_from(buf@, LF, start as int);
    }
    let n = buf.len();
    let (end, next): (usize, usize) = match find_byte_from(buf, LF, start) {
        Some(j) => (j, j + 1),
        None => (n, n),
    };
    let mut line = subvec(buf, start, end);
    if line.len() > 0 && line[line.len() - 1] == CR {
        line.pop();
        assert(line@ =~= strip_cr(buf@.subrange(start as int, end as int)));
    }
    (line, next)
}

/// Splits a request line into its method and path tokens.
fn parse_request_line(line: &Vec<u8>) -> (r: Option<(Vec<u8>, Vec<u8>)>)
    ensures
        match r {
            Some(mp) => spec_request_line(line@) == Some((mp.0@, mp.1@)),
            None => spec_request_line(line@) is None,
        },
{
    proof {
        lemma_find_from(line@, SPACE, 0);
    }
    let n = line.len();
    match find_byte_from(line, SPACE, 0) {
        None => None,
        Some(j) => {
            proof {
                lemma_find_from(line@, SPACE, j + 1);
            }
            let path_end = match find_byte_from(line, SPACE, j + 1) {
                Some(k) => k,
                None => n,
            };
            let method = subvec(line, 0, j);
            let path = subvec(line, j + 1, path_end);
            Some((method, path))
        },
    }
}

/// Splits one header line at its first colon.
fn parse_header_line(line: &Vec<u8>) -> (h: Header)
    ensures
        header_model(h) == spec_header_line(line@),
{
    proof {
        lemma_find_from(line@, COLON, 0);
    }
    let n = line.len();
    match find_byte_from(line, COLON, 0) {
        None => {
            let name = subvec(line, 0, n);
            assert(name@ =~= line@);
            Header { name, value: Vec::new() }
        },
        Some(j) => {
            let name = subvec(line, 0, j);
            let mut value = subvec(line, j + 1, n);
            if value.len() > 0 && value[0] == SPACE {
                value.remove(0);
                assert(value@ =~= strip_leading_space(
                    line@.subrange(j + 1, line@.len() as int),
                ));
            }
            Header { name, value }
        },
    }
}

proof fn lemma_headers_model_push(hs: Seq<Header>, h: Header)
    ensures
        headers_model(hs.push(h)) == headers_model(hs).push(header_model(h)),
{
    assert(headers_model(hs.push(h)) =~= headers_model(hs).push(header_model(h)));
}

/// Collects the headers from `i` on into `headers`; returns where the body
/// starts.
fn parse_headers(buf: &Vec<u8>, i: usize, headers: &mut Vec<Header>) -> (body_from: usize)
    requires
        i <= buf@.len(),
    ensures
        headers_model(final(headers)@) == headers_model(old(headers)@) + spec_headers(
            buf@,
            i as int,
        ),
        body_from as int == spec_body_start(buf@, i as int),
        body_from <= buf@.len(),
    decreases buf@.len() - i,
{
    if i >= buf.len() {
        assert(headers_model(headers@) =~= headers_model(headers@) + spec_headers(
            buf@,
            i as int,
        ));
        buf.len()
    } else {
        let (line, next) = read_line(buf, i);
        if line.len() == 0 {
            assert(headers_model(headers@) =~= headers_model(headers@) + spec_headers(
                buf@,
                i as int,
            ));
            next
        } else {
            let h = parse_header_line(&line);
            proof {
                lemma_headers_model_push(headers@, h);
            }
            let ghost before = headers_model(headers@);
            headers.push(h);
            let r = parse_headers(buf, next, headers);
            assert(headers_model(headers@) =~= before + spec_headers(buf@, i as int));
            r
        }
    }
}

/// Parses a request head: the request line, then headers up to the blank
/// line, then the raw remainder as the body. Fails exactly when the request
/// line has no path token.
pub fn parse_request(head: &Vec<u8>) -> (r: Result<Request, ParseError>)
    ensures
        match r {
            Ok(req) => spec_parse(head@) == Some(request_model(req)),
            Err(e) => spec_parse(head@) is None && e == ParseError::MissingPath,
        },
{
    let (request_line, h0) = read_line(head, 0);
    match parse_request_line(&request_line) {
        None => Err(ParseError::MissingPath),
        Some((method, path)) => {
            let mut headers: Vec<Header> = Vec::new();
            let body_from = parse_headers(head, h0, &mut headers);
            assert(headers_model(headers@) =~= spec_headers(head@, h0 as int));
            let body = subvec(head, body_from, head.len());
            let req = Request { method, path, headers, body };
            assert(spec_parse(head@) == Some(request_model(req)));
            Ok(req)
        },
    }
}

} // verus!

//! Responses and their wire form: a status line, headers in order, a blank
//! line, then the raw body. Builders make the exact responses the handlers
//! owe, and the writer serializes any response byte for byte.

use vstd::prelude::*;
use crate::bytes::{append, spec_decimal, usize_to_decimal};
use crate::request::{CR, LF, SPACE, COLON, Header, HeaderM, header_model, headers_model};

verus! {

/// The status lines the server ever emits.
#[derive(Debug, Clone, Copy, PartialEq, Eq)]
pub enum Status {
    Ok200,
    NotFound404,
    BadRequest400,
}

/// A response: status, headers in emission order, raw body bytes.
pub struct Response {
    pub status: Status,
    pub headers: Vec<Header>,
    pub body: Vec<u8>,
}

/// Mathematical model of a response.
#[verifier::ext_equal]
pub struct RespM {
    pub status: Status,
    pub headers: Seq<HeaderM>,
    pub body: Seq<u8>,
}

pub open spec fn response_model(r: Response) -> RespM {
    RespM { status: r.status, headers: headers_model(r.headers@), body: r.body@ }
}

pub open spec fn crlf() -> Seq<u8> {
    seq![13u8, 10u8]
}

/// The bytes of "Content-Type".
pub open spec fn content_type_name() -> Seq<u8> {
    seq![67u8, 111u8, 110u8, 116u8, 101u8, 110u8, 116u8, 45u8, 84u8, 121u8, 112u8, 101u8]
}

/// The bytes of "Content-Length".
pub open spec fn content_length_name() -> Seq<u8> {
    seq![67u8, 111u8, 110u8, 116u8, 101u8, 110u8, 116u8, 45u8, 76u8, 101u8, 110u8, 103u8, 116u8, 104u8]
}

/// The bytes of "text/plain".
pub open spec fn text_plain() -> Seq<u8> {
    seq![116u8, 101u8, 120u8, 116u8, 47u8, 112u8, 108u8, 97u8, 105u8, 110u8]
}

/// The bytes of "application/octet-stream".
pub open spec fn octet_stream() -> Seq<u8> {
    seq![
        97u8, 112u8, 112u8, 108u8, 105u8, 99u8, 97u8, 116u8, 105u8, 111u8, 110u8, 47u8, 111u8,
        99u8, 116u8, 101u8, 116u8, 45u8, 115u8, 116u8, 114u8, 101u8, 97u8, 109u8,
    ]
}

/// The status line for each status, without its line ending.
pub open spec fn status_line(s: Status) -> Seq<u8> {
    match s {
        // "HTTP/1.1 200 OK"
        Status::Ok200 => seq![
            72u8, 84u8, 84u8, 80u8, 47u8, 49u8, 46u8, 49u8, 32u8, 50u8, 48u8, 48u8, 32u8, 79u8,
            75u8,
        ],
        // "HTTP/1.1 404 Not Found"
        Status::NotFound404 => seq![
            72u8, 84u8, 84u8, 80u8, 47u8, 49u8, 46u8, 49u8, 32u8, 52u8, 48u8, 52u8, 32u8, 78u8,
            111u8, 116u8, 32u8, 70u8, 111u8, 117u8, 110u8, 100u8,
        ],
        // "HTTP/1.1 400 Bad Request"
        Status::BadRequest400 => seq![
            72u8, 84u8, 84u8, 80u8, 47u8, 49u8, 46u8, 49u8, 32u8, 52u8, 48u8, 48u8, 32u8, 66u8,
            97u8, 100u8, 32u8, 82u8, 101u8, 113u8, 117u8, 101u8, 115u8, 116u8,
        ],
    }
}

/// 404, no headers, empty body.
pub open spec fn not_found_resp() -> RespM {
    RespM { status: Status::NotFound404, headers: Seq::empty(), body: Seq::empty() }
}

/// 200, no headers, empty body.
pub open spec fn empty_ok_resp() -> RespM {
    RespM { status: Status::Ok200, headers: Seq::empty(), body: Seq::empty() }
}

/// 400, no headers, empty body.
pub open spec fn bad_request_resp() -> RespM {
    RespM { status: Status::BadRequest400, headers: Seq::empty(), body: Seq::empty() }
}

/// 200 with a plain-text body: Content-Type, then Content-Length holding the
/// decimal byte length of the body, then the body verbatim.
pub open spec fn text_resp(body: Seq<u8>) -> RespM {
    RespM {
        status: Status::Ok200,
        headers: seq![
            HeaderM { name: content_type_name(), value: text_plain() },
            HeaderM { name: content_length_name(), value: spec_decimal(body.len()) },
        ],
        body,
    }
}

/// 200 with a raw octet-stream body, framed like `text_resp`.
pub open spec fn octet_resp(body: Seq<u8>) -> RespM {
    RespM {
        status: Status::Ok200,
        headers: seq![
            HeaderM { name: content_type_name(), value: octet_stream() },
            HeaderM { name: content_length_name(), value: spec_decimal(body.len()) },
        ],
        body,
    }
}

fn content_type_name_vec() -> (r: Vec<u8>)
    ensures
        r@ == content_type_name(),
{
    let mut r: Vec<u8> = Vec::new();
    r.push(67);
    r.push(111);
    r.push(110);
    r.push(116);
    r.push(101);
    r.push(110);
    r.push(116);
    r.push(45);
    r.push(84);
    r.push(121);
    r.push(112);
    r.push(101);
    assert(r@ =~= content_type_name());
    r
}

fn content_length_name_vec() -> (r: Vec<u8>)
    ensures
        r@ == content_length_name(),
{
    let mut r: Vec<u8> = Vec::new();
    r.push(67);
    r.push(111);
    r.push(110);
    r.push(116);
    r.push(101);
    r.push(110);
    r.push(116);
    r.push(45);
    r.push(76);
    r.push(101);
    r.push(110);
    r.push(103);
    r.push(116);
    r.push(104);
    assert(r@ =~= content_length_name());
    r
}

fn text_plain_vec() -> (r: Vec<u8>)
    ensures
        r@ == text_plain(),
{
    let mut r: Vec<u8> = Vec::new();
    r.push(116);
    r.push(101);
    r.push(120);
    r.push(116);
    r.push(47);
    r.push(112);
    r.push(108);
    r.push(97);
    r.push(105);
    r.push(110);
    assert(r@ =~= text_plain());
    r
}

fn octet_stream_vec() -> (r: Vec<u8>)
    ensures
        r@ == octet_stream(),
{
    let mut r: Vec<u8> = Vec::new();
    r.push(97);
    r.push(112);
    r.push(112);
    r.push(108);
    r.push(105);
    r.push(99);
    r.push(97);
    r.push(116);
    r.push(105);
    r.push(111);
    r.push(110);
    r.push(47);
    r.push(111);
    r.push(99);
    r.push(116);
    r.push(101);
    r.push(116);
    r.push(45);
    r.push(115);
    r.push(116);
    r.push(114);
    r.push(101);
    r.push(97);
    r.push(109);
    assert(r@ =~= octet_stream());
    r
}

fn status_line_vec(s: &Status) -> (r: Vec<u8>)
    ensures
        r@ == status_line(*s),
{
    let mut r: Vec<u8> = Vec::new();
    r.push(72);
    r.push(84);
    r.push(84);
    r.push(80);
    r.push(47);
    r.push(49);
    r.push(46);
    r.push(49);
    r.push(32);
    match s {
        Status::Ok200 => {
            r.push(50);
            r.push(48);
            r.push(48);
            r.push(32);
            r.push(79);
            r.push(75);
        },
        Status::NotFound404 => {
            r.push(52);
            r.push(48);
            r.push(52);
            r.push(32);
            r.push(78);
            r.push(111);
            r.push(116);
            r.push(32);
            r.push(70);
            r.push(111);
            r.push(117);
            r.push(110);
            r.push(100);
        },
        Status::BadRequest400 => {
            r.push(52);
            r.push(48);
            r.push(48);
            r.push(32);
            r.push(66);
            r.push(97);
            r.push(100);
            r.push(32);
            r.push(82);
            r.push(101);
            r.push(113);
            r.push(117);
            r.push(101);
            r.push(115);
            r.push(116);
        },
    }
    assert(r@ =~= status_line(*s));
    r
}

/// The 404 response.
pub fn response_not_found() -> (r: Response)
    ensures
        response_model(r) == not_found_resp(),
{
    let r = Response { status: Status::NotFound404, headers: Vec::new(), body: Vec::new() };
    assert(response_model(r) =~~= not_found_resp());
    r
}

/// The bare 200 response: no headers, empty body.
pub fn response_empty_ok() -> (r: Response)
    ensures
        response_model(r) == empty_ok_resp(),
{
    let r = Response { status: Status::Ok200, headers: Vec::new(), body: Vec::new() };
    assert(response_model(r) =~~= empty_ok_resp());
    r
}

/// The 400 response for a malformed request.
pub fn response_bad_request() -> (r: Response)
    ensures
        response_model(r) == bad_request_resp(),
{
    let r = Response { status: Status::BadRequest400, headers: Vec::new(), body: Vec::new() };
    assert(response_model(r) =~~= bad_request_resp());
    r
}

/// 200 with `body` as plain text and its exact byte length declared.
pub fn response_text(body: Vec<u8>) -> (r: Response)
    ensures
        response_model(r) == text_resp(body@),
{
    let digits = usize_to_decimal(body.len());
    let mut headers: Vec<Header> = Vec::new();
    headers.push(Header { name: content_type_name_vec(), value: text_plain_vec() });
    headers.push(Header { name: content_length_name_vec(), value: digits });
    let r = Response { status: Status::Ok200, headers, body };
    assert(response_model(r) =~~= text_resp(r.body@));
    r
}

/// 200 with `body` as a raw octet stream and its exact byte length declared.
pub fn response_octet(body: Vec<u8>) -> (r: Response)
    ensures
        response_model(r) == octet_resp(body@),
{
    let digits = usize_to_decimal(body.len());
    let mut headers: Vec<Header> = Vec::new();
    headers.push(Header { name: content_type_name_vec(), value: octet_stream_vec() });
    headers.push(Header { name: content_length_name_vec(), value: digits });
    let r = Response { status: Status::Ok200, headers, body };
    assert(response_model(r) =~~= octet_resp(r.body@));
    r
}

/// One serialized header line: name, colon and space, value, CRLF.
pub open spec fn ser_header_line(h: HeaderM) -> Seq<u8> {
    h.name + seq![58u8, 32u8] + h.value + crlf()
}

/// All header lines, in order.
pub open spec fn ser_headers(hs: Seq<HeaderM>) -> Seq<u8>
    decreases hs.len(),
{
    if hs.len() == 0 {
        Seq::empty()
    } else {
        ser_headers(hs.drop_last()) + ser_header_line(hs.last())
    }
}

/// The wire form: status line, CRLF, header lines, blank line, body.
pub open spec fn spec_serialize(m: RespM) -> Seq<u8> {
    status_line(m.status) + crlf() + ser_headers(m.headers) + crlf() + m.body
}

/// Serializes a response into the exact bytes written to the connection.
pub fn serialize_response(r: &Response) -> (out: Vec<u8>)
    ensures
        out@ == spec_serialize(response_model(*r)),
{
    let ghost hs = headers_model(r.headers@);
    let mut out = status_line_vec(&r.status);
    out.push(CR);
    out.push(LF);
    let ghost pre = status_line(r.status) + crlf();
    assert(out@ =~= pre + ser_headers(hs.take(0)));
    let mut i: usize = 0;
    while i < r.headers.len()
        invariant
            i <= r.headers@.len(),
            hs == headers_model(r.headers@),
            pre == status_line(r.status) + crlf(),
            out@ == pre + ser_headers(hs.take(i as int)),
        decreases r.headers@.len() - i,
    {
        let h = &r.headers[i];
        append(&mut out, &h.name);
        out.push(COLON);
        out.push(SPACE);
        append(&mut out, &h.value);
        out.push(CR);
        out.push(LF);
        proof {
            assert(hs.take(i + 1).drop_last() =~= hs.take(i as int));
            assert(hs.take(i + 1).last() == header_model(r.headers@[i as int]));
            assert(out@ =~= pre + ser_headers(hs.take(i + 1)));
        }
        i = i + 1;
    }
    assert(hs.take(r.headers@.len() as int) =~= hs);
    out.push(CR);
    out.push(LF);
    append(&mut out, &r.body);
    assert(out@ =~= spec_serialize(response_model(*r)));
    out
}

} // verus!

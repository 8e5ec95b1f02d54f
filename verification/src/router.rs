//! Routing and handlers. A request's path picks one handler, in a fixed
//! priority order, on the raw path text; the handlers build the exact
//! responses the wire protocol owes. The static-file handler needs the
//! outcome of a file read, which only the embedding program can supply, so
//! routing yields a plan: either a finished response, or the name of the file
//! whose content decides it.

use vstd::prelude::*;
use crate::bytes::{starts_with, subvec, vec_eq, has_prefix};
use crate::bytes::spec_decimal;
use crate::request::{Header, HeaderM, ReqM, headers_model, header_model, spec_parse, parse_request};
use crate::response::{
    Response, RespM, Status, response_model, not_found_resp, empty_ok_resp, bad_request_resp,
    text_resp, octet_resp, response_not_found, response_empty_ok, response_bad_request,
    response_text, response_octet, content_length_name,
};

verus! {

/// The bytes of "/".
pub open spec fn root_path() -> Seq<u8> {
    seq![47u8]
}

/// The bytes of "/echo/".
pub open spec fn echo_prefix() -> Seq<u8> {
    seq![47u8, 101u8, 99u8, 104u8, 111u8, 47u8]
}

/// The bytes of "/files/".
pub open spec fn files_prefix() -> Seq<u8> {
    seq![47u8, 102u8, 105u8, 108u8, 101u8, 115u8, 47u8]
}

/// The bytes of "/user-agent".
pub open spec fn user_agent_path() -> Seq<u8> {
    seq![47u8, 117u8, 115u8, 101u8, 114u8, 45u8, 97u8, 103u8, 101u8, 110u8, 116u8]
}

/// The bytes of "User-Agent".
pub open spec fn user_agent_name() -> Seq<u8> {
    seq![85u8, 115u8, 101u8, 114u8, 45u8, 65u8, 103u8, 101u8, 110u8, 116u8]
}

/// Which handler a path picks; prefix routes carry the remainder of the path
/// after the prefix.
pub enum RouteDecision {
    Root,
    Echo(Vec<u8>),
    Files(Vec<u8>),
    UserAgent,
    NotFound,
}

/// Mathematical model of a routing decision.
#[verifier::ext_equal]
pub enum RouteM {
    Root,
    Echo(Seq<u8>),
    Files(Seq<u8>),
    UserAgent,
    NotFound,
}

pub open spec fn route_model(d: RouteDecision) -> RouteM {
    match d {
        RouteDecision::Root => RouteM::Root,
        RouteDecision::Echo(v) => RouteM::Echo(v@),
        RouteDecision::Files(v) => RouteM::Files(v@),
        RouteDecision::UserAgent => RouteM::UserAgent,
        RouteDecision::NotFound => RouteM::NotFound,
    }
}

/// Dispatch on the raw path text, first match wins: exactly "/", then the
/// echo prefix, then the files prefix, then exactly "/user-agent", else no
/// route.
pub open spec fn spec_route(path: Seq<u8>) -> RouteM {
    if path == root_path() {
        RouteM::Root
    } else if starts_with(path, echo_prefix()) {
        RouteM::Echo(path.skip(echo_prefix().len() as int))
    } else if starts_with(path, files_prefix()) {
        RouteM::Files(path.skip(files_prefix().len() as int))
    } else if path == user_agent_path() {
        RouteM::UserAgent
    } else {
        RouteM::NotFound
    }
}

fn root_path_vec() -> (r: Vec<u8>)
    ensures
        r@ == root_path(),
{
    let mut r: Vec<u8> = Vec::new();
    r.push(47);
    assert(r@ =~= root_path());
    r
}

fn echo_prefix_vec() -> (r: Vec<u8>)
    ensures
        r@ == echo_prefix(),
{
    let mut r: Vec<u8> = Vec::new();
    r.push(47);
    r.push(101);
    r.push(99);
    r.push(104);
    r.push(111);
    r.push(47);
    assert(r@ =~= echo_prefix());
    r
}

fn files_prefix_vec() -> (r: Vec<u8>)
    ensures
        r@ == files_prefix(),
{
    let mut r: Vec<u8> = Vec::new();
    r.push(47);
    r.push(102);
    r.push(105);
    r.push(108);
    r.push(101);
    r.push(115);
    r.push(47);
    assert(r@ =~= files_prefix());
    r
}

fn user_agent_path_vec() -> (r: Vec<u8>)
    ensures
        r@ == user_agent_path(),
{
    let mut r: Vec<u8> = Vec::new();
    r.push(47);
    r.push(117);
    r.push(115);
    r.push(101);
    r.push(114);
    r.push(45);
    r.push(97);
    r.push(103);
    r.push(101);
    r.push(110);
    r.push(116);
    assert(r@ =~= user_agent_path());
    r
}

fn user_agent_name_vec() -> (r: Vec<u8>)
    ensures
        r@ == user_agent_name(),
{
    let mut r: Vec<u8> = Vec::new();
    r.push(85);
    r.push(115);
    r.push(101);
    r.push(114);
    r.push(45);
    r.push(65);
    r.push(103);
    r.push(101);
    r.push(110);
    r.push(116);
    assert(r@ =~= user_agent_name());
    r
}

/// Routes a path to its handler, in the fixed priority order.
pub fn route(path: &Vec<u8>) -> (d: RouteDecision)
    ensures
        route_model(d) == spec_route(path@),
{
    let root = root_path_vec();
    let echo = echo_prefix_vec();
    let files = files_prefix_vec();
    let ua = user_agent_path_vec();
    if vec_eq(path, &root) {
        RouteDecision::Root
    } else if has_prefix(path, &echo) {
        let rest = subvec(path, echo.len(), path.len());
        assert(rest@ =~= path@.skip(echo_prefix().len() as int));
        RouteDecision::Echo(rest)
    } else if has_prefix(path, &files) {
        let rest = subvec(path, files.len(), path.len());
        assert(rest@ =~= path@.skip(files_prefix().len() as int));
        RouteDecision::Files(rest)
    } else if vec_eq(path, &ua) {
        RouteDecision::UserAgent
    } else {
        RouteDecision::NotFound
    }
}

/// Value of the first header named `name`, if any.
pub open spec fn spec_lookup(hs: Seq<HeaderM>, name: Seq<u8>) -> Option<Seq<u8>>
    decreases hs.len(),
{
    if hs.len() == 0 {
        None
    } else if hs[0].name == name {
        Some(hs[0].value)
    } else {
        spec_lookup(hs.drop_first(), name)
    }
}

/// Finds the first header named `name` and hands back a copy of its value.
pub fn lookup_header(headers: &Vec<Header>, name: &Vec<u8>) -> (r: Option<Vec<u8>>)
    ensures
        match r {
            Some(v) => spec_lookup(headers_model(headers@), name@) == Some(v@),
            None => spec_lookup(headers_model(headers@), name@) is None,
        },
{
    let ghost hs = headers_model(headers@);
    assert(hs.skip(0) =~= hs);
    let mut i: usize = 0;
    while i < headers.len()
        invariant
            i <= headers@.len(),
            hs == headers_model(headers@),
            spec_lookup(hs, name@) == spec_lookup(hs.skip(i as int), name@),
        decreases headers@.len() - i,
    {
        proof {
            assert(hs.skip(i as int)[0] == header_model(headers@[i as int]));
            assert(hs.skip(i as int).drop_first() =~= hs.skip(i + 1));
        }
        let h = &headers[i];
        if vec_eq(&h.name, name) {
            let v = subvec(&h.value, 0, h.value.len());
            assert(v@ =~= h.value@);
            return Some(v);
        }
        i = i + 1;
    }
    assert(hs.skip(headers@.len() as int) =~= Seq::<HeaderM>::empty());
    None
}

/// What the user-agent handler answers for a given header list: the first
/// User-Agent value echoed as plain text, or 404 when the header is absent.
pub open spec fn ua_resp(hs: Seq<HeaderM>) -> RespM {
    match spec_lookup(hs, user_agent_name()) {
        Some(v) => text_resp(v),
        None => not_found_resp(),
    }
}

/// User-agent handler: looks the header up by name and echoes its value.
pub fn handle_user_agent(headers: &Vec<Header>) -> (r: Response)
    ensures
        response_model(r) == ua_resp(headers_model(headers@)),
{
    let name = user_agent_name_vec();
    match lookup_header(headers, &name) {
        Some(v) => response_text(v),
        None => response_not_found(),
    }
}

/// Echo handler: a path under the echo route is answered with the remainder
/// after the prefix, verbatim, as plain text; any other path gets 404.
pub fn handle_route(path: &Vec<u8>) -> (r: Response)
    ensures
        response_model(r) == (match spec_route(path@) {
            RouteM::Echo(s) => text_resp(s),
            _ => not_found_resp(),
        }),
{
    match route(path) {
        RouteDecision::Echo(rest) => response_text(rest),
        _ => response_not_found(),
    }
}

/// Static-file handler: the outcome of the file read decides the response.
/// Content read in full becomes a 200 octet-stream body; a missing base
/// directory or any read failure is 404.
pub fn handle_files(content: Option<Vec<u8>>) -> (r: Response)
    ensures
        match content {
            Some(c) => response_model(r) == octet_resp(c@),
            None => response_model(r) == not_found_resp(),
        },
{
    match content {
        Some(c) => response_octet(c),
        None => response_not_found(),
    }
}

/// A filename is safe to resolve under the base directory when it is not
/// empty, not absolute, and holds no ".." anywhere, so the resolved path
/// cannot leave the directory.
pub open spec fn spec_safe_filename(f: Seq<u8>) -> bool {
    &&& f.len() > 0
    &&& f[0] != 47
    &&& forall|k: int| 0 <= k && k + 1 < f.len() ==> !(#[trigger] f[k] == 46 && f[k + 1] == 46)
}

/// Containment check for filenames under the files route.
pub fn is_safe_filename(f: &Vec<u8>) -> (r: bool)
    ensures
        r == spec_safe_filename(f@),
{
    if f.len() == 0 {
        return false;
    }
    if f[0] == 47 {
        return false;
    }
    let mut i: usize = 0;
    while i < f.len() - 1
        invariant
            f@.len() > 0,
            i <= f@.len(),
            forall|k: int| 0 <= k && k + 1 < i + 1 && k + 1 < f@.len() ==> !(#[trigger] f@[k] == 46
                && f@[k + 1] == 46),
        decreases f@.len() - i,
    {
        if f[i] == 46 && f[i + 1] == 46 {
            assert(!spec_safe_filename(f@));
            return false;
        }
        i = i + 1;
    }
    true
}

/// What a connection's work comes to: either a finished response, or the
/// safe filename whose read outcome still has to decide it.
pub enum Plan {
    Reply(Response),
    NeedFile(Vec<u8>),
}

/// Mathematical model of a plan.
#[verifier::ext_equal]
pub enum PlanM {
    Reply(RespM),
    NeedFile(Seq<u8>),
}

pub open spec fn plan_model(p: Plan) -> PlanM {
    match p {
        Plan::Reply(r) => PlanM::Reply(response_model(r)),
        Plan::NeedFile(f) => PlanM::NeedFile(f@),
    }
}

/// The plan a request head leads to: 400 when the request line has no path
/// token; else the routed handler's response, except that a files route with
/// a safe filename defers to the file read and an unsafe one is 404.
pub open spec fn spec_plan(head: Seq<u8>) -> PlanM {
    match spec_parse(head) {
        None => PlanM::Reply(bad_request_resp()),
        Some(m) => match spec_route(m.path) {
            RouteM::Root => PlanM::Reply(empty_ok_resp()),
            RouteM::Echo(s) => PlanM::Reply(text_resp(s)),
            RouteM::Files(f) => if spec_safe_filename(f) {
                PlanM::NeedFile(f)
            } else {
                PlanM::Reply(not_found_resp())
            },
            RouteM::UserAgent => PlanM::Reply(ua_resp(m.headers)),
            RouteM::NotFound => PlanM::Reply(not_found_resp()),
        },
    }
}

/// Turns a request head into a plan: parse, route, run the handler. One
/// worker runs this once per connection; a malformed request becomes a 400
/// reply, never a failure.
pub fn handle_request(head: &Vec<u8>) -> (p: Plan)
    ensures
        plan_model(p) == spec_plan(head@),
{
    let req = match parse_request(head) {
        Ok(req) => req,
        Err(_) => {
            return Plan::Reply(response_bad_request());
        },
    };
    match route(&req.path) {
        RouteDecision::Root => Plan::Reply(response_empty_ok()),
        RouteDecision::Echo(_) => Plan::Reply(handle_route(&req.path)),
        RouteDecision::Files(f) => {
            if is_safe_filename(&f) {
                Plan::NeedFile(f)
            } else {
                Plan::Reply(response_not_found())
            }
        },
        RouteDecision::UserAgent => Plan::Reply(handle_user_agent(&req.headers)),
        RouteDecision::NotFound => Plan::Reply(response_not_found()),
    }
}

/// Law: a request whose path matches no known route — not "/", not under the
/// echo or files prefixes, not "/user-agent" — is answered 404, with no
/// headers and an empty body.
pub proof fn lemma_unmatched_is_not_found(head: Seq<u8>, m: ReqM)
    requires
        spec_parse(head) == Some(m),
        m.path != root_path(),
        !starts_with(m.path, echo_prefix()),
        !starts_with(m.path, files_prefix()),
        m.path != user_agent_path(),
    ensures
        spec_plan(head) == PlanM::Reply(not_found_resp()),
        not_found_resp().status == Status::NotFound404,
        not_found_resp().headers.len() == 0,
        not_found_resp().body.len() == 0,
{
}

/// Law: a request for exactly "/" is answered 200, with no headers (none
/// about a body either) and an empty body.
pub proof fn lemma_root_is_empty_ok(head: Seq<u8>, m: ReqM)
    requires
        spec_parse(head) == Some(m),
        m.path == root_path(),
    ensures
        spec_plan(head) == PlanM::Reply(empty_ok_resp()),
        empty_ok_resp().status == Status::Ok200,
        empty_ok_resp().headers.len() == 0,
        empty_ok_resp().body.len() == 0,
{
}

/// Law: for every byte string `s`, a request whose path is the echo prefix
/// followed by `s` is answered 200 with body exactly `s` and a
/// Content-Length header holding exactly the decimal byte length of `s`.
pub proof fn lemma_echo_exact(head: Seq<u8>, m: ReqM, s: Seq<u8>)
    requires
        spec_parse(head) == Some(m),
        m.path == echo_prefix() + s,
    ensures
        spec_plan(head) == PlanM::Reply(text_resp(s)),
        text_resp(s).status == Status::Ok200,
        text_resp(s).body == s,
        text_resp(s).headers[1] == (HeaderM {
            name: content_length_name(),
            value: spec_decimal(s.len()),
        }),
{
    let p = echo_prefix() + s;
    assert(p.len() > 1);
    assert(p != root_path());
    assert(p.subrange(0, echo_prefix().len() as int) =~= echo_prefix());
    assert(starts_with(p, echo_prefix()));
    assert(p.skip(echo_prefix().len() as int) =~= s);
}

} // verus!

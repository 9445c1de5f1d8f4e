use vstd::prelude::*;

use crate::message::{Request, Response, Status};
use crate::text::{eq_ignore_ascii_case, opt_view, str_eq_ignore_ascii_case};

verus! {

/// What the URI builder renders for scheme `https`, the given authority and
/// the given path-and-query, or `None` where it refuses them.
pub uninterp spec fn https_uri_of(authority: Seq<char>, path_and_query: Seq<char>) -> Option<
    Seq<char>,
>;

pub open spec fn https_prefix() -> Seq<char> {
    seq!['h', 't', 't', 'p', 's', ':', '/', '/']
}

/// A path-and-query that the URI builder keeps and renders unchanged: it
/// starts with `/`, holds no fragment, and its query offset fits the
/// builder's 16-bit index.
pub open spec fn plain_origin_form(pq: Seq<char>) -> bool {
    0 < pq.len() < 65535 && pq[0] == '/' && !pq.contains('#')
}

/// Relies on `http::uri::Builder` (re-exported by hyper) with scheme
/// `"https"`, `authority` and `path_and_query`, and on `Uri`'s `Display`,
/// which writes scheme, `://`, the authority as given, then the path and the
/// query as parsed.
#[verifier::external_body]
fn build_https_uri(authority: &str, path_and_query: &str) -> (r: Option<String>)
    ensures
        opt_view(r) == https_uri_of(authority@, path_and_query@),
        r is Some && plain_origin_form(path_and_query@) ==> r->0@ == https_prefix() + authority@
            + path_and_query@,
{
    match hyper::http::uri::Builder::new().scheme("https").authority(authority).path_and_query(
        path_and_query,
    ).build() {
        Ok(uri) => Some(uri.to_string()),
        Err(_) => None,
    }
}

/// The value of the first header at or after index `i` whose name matches
/// `name` ignoring ASCII case.
pub open spec fn header_from(hs: Seq<(String, String)>, name: Seq<char>, i: int) -> Option<
    Seq<char>,
>
    decreases hs.len() - i,
{
    if i < 0 || i >= hs.len() {
        None
    } else if eq_ignore_ascii_case(hs[i].0@, name) {
        Some(hs[i].1@)
    } else {
        header_from(hs, name, i + 1)
    }
}

/// The value of the first header named `name`, ignoring ASCII case.
pub open spec fn header_value(hs: Seq<(String, String)>, name: Seq<char>) -> Option<Seq<char>> {
    header_from(hs, name, 0)
}

/// Finds the value of the first header named `name`, ignoring ASCII case.
pub fn find_header<'a>(headers: &'a Vec<(String, String)>, name: &str) -> (r: Option<&'a String>)
    ensures
        match r {
            Some(v) => header_value(headers@, name@) == Some(v@),
            None => header_value(headers@, name@) is None,
        },
{
    let mut i: usize = 0;
    while i < headers.len()
        invariant
            i <= headers@.len(),
            header_value(headers@, name@) == header_from(headers@, name@, i as int),
        decreases headers@.len() - i,
    {
        if str_eq_ignore_ascii_case(headers[i].0.as_str(), name) {
            return Some(&headers[i].1);
        }
        i = i + 1;
    }
    None
}

pub open spec fn forwarded_proto_header() -> Seq<char> {
    seq!['x', '-', 'f', 'o', 'r', 'w', 'a', 'r', 'd', 'e', 'd', '-', 'p', 'r', 'o', 't', 'o']
}

pub open spec fn host_header() -> Seq<char> {
    seq!['h', 'o', 's', 't']
}

pub open spec fn http_scheme() -> Seq<char> {
    seq!['h', 't', 't', 'p']
}

/// The request target's path followed by `?` and the query, if any.
pub open spec fn path_and_query(req: &Request) -> Seq<char> {
    match req.query {
        Some(q) => req.path@ + seq!['?'] + q@,
        None => req.path@,
    }
}

/// Whether a request is to be redirected to HTTPS: redirection is enabled
/// and the forwarded-protocol header says exactly `http`.
pub open spec fn wants_redirect(enabled: bool, req: &Request) -> bool {
    enabled && header_value(req.headers@, forwarded_proto_header()) == Some(http_scheme())
}

/// The authority for the redirect: the `host` header, else the target's own.
pub open spec fn redirect_authority(req: &Request) -> Option<Seq<char>> {
    match header_value(req.headers@, host_header()) {
        Some(h) => Some(h),
        None => opt_view(req.authority),
    }
}

/// The absolute HTTPS URI a redirected request is sent to, if one can be made.
pub open spec fn redirect_location(req: &Request) -> Option<Seq<char>> {
    match redirect_authority(req) {
        Some(a) => https_uri_of(a, path_and_query(req)),
        None => None,
    }
}

/// The response for a redirect target: 301 to it, or 400 where there is none.
pub open spec fn redirect_outcome(location: Option<Seq<char>>) -> (Status, Option<Seq<char>>, Seq<u8>) {
    match location {
        Some(u) => (Status::MovedPermanently, Some(u), Seq::empty()),
        None => (Status::BadRequest, None, Seq::empty()),
    }
}

fn request_path_and_query(req: &Request) -> (r: String)
    ensures
        r@ == path_and_query(req),
{
    let mut pq = req.path.clone();
    match &req.query {
        Some(q) => {
            let mark = "?";
            proof {
                reveal_strlit("?");
            }
            pq.append(mark);
            pq.append(q.as_str());
        },
        None => {},
    }
    pq
}

/// Builds the HTTPS URI that `req` is redirected to.
pub fn https_location(req: &Request) -> (r: Option<String>)
    ensures
        opt_view(r) == redirect_location(req),
{
    let host = "host";
    proof {
        reveal_strlit("host");
    }
    assert(host@ == host_header());
    let authority: &str = match find_header(&req.headers, host) {
        Some(h) => h.as_str(),
        None => match &req.authority {
            Some(a) => a.as_str(),
            None => {
                return None;
            },
        },
    };
    let pq = request_path_and_query(req);
    build_https_uri(authority, pq.as_str())
}

/// The response that answers a redirect to `location`: 301 with the
/// location, or 400 where no location could be made.
pub fn redirect_response(location: Option<String>) -> (r: Response)
    ensures
        r@ == redirect_outcome(opt_view(location)),
{
    match location {
        Some(u) => Response { status: Status::MovedPermanently, location: Some(u), body: Vec::new() },
        None => Response::empty(Status::BadRequest),
    }
}

/// Whether redirection applies to `req`.
pub fn should_redirect(enabled: bool, req: &Request) -> (r: bool)
    ensures
        r == wants_redirect(enabled, req),
{
    if !enabled {
        return false;
    }
    let name = "x-forwarded-proto";
    proof {
        reveal_strlit("x-forwarded-proto");
    }
    assert(name@ == forwarded_proto_header());
    match find_header(&req.headers, name) {
        Some(v) => {
            let http = "http";
            proof {
                reveal_strlit("http");
            }
            assert(http@ == http_scheme());
            *v == String::from_str(http)
        },
        None => false,
    }
}

} // verus!

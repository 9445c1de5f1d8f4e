use vstd::prelude::*;

use crate::message::{Request, Response, Status};
use crate::redirect::{
    https_location,
    redirect_location,
    redirect_outcome,
    redirect_response,
    should_redirect,
    wants_redirect,
};
use crate::resolve::{resolve, resolve_key};
use crate::store::ContentStore;

verus! {

pub open spec fn get_method() -> Seq<char> {
    seq!['G', 'E', 'T']
}

/// The response to a GET that is not redirected: 200 with the content the
/// path resolves to, else 404 with an empty body.
pub open spec fn serve_outcome(m: Map<Seq<char>, Seq<u8>>, path: Seq<char>) -> (
    Status,
    Option<Seq<char>>,
    Seq<u8>,
) {
    match resolve_key(m, path) {
        Some(k) => (Status::Success, None, m[k]),
        None => (Status::NotFound, None, Seq::empty()),
    }
}

/// The response to `req` from a server holding `m`, with redirection to
/// HTTPS enabled or not: 405 for any method but GET; else the redirect
/// outcome where redirection applies; else the content lookup.
pub open spec fn route(m: Map<Seq<char>, Seq<u8>>, redirect_enabled: bool, req: &Request) -> (
    Status,
    Option<Seq<char>>,
    Seq<u8>,
) {
    if req.method@ != get_method() {
        (Status::MethodNotAllowed, None, Seq::empty())
    } else if wants_redirect(redirect_enabled, req) {
        redirect_outcome(redirect_location(req))
    } else {
        serve_outcome(m, req.path@)
    }
}

/// A server over a preloaded, read-only content store.
pub struct FileServer {
    pub cache: ContentStore,
    pub http_to_https_redirect: bool,
}

impl FileServer {
    pub fn new(cache: ContentStore, http_to_https_redirect: bool) -> (r: FileServer)
        ensures
            r.cache@ == cache@,
            r.http_to_https_redirect == http_to_https_redirect,
    {
        FileServer { cache, http_to_https_redirect }
    }

    /// The redirect response for `req`, or `None` where it is to be served.
    pub fn build_https_redirect(&self, req: &Request) -> (r: Option<Response>)
        ensures
            match r {
                Some(resp) => wants_redirect(self.http_to_https_redirect, req) && resp@
                    == redirect_outcome(redirect_location(req)),
                None => !wants_redirect(self.http_to_https_redirect, req),
            },
    {
        if !should_redirect(self.http_to_https_redirect, req) {
            return None;
        }
        Some(redirect_response(https_location(req)))
    }

    /// Answers one request.
    pub fn handle(&self, req: &Request) -> (r: Response)
        ensures
            r@ == route(self.cache@, self.http_to_https_redirect, req),
    {
        let get = "GET";
        proof {
            reveal_strlit("GET");
        }
        assert(get@ == get_method());
        if req.method != String::from_str(get) {
            return Response::empty(Status::MethodNotAllowed);
        }
        match self.build_https_redirect(req) {
            Some(resp) => resp,
            None => match resolve(&self.cache, &req.path) {
                Some(key) => match self.cache.get(&key) {
                    Some(content) => {
                        let body = content.clone();
                        assert(body@ == content@);
                        Response { status: Status::Success, location: None, body }
                    },
                    None => Response::empty(Status::NotFound),
                },
                None => Response::empty(Status::NotFound),
            },
        }
    }
}

} // verus!

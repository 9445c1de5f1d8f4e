//! Facts about routing that hold for every store and every request.
use vstd::prelude::*;

use crate::message::{Request, Status};
use crate::redirect::{forwarded_proto_header, header_value, http_scheme, wants_redirect};
use crate::resolve::{index_file, resolve_key};
use crate::router::{get_method, route, serve_outcome};
use crate::text::ends_with_slash;

verus! {

/// A GET of a stored key that is not redirected returns 200 with exactly the
/// stored bytes.
pub proof fn lemma_stored_content_served(
    m: Map<Seq<char>, Seq<u8>>,
    redirect_enabled: bool,
    req: &Request,
)
    requires
        req.method@ == get_method(),
        !wants_redirect(redirect_enabled, req),
        m.contains_key(req.path@),
    ensures
        route(m, redirect_enabled, req) == (Status::Success, None::<Seq<char>>, m[req.path@]),
{
}

/// A 200 response carries the content stored under the requested path, or,
/// for a path ending in `/`, the content stored under that path followed by
/// `index.html`; no other content is ever returned for it.
pub proof fn lemma_served_content_origin(
    m: Map<Seq<char>, Seq<u8>>,
    redirect_enabled: bool,
    req: &Request,
)
    requires
        route(m, redirect_enabled, req).0 == Status::Success,
    ensures
        req.method@ == get_method(),
        !wants_redirect(redirect_enabled, req),
        route(m, redirect_enabled, req).1 is None,
        (m.contains_key(req.path@) && route(m, redirect_enabled, req).2 == m[req.path@]) || (
        ends_with_slash(req.path@) && m.contains_key(req.path@ + index_file()) && route(
            m,
            redirect_enabled,
            req,
        ).2 == m[req.path@ + index_file()]),
{
}

/// GET `/` and GET `/index.html` answer alike when `/index.html` is stored
/// (and `/` itself is not) and neither request is redirected.
pub proof fn lemma_root_serves_index(
    m: Map<Seq<char>, Seq<u8>>,
    redirect_enabled: bool,
    root: &Request,
    index: &Request,
)
    requires
        root.method@ == get_method(),
        index.method@ == get_method(),
        root.path@ == seq!['/'],
        index.path@ == seq!['/'] + index_file(),
        m.contains_key(seq!['/'] + index_file()),
        !m.contains_key(seq!['/']),
        !wants_redirect(redirect_enabled, root),
        !wants_redirect(redirect_enabled, index),
    ensures
        route(m, redirect_enabled, root) == route(m, redirect_enabled, index),
{
    assert(ends_with_slash(root.path@));
}

/// A GET of a path ending in `/`, whose directory holds `index.html`,
/// returns that file's content.
pub proof fn lemma_directory_index(m: Map<Seq<char>, Seq<u8>>, redirect_enabled: bool, req: &Request)
    requires
        req.method@ == get_method(),
        !wants_redirect(redirect_enabled, req),
        ends_with_slash(req.path@),
        !m.contains_key(req.path@),
        m.contains_key(req.path@ + index_file()),
    ensures
        route(m, redirect_enabled, req) == (
            Status::Success,
            None::<Seq<char>>,
            m[req.path@ + index_file()],
        ),
{
}

/// A GET that is not redirected and resolves to no stored key returns 404
/// with an empty body.
pub proof fn lemma_unresolved_not_found(
    m: Map<Seq<char>, Seq<u8>>,
    redirect_enabled: bool,
    req: &Request,
)
    requires
        req.method@ == get_method(),
        !wants_redirect(redirect_enabled, req),
        resolve_key(m, req.path@) is None,
    ensures
        route(m, redirect_enabled, req) == (Status::NotFound, None::<Seq<char>>, Seq::<u8>::empty()),
{
}

/// Any method but GET returns 405 with an empty body, whatever is stored and
/// whatever the redirect setting.
pub proof fn lemma_non_get_rejected(m: Map<Seq<char>, Seq<u8>>, redirect_enabled: bool, req: &Request)
    requires
        req.method@ != get_method(),
    ensures
        route(m, redirect_enabled, req) == (
            Status::MethodNotAllowed,
            None::<Seq<char>>,
            Seq::<u8>::empty(),
        ),
{
}

/// With redirection disabled, or without a forwarded-protocol header that
/// says exactly `http`, a GET is served from the store and never answered
/// with 301.
pub proof fn lemma_no_redirect_served(m: Map<Seq<char>, Seq<u8>>, redirect_enabled: bool, req: &Request)
    requires
        req.method@ == get_method(),
        !redirect_enabled || header_value(req.headers@, forwarded_proto_header()) != Some(
            http_scheme(),
        ),
    ensures
        route(m, redirect_enabled, req) == serve_outcome(m, req.path@),
        route(m, redirect_enabled, req).0 != Status::MovedPermanently,
{
}

/// With nothing stored, every GET that is not redirected returns 404.
pub proof fn lemma_empty_store_not_found(redirect_enabled: bool, req: &Request)
    requires
        req.method@ == get_method(),
        !wants_redirect(redirect_enabled, req),
    ensures
        route(Map::empty(), redirect_enabled, req) == (
            Status::NotFound,
            None::<Seq<char>>,
            Seq::<u8>::empty(),
        ),
{
}

} // verus!

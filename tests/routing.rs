use httpserve::message::{Request, Response, Status};
use httpserve::preload::{Entry, Preloader};
use httpserve::redirect::{find_header, https_location, redirect_response, should_redirect};
use httpserve::resolve::resolve;
use httpserve::router::FileServer;
use httpserve::store::ContentStore;
use httpserve::text::{str_ends_with_slash, str_eq_ignore_ascii_case};

fn request(method: &str, path: &str, query: Option<&str>, headers: &[(&str, &str)]) -> Request {
    Request {
        method: method.to_string(),
        path: path.to_string(),
        query: query.map(|q| q.to_string()),
        authority: None,
        headers: headers
            .iter()
            .map(|(n, v)| (n.to_string(), v.to_string()))
            .collect(),
    }
}

fn get(path: &str) -> Request {
    request("GET", path, None, &[])
}

fn site() -> ContentStore {
    let mut store = ContentStore::new();
    store.insert("/index.html".to_string(), b"<h1>home</h1>".to_vec());
    store.insert("/about.txt".to_string(), b"about us".to_vec());
    store.insert("/docs/index.html".to_string(), b"docs index".to_vec());
    store.insert("/docs/guide.html".to_string(), b"guide".to_vec());
    store.insert("/empty.bin".to_string(), Vec::new());
    store
}

fn assert_empty(r: &Response, status: Status) {
    assert_eq!(r.status, status);
    assert!(r.location.is_none());
    assert!(r.body.is_empty());
}

#[test]
fn store_insert_and_get() {
    let mut store = ContentStore::new();
    assert!(!store.contains_key(&"/a".to_string()));
    store.insert("/a".to_string(), vec![1, 2, 3]);
    store.insert("/b".to_string(), vec![4]);
    assert_eq!(store.get(&"/a".to_string()), Some(&vec![1, 2, 3]));
    assert_eq!(store.get(&"/b".to_string()), Some(&vec![4]));
    assert_eq!(store.get(&"/c".to_string()), None);
    store.insert("/a".to_string(), vec![9]);
    assert_eq!(store.get(&"/a".to_string()), Some(&vec![9]));
}

#[test]
fn resolve_literal_and_index_fallback() {
    let store = site();
    assert_eq!(resolve(&store, &"/about.txt".to_string()), Some("/about.txt".to_string()));
    assert_eq!(resolve(&store, &"/".to_string()), Some("/index.html".to_string()));
    assert_eq!(resolve(&store, &"/docs/".to_string()), Some("/docs/index.html".to_string()));
    assert_eq!(resolve(&store, &"/docs".to_string()), None);
    assert_eq!(resolve(&store, &"/missing/".to_string()), None);
    assert_eq!(resolve(&store, &"".to_string()), None);
}

#[test]
fn every_stored_file_is_served_exactly() {
    let server = FileServer::new(site(), false);
    let files: [(&str, &[u8]); 5] = [
        ("/index.html", b"<h1>home</h1>"),
        ("/about.txt", b"about us"),
        ("/docs/index.html", b"docs index"),
        ("/docs/guide.html", b"guide"),
        ("/empty.bin", b""),
    ];
    for (path, content) in files.iter() {
        let r = server.handle(&get(path));
        assert_eq!(r.status, Status::Success);
        assert_eq!(r.status.code(), 200);
        assert!(r.location.is_none());
        assert_eq!(r.body, content.to_vec());
    }
    let r = server.handle(&get("/guide.html"));
    assert_empty(&r, Status::NotFound);
}

#[test]
fn root_and_index_html_agree() {
    let server = FileServer::new(site(), false);
    let root = server.handle(&get("/"));
    let index = server.handle(&get("/index.html"));
    assert_eq!(root.status, index.status);
    assert_eq!(root.location, index.location);
    assert_eq!(root.body, index.body);
    assert_eq!(root.body, b"<h1>home</h1>".to_vec());
}

#[test]
fn trailing_slash_serves_directory_index() {
    let server = FileServer::new(site(), false);
    let r = server.handle(&get("/docs/"));
    assert_eq!(r.status, Status::Success);
    assert_eq!(r.body, b"docs index".to_vec());
}

#[test]
fn unknown_path_is_not_found() {
    let server = FileServer::new(site(), false);
    for path in ["/nope", "/docs", "/missing/", "/docs/guide.html/", "about.txt"].iter() {
        let r = server.handle(&get(path));
        assert_empty(&r, Status::NotFound);
        assert_eq!(r.status.code(), 404);
    }
}

#[test]
fn non_get_methods_are_rejected() {
    for redirect in [false, true].iter() {
        let server = FileServer::new(site(), *redirect);
        for method in ["HEAD", "POST", "PUT", "DELETE", "get", "OPTIONS"].iter() {
            let r = server.handle(&request(
                method,
                "/index.html",
                None,
                &[("x-forwarded-proto", "http"), ("host", "example.com")],
            ));
            assert_empty(&r, Status::MethodNotAllowed);
            assert_eq!(r.status.code(), 405);
        }
    }
    let empty = FileServer::new(ContentStore::new(), false);
    assert_empty(&empty.handle(&request("POST", "/", None, &[])), Status::MethodNotAllowed);
}

#[test]
fn forwarded_http_is_redirected_to_https() {
    let server = FileServer::new(site(), true);
    let req = request(
        "GET",
        "/a",
        Some("b=1"),
        &[("x-forwarded-proto", "http"), ("host", "example.com")],
    );
    let r = server.handle(&req);
    assert_eq!(r.status, Status::MovedPermanently);
    assert_eq!(r.status.code(), 301);
    assert_eq!(r.location, Some("https://example.com/a?b=1".to_string()));
    assert!(r.body.is_empty());
}

#[test]
fn redirect_skips_cache_lookup() {
    let server = FileServer::new(site(), true);
    let req = request(
        "GET",
        "/about.txt",
        None,
        &[("X-Forwarded-Proto", "http"), ("Host", "example.com:8080")],
    );
    let r = server.handle(&req);
    assert_eq!(r.status, Status::MovedPermanently);
    assert_eq!(r.location, Some("https://example.com:8080/about.txt".to_string()));
    assert!(r.body.is_empty());
}

#[test]
fn redirect_falls_back_to_target_authority() {
    let server = FileServer::new(site(), true);
    let mut req = request("GET", "/docs/", None, &[("x-forwarded-proto", "http")]);
    req.authority = Some("h2.example.org".to_string());
    let r = server.handle(&req);
    assert_eq!(r.status, Status::MovedPermanently);
    assert_eq!(r.location, Some("https://h2.example.org/docs/".to_string()));
}

#[test]
fn redirect_without_authority_is_bad_request() {
    let server = FileServer::new(site(), true);
    let req = request("GET", "/", None, &[("x-forwarded-proto", "http")]);
    let r = server.handle(&req);
    assert_empty(&r, Status::BadRequest);
    assert_eq!(r.status.code(), 400);
}

#[test]
fn redirect_with_invalid_authority_is_bad_request() {
    let server = FileServer::new(site(), true);
    let req = request("GET", "/", None, &[("x-forwarded-proto", "http"), ("host", "bad host")]);
    assert_empty(&server.handle(&req), Status::BadRequest);
}

#[test]
fn no_redirect_routes_normally() {
    let headers = [("x-forwarded-proto", "http"), ("host", "example.com")];
    let disabled = FileServer::new(site(), false);
    let r = disabled.handle(&request("GET", "/about.txt", Some("b=1"), &headers));
    assert_eq!(r.status, Status::Success);
    assert_eq!(r.body, b"about us".to_vec());
    let r = disabled.handle(&request("GET", "/a", Some("b=1"), &headers));
    assert_empty(&r, Status::NotFound);

    let enabled = FileServer::new(site(), true);
    let absent = enabled.handle(&request("GET", "/about.txt", None, &[("host", "example.com")]));
    assert_eq!(absent.status, Status::Success);
    for value in ["https", "HTTP", "http ", ""].iter() {
        let r = enabled.handle(&request(
            "GET",
            "/a",
            Some("b=1"),
            &[("x-forwarded-proto", value), ("host", "example.com")],
        ));
        assert_empty(&r, Status::NotFound);
    }
}

#[test]
fn first_matching_header_decides() {
    let enabled = FileServer::new(site(), true);
    let r = enabled.handle(&request(
        "GET",
        "/about.txt",
        None,
        &[("x-forwarded-proto", "https"), ("x-forwarded-proto", "http"), ("host", "a.b")],
    ));
    assert_eq!(r.status, Status::Success);
}

#[test]
fn header_lookup_ignores_ascii_case() {
    let headers = vec![
        ("Accept".to_string(), "*/*".to_string()),
        ("HOST".to_string(), "one".to_string()),
        ("host".to_string(), "two".to_string()),
    ];
    assert_eq!(find_header(&headers, "host"), Some(&"one".to_string()));
    assert_eq!(find_header(&headers, "accept"), Some(&"*/*".to_string()));
    assert_eq!(find_header(&headers, "x-forwarded-proto"), None);
    assert!(str_eq_ignore_ascii_case("X-Forwarded-Proto", "x-forwarded-proto"));
    assert!(!str_eq_ignore_ascii_case("x-forwarded-prot", "x-forwarded-proto"));
    assert!(!str_eq_ignore_ascii_case("x_forwarded_proto", "x-forwarded-proto"));
}

#[test]
fn redirect_decision_and_location() {
    let req = request("GET", "/p", Some("q"), &[("x-forwarded-proto", "http"), ("host", "h.io")]);
    assert!(should_redirect(true, &req));
    assert!(!should_redirect(false, &req));
    assert_eq!(https_location(&req), Some("https://h.io/p?q".to_string()));
    let r = redirect_response(Some("https://x/".to_string()));
    assert_eq!(r.status, Status::MovedPermanently);
    assert_eq!(r.location, Some("https://x/".to_string()));
    assert_empty(&redirect_response(None), Status::BadRequest);
}

#[test]
fn trailing_slash_detection() {
    assert!(str_ends_with_slash("/"));
    assert!(str_ends_with_slash("/docs/"));
    assert!(!str_ends_with_slash("/docs"));
    assert!(!str_ends_with_slash(""));
}

#[test]
fn empty_root_serves_nothing() {
    let mut walk = Preloader::new();
    let root = walk.next_path().unwrap();
    assert_eq!(root, "");
    walk.record(root, Entry::Directory(Vec::new()));
    assert!(walk.is_done());
    assert_eq!(walk.next_path(), None);
    let server = FileServer::new(walk.finish(), false);
    for path in ["/", "/index.html", "/a", ""].iter() {
        assert_empty(&server.handle(&get(path)), Status::NotFound);
    }
}

#[test]
fn preloader_walks_breadth_first() {
    let mut walk = Preloader::new();
    let root = walk.next_path().unwrap();
    walk.record(root, Entry::Directory(vec!["docs".to_string(), "index.html".to_string()]));
    let docs = walk.next_path().unwrap();
    assert_eq!(docs, "/docs");
    walk.record(docs, Entry::Directory(vec!["guide.html".to_string()]));
    let index = walk.next_path().unwrap();
    assert_eq!(index, "/index.html");
    walk.record(index, Entry::File(b"home".to_vec()));
    let guide = walk.next_path().unwrap();
    assert_eq!(guide, "/docs/guide.html");
    walk.record(guide, Entry::File(b"guide".to_vec()));
    assert!(walk.is_done());
    let store = walk.finish();
    assert_eq!(store.get(&"/index.html".to_string()), Some(&b"home".to_vec()));
    assert_eq!(store.get(&"/docs/guide.html".to_string()), Some(&b"guide".to_vec()));
    assert_eq!(store.get(&"/docs".to_string()), None);
    let server = FileServer::new(store, false);
    assert_eq!(server.handle(&get("/")).body, b"home".to_vec());
}

#[test]
fn status_codes() {
    assert_eq!(Status::Success.code(), 200);
    assert_eq!(Status::MovedPermanently.code(), 301);
    assert_eq!(Status::BadRequest.code(), 400);
    assert_eq!(Status::NotFound.code(), 404);
    assert_eq!(Status::MethodNotAllowed.code(), 405);
}

use vstd::prelude::*;

use crate::store::ContentStore;
use crate::text::{ends_with_slash, opt_view, str_ends_with_slash};

verus! {

/// The name that a directory-like path falls back to.
pub open spec fn index_file() -> Seq<char> {
    seq!['i', 'n', 'd', 'e', 'x', '.', 'h', 't', 'm', 'l']
}

/// The store key that a request path resolves to: the literal path if it is
/// stored, else, for a path ending in `/`, that path with `index.html`
/// appended if that is stored, else nothing.
pub open spec fn resolve_key(m: Map<Seq<char>, Seq<u8>>, path: Seq<char>) -> Option<Seq<char>> {
    if m.contains_key(path) {
        Some(path)
    } else if ends_with_slash(path) && m.contains_key(path + index_file()) {
        Some(path + index_file())
    } else {
        None
    }
}

/// Maps a request path to a key present in `store`, probing it at most twice.
pub fn resolve(store: &ContentStore, path: &String) -> (r: Option<String>)
    ensures
        opt_view(r) == resolve_key(store@, path@),
        r matches Some(k) ==> store@.contains_key(k@),
{
    if store.contains_key(path) {
        return Some(path.clone());
    }
    if !str_ends_with_slash(path.as_str()) {
        return None;
    }
    let mut candidate = path.clone();
    let suffix = "index.html";
    proof {
        reveal_strlit("index.html");
    }
    candidate.append(suffix);
    assert(suffix@ == index_file());
    if store.contains_key(&candidate) {
        Some(candidate)
    } else {
        None
    }
}

} // verus!

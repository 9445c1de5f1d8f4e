use std::collections::VecDeque;
use vstd::prelude::*;

use crate::store::ContentStore;

verus! {

/// The key of the entry `name` inside the directory whose key is `dir`.
pub open spec fn child_key(dir: Seq<char>, name: Seq<char>) -> Seq<char> {
    dir + seq!['/'] + name
}

/// The keys of the entries `names` inside the directory whose key is `dir`.
pub open spec fn child_keys(dir: Seq<char>, names: Seq<String>) -> Seq<Seq<char>> {
    names.map_values(|n: String| child_key(dir, n@))
}

/// What was found at a path that the preloader asked about.
pub enum Entry {
    /// A directory, with the names of its entries.
    Directory(Vec<String>),
    /// A regular file, with its full contents.
    File(Vec<u8>),
}

/// A breadth-first walk of a directory tree that fills a content store.
///
/// Paths are relative to the root, written with `/` and starting with `/`
/// below the root; the root itself is the empty path. The walk names the
/// next path to visit; its caller looks at that path on disk and records
/// what it found, until no path is left.
pub struct Preloader {
    pending: VecDeque<String>,
    store: ContentStore,
}

impl Preloader {
    /// The paths still to visit, in order.
    pub closed spec fn pending(&self) -> Seq<Seq<char>> {
        self.pending@.map_values(|s: String| s@)
    }

    /// The content loaded so far.
    pub closed spec fn loaded(&self) -> Map<Seq<char>, Seq<u8>> {
        self.store@
    }

    /// A walk that starts at the root, with nothing loaded yet.
    pub fn new() -> (r: Preloader)
        ensures
            r.pending() == seq![Seq::<char>::empty()],
            r.loaded() == Map::<Seq<char>, Seq<u8>>::empty(),
    {
        let mut pending: VecDeque<String> = VecDeque::new();
        pending.push_back(String::new());
        let r = Preloader { pending, store: ContentStore::new() };
        assert(r.pending() =~= seq![Seq::<char>::empty()]);
        r
    }

    /// Whether every path has been visited.
    pub fn is_done(&self) -> (r: bool)
        ensures
            r == (self.pending().len() == 0),
    {
        self.pending.len() == 0
    }

    /// Takes the next path to visit, or `None` where the walk is complete.
    pub fn next_path(&mut self) -> (r: Option<String>)
        ensures
            final(self).loaded() == old(self).loaded(),
            old(self).pending().len() == 0 ==> r is None && final(self).pending() == old(
                self,
            ).pending(),
            old(self).pending().len() > 0 ==> r is Some && r->0@ == old(self).pending()[0]
                && final(self).pending() == old(self).pending().drop_first(),
    {
        let r = self.pending.pop_front();
        proof {
            if old(self).pending().len() > 0 {
                assert(self.pending() =~= old(self).pending().drop_first());
            }
        }
        r
    }

    /// Records what was found at `path`: a file's content is stored under
    /// `path`; a directory's entries are queued after every pending path.
    pub fn record(&mut self, path: String, entry: Entry)
        ensures
            match entry {
                Entry::Directory(names) => final(self).pending() == old(self).pending()
                    + child_keys(path@, names@) && final(self).loaded() == old(self).loaded(),
                Entry::File(content) => final(self).loaded() == old(self).loaded().insert(
                    path@,
                    content@,
                ) && final(self).pending() == old(self).pending(),
            },
    {
        match entry {
            Entry::Directory(names) => {
                let mut i: usize = 0;
                while i < names.len()
                    invariant
                        i <= names@.len(),
                        self.loaded() == old(self).loaded(),
                        self.pending() == old(self).pending() + child_keys(
                            path@,
                            names@.subrange(0, i as int),
                        ),
                    decreases names@.len() - i,
                {
                    let mut key = path.clone();
                    let sep = "/";
                    proof {
                        reveal_strlit("/");
                    }
                    key.append(sep);
                    key.append(names[i].as_str());
                    assert(sep@ =~= seq!['/']);
                    assert(key@ == child_key(path@, names@[i as int]@));
                    let ghost before = self.pending();
                    let ghost raw = self.pending@;
                    self.pending.push_back(key);
                    assert(self.pending@ == raw.push(key));
                    assert(self.pending() =~= before.push(child_key(path@, names@[i as int]@)));
                    assert(names@.subrange(0, i + 1) =~= names@.subrange(0, i as int).push(
                        names@[i as int],
                    ));
                    assert(child_keys(path@, names@.subrange(0, i + 1)) =~= child_keys(
                        path@,
                        names@.subrange(0, i as int),
                    ).push(child_key(path@, names@[i as int]@)));
                    i = i + 1;
                }
                assert(names@.subrange(0, names@.len() as int) =~= names@);
            },
            Entry::File(content) => {
                self.store.insert(path, content);
            },
        }
    }

    /// The store that the walk has filled.
    pub fn finish(self) -> (r: ContentStore)
        ensures
            r@ == self.loaded(),
    {
        self.store
    }
}

} // verus!

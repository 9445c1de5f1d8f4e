use vstd::prelude::*;

verus! {

/// The mapping from a normalized request path to the exact bytes of a file.
///
/// Entries are kept in insertion order; a later entry for a key shadows an
/// earlier one, so the store behaves as a map under `insert`.
pub struct ContentStore {
    entries: Vec<(String, Vec<u8>)>,
}

/// The map that a sequence of entries denotes: later entries win.
pub open spec fn entries_map(s: Seq<(String, Vec<u8>)>) -> Map<Seq<char>, Seq<u8>>
    decreases s.len(),
{
    if s.len() == 0 {
        Map::empty()
    } else {
        entries_map(s.drop_last()).insert(s.last().0@, s.last().1@)
    }
}

proof fn lemma_entries_map_absent(s: Seq<(String, Vec<u8>)>, k: Seq<char>)
    requires
        forall|j: int| 0 <= j < s.len() ==> s[j].0@ != k,
    ensures
        !entries_map(s).contains_key(k),
    decreases s.len(),
{
    if s.len() > 0 {
        lemma_entries_map_absent(s.drop_last(), k);
    }
}

proof fn lemma_entries_map_found(s: Seq<(String, Vec<u8>)>, k: Seq<char>, i: int)
    requires
        0 <= i < s.len(),
        s[i].0@ == k,
        forall|j: int| i < j < s.len() ==> s[j].0@ != k,
    ensures
        entries_map(s).contains_key(k),
        entries_map(s)[k] == s[i].1@,
    decreases s.len(),
{
    if i < s.len() - 1 {
        lemma_entries_map_found(s.drop_last(), k, i);
    }
}

impl View for ContentStore {
    type V = Map<Seq<char>, Seq<u8>>;

    closed spec fn view(&self) -> Map<Seq<char>, Seq<u8>> {
        entries_map(self.entries@)
    }
}

impl ContentStore {
    /// A store with no content.
    pub fn new() -> (r: ContentStore)
        ensures
            r@ == Map::<Seq<char>, Seq<u8>>::empty(),
    {
        ContentStore { entries: Vec::new() }
    }

    /// Stores `content` under `key`, replacing any earlier content for it.
    pub fn insert(&mut self, key: String, content: Vec<u8>)
        ensures
            final(self)@ == old(self)@.insert(key@, content@),
    {
        let ghost before = self.entries@;
        self.entries.push((key, content));
        assert(self.entries@.drop_last() == before);
    }

    /// Looks up the content stored under `key`.
    pub fn get(&self, key: &String) -> (r: Option<&Vec<u8>>)
        ensures
            match r {
                Some(c) => self@.contains_key(key@) && c@ == self@[key@],
                None => !self@.contains_key(key@),
            },
    {
        let mut i: usize = self.entries.len();
        while i > 0
            invariant
                i <= self.entries@.len(),
                forall|j: int| i <= j < self.entries@.len() ==> self.entries@[j].0@ != key@,
            decreases i,
        {
            i = i - 1;
            if self.entries[i].0 == *key {
                proof {
                    lemma_entries_map_found(self.entries@, key@, i as int);
                }
                return Some(&self.entries[i].1);
            }
        }
        proof {
            lemma_entries_map_absent(self.entries@, key@);
        }
        None
    }

    /// Whether any content is stored under `key`.
    pub fn contains_key(&self, key: &String) -> (r: bool)
        ensures
            r == self@.contains_key(key@),
    {
        self.get(key).is_some()
    }
}

} // verus!

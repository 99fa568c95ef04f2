//! The content store: a session-lifetime cache from a string identifier
//! (filename or composite key) to previously fetched and parsed content, so
//! that revisiting a route does not fetch again. Shared by all page
//! instances; entries are overwritten or removed, never evicted.

use vstd::hash_map::StringHashMap;
use vstd::prelude::*;

verus! {

/// Keyed cache of rendered content. Its abstract value is the map from
/// identifier to stored content.
pub struct MarkdownStore {
    map: StringHashMap<String>,
}

impl View for MarkdownStore {
    type V = Map<Seq<char>, String>;

    closed spec fn view(&self) -> Map<Seq<char>, String> {
        self.map@
    }
}

impl MarkdownStore {
    /// Creates an empty store.
    pub fn new() -> (r: Self)
        ensures
            r@ == Map::<Seq<char>, String>::empty(),
    {
        MarkdownStore { map: StringHashMap::new() }
    }

    /// Looks an identifier up; `None` exactly when nothing is stored for it.
    pub fn get<'a>(&'a self, key: &String) -> (r: Option<&'a String>)
        ensures
            self@.contains_key(key@) ==> (r matches Some(v) && *v == self@[key@]),
            !self@.contains_key(key@) ==> r is None,
    {
        self.map.get(key.as_str())
    }

    /// True exactly when something is stored for the identifier.
    pub fn contains_key(&self, key: &String) -> (r: bool)
        ensures
            r == self@.contains_key(key@),
    {
        self.map.contains_key(key.as_str())
    }

    /// Stores content for an identifier, overwriting any prior entry.
    pub fn set(&mut self, key: String, content: String)
        ensures
            final(self)@ == old(self)@.insert(key@, content),
    {
        self.map.insert(key, content);
    }

    /// Drops the entry for an identifier; a no-op when none is stored.
    pub fn remove(&mut self, key: &String)
        ensures
            final(self)@ == old(self)@.remove(key@),
    {
        self.map.remove(key.as_str());
    }
}

impl Default for MarkdownStore {
    /// An empty store.
    fn default() -> (r: Self)
        ensures
            r@ == Map::<Seq<char>, String>::empty(),
    {
        MarkdownStore::new()
    }
}

/// After content `v` is stored under key `k`, looking `k` up yields `v`, and
/// it keeps yielding `v` across stores and removals for any other key: only
/// the next store or removal for `k` itself can change the entry.
pub proof fn lemma_store_set_then_get(
    m: Map<Seq<char>, String>,
    k: Seq<char>,
    v: String,
    k2: Seq<char>,
    v2: String,
)
    ensures
        m.insert(k, v).contains_key(k),
        m.insert(k, v)[k] == v,
        k2 != k ==> m.insert(k, v).insert(k2, v2).contains_key(k),
        k2 != k ==> m.insert(k, v).insert(k2, v2)[k] == v,
        k2 != k ==> m.insert(k, v).remove(k2).contains_key(k),
        k2 != k ==> m.insert(k, v).remove(k2)[k] == v,
{
}

} // verus!

//! The key/value store that all connections share. It knows nothing of the
//! network: whoever shares it sees to it that one operation runs at a time.
use vstd::hash_map::StringHashMap;
use vstd::prelude::*;

verus! {

/// A mapping from key to hash, with at most one hash per key.
pub struct Store {
    map: StringHashMap<String>,
}

impl View for Store {
    type V = Map<Seq<char>, Seq<char>>;

    closed spec fn view(&self) -> Map<Seq<char>, Seq<char>> {
        self.map@.map_values(|hash: String| hash@)
    }
}

impl Store {
    /// A store that holds nothing.
    pub fn new() -> (store: Store)
        ensures
            store@ == Map::<Seq<char>, Seq<char>>::empty(),
    {
        let store = Store { map: StringHashMap::new() };
        assert(store@ =~= Map::<Seq<char>, Seq<char>>::empty());
        store
    }

    /// Keeps `hash` under `key`; a hash that was kept under `key` before is
    /// replaced. Every other key keeps what it had.
    pub fn put(&mut self, key: String, hash: String)
        ensures
            final(self)@ == old(self)@.insert(key@, hash@),
    {
        self.map.insert(key, hash);
        assert(self@ =~= old(self)@.insert(key@, hash@));
    }

    /// The hash kept under `key`, if there is one. The store stays as it is.
    pub fn get(&self, key: &str) -> (hash: Option<String>)
        ensures
            match hash {
                Some(found) => self@.contains_key(key@) && found@ == self@[key@],
                None => !self@.contains_key(key@),
            },
    {
        match self.map.get(key) {
            Some(found) => Some(found.clone()),
            None => None,
        }
    }

    /// The number of keys kept.
    pub fn size(&self) -> (count: usize)
        ensures
            count == self@.len(),
    {
        assert(self@.dom() =~= self.map@.dom());
        self.map.len()
    }
}

} // verus!

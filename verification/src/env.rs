//! The ambient store: a snapshot of string keys and string values that a load
//! pass reads and never changes.

use vstd::hash_map::StringHashMap;
use vstd::prelude::*;
use vstd::string::StringExecFns;

verus! {

/// A key/value store of texts. Keys are kept as given; a load pass looks a
/// value up under the upper-case form of its path.
pub struct Env {
    vars: StringHashMap<String>,
}

impl View for Env {
    type V = Map<Seq<char>, Seq<char>>;

    closed spec fn view(&self) -> Map<Seq<char>, Seq<char>> {
        Map::new(|k: Seq<char>| self.vars@.contains_key(k), |k: Seq<char>| self.vars@[k]@)
    }
}

impl Env {
    /// A store without any key.
    pub fn new() -> (r: Self)
        ensures
            r@ == Map::<Seq<char>, Seq<char>>::empty(),
    {
        let r = Env { vars: StringHashMap::new() };
        assert(r@ =~= Map::<Seq<char>, Seq<char>>::empty());
        r
    }

    /// Sets `key` to `value`, replacing what the key held before.
    pub fn set(&mut self, key: &str, value: &str)
        ensures
            final(self)@ == old(self)@.insert(key@, value@),
    {
        self.vars.insert(String::from_str(key), String::from_str(value));
        assert(self@ =~= old(self)@.insert(key@, value@));
    }

    /// Takes `key` out of the store, if it is there.
    pub fn unset(&mut self, key: &str)
        ensures
            final(self)@ == old(self)@.remove(key@),
    {
        self.vars.remove(key);
        assert(self@ =~= old(self)@.remove(key@));
    }

    /// The text stored under exactly `key`, if any.
    pub fn get(&self, key: &str) -> (r: Option<&str>)
        ensures
            match r {
                Some(text) => self@.contains_key(key@) && text@ == self@[key@],
                None => !self@.contains_key(key@),
            },
    {
        match self.vars.get(key) {
            Some(text) => Some(text.as_str()),
            None => None,
        }
    }
}

} // verus!

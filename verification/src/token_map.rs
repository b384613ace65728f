//! Per-world storage for the generic registration path: a hash map from a
//! type-identity token to the cached identifier, backed by
//! `hashbrown::HashMap`.
//!
//! The map itself is outside code, so Verus sees it only through the
//! contracts below: [`token_map_contents`] names what the map holds, and each
//! method states, over that name, what `hashbrown`'s source shows of the call
//! it makes.

use vstd::prelude::*;

verus! {

/// A map from type-identity tokens to cached identifiers.
///
/// Holds a `hashbrown::HashMap<u64, u64>`; Verus does not read the field, so
/// all knowledge of a `TokenMap` comes from the contracts of the methods
/// below.
#[verifier::external_body]
pub struct TokenMap {
    inner: hashbrown::HashMap<u64, u64>,
}

/// What a [`TokenMap`] holds, as a mathematical map.
pub uninterp spec fn token_map_contents(m: TokenMap) -> Map<u64, u64>;

/// The contents of a map that holds nothing.
pub open spec fn empty_token_map() -> Map<u64, u64> {
    Map::empty()
}

impl TokenMap {
    /// Relies on `hashbrown::HashMap::new`: the new map is empty.
    #[verifier::external_body]
    pub fn new() -> (r: TokenMap)
        ensures
            token_map_contents(r) == empty_token_map(),
    {
        TokenMap { inner: hashbrown::HashMap::new() }
    }

    /// Relies on `hashbrown::HashMap::get`: returns the value stored under
    /// `token`, or `None` when the key is absent.
    #[verifier::external_body]
    pub fn get(&self, token: u64) -> (r: Option<u64>)
        ensures
            match r {
                Option::Some(v) => token_map_contents(*self).contains_key(token)
                    && v == token_map_contents(*self)[token],
                Option::None => !token_map_contents(*self).contains_key(token),
            },
    {
        self.inner.get(&token).copied()
    }

    /// Relies on `hashbrown::HashMap::contains_key`: returns whether the key
    /// is present.
    #[verifier::external_body]
    pub fn contains_key(&self, token: u64) -> (r: bool)
        ensures
            r == token_map_contents(*self).contains_key(token),
    {
        self.inner.contains_key(&token)
    }

    /// Relies on `hashbrown::HashMap::insert`: stores `id` under `token`,
    /// replacing any value the key held before.
    #[verifier::external_body]
    pub fn insert(&mut self, token: u64, id: u64)
        ensures
            token_map_contents(*final(self)) == token_map_contents(*old(self)).insert(token, id),
    {
        self.inner.insert(token, id);
    }
}

} // verus!

//! A world: an independent instance of the entity store together with the
//! per-world registry caches.
//!
//! The store hands out 64-bit identifiers whose low 32 bits are a raw number
//! (the record index plus one) and whose next 28 bits are a generation
//! counter.  A destroyed record's raw number may be reused; the store then
//! increments the generation, so the old identifier is never live again.
//! Liveness of an identifier — whether it still denotes an existing,
//! non-destroyed entity — is the query the registry uses to invalidate stale
//! cache entries.
//!
//! Each world also owns the two registry storage structures: a growable slot
//! array indexed by process-wide type slot indices, and a token-keyed map for
//! types whose identity is only known per instantiation.  No two worlds share
//! any of this state.

use vstd::prelude::*;

use crate::id::is_pair;
use crate::id::make_pair;
use crate::id::pair_first;
use crate::id::spec_is_pair;
use crate::id::spec_make_pair;
use crate::id::spec_pair_first;
use crate::token_map::TokenMap;
use crate::token_map::empty_token_map;
use crate::token_map::token_map_contents;

verus! {

/// One more than the largest raw number: identifiers keep their raw number in
/// the low 32 bits.
pub const RAW_LIMIT: u64 = 0x1_0000_0000;

/// One more than the largest generation: generations occupy 28 bits above the
/// raw number, below the reserved flag bits.
pub const GENERATION_LIMIT: u32 = 0x1000_0000;

/// One record of the entity store.
pub struct EntityRecord {
    /// Whether the record currently denotes a live entity.
    pub alive: bool,
    /// Bumped each time the record's raw number is reused.
    pub generation: u32,
    /// The entity's name, if it was minted with one.
    pub name: Option<String>,
    /// The identifier of the parent scope, 0 for the root.
    pub parent: u64,
    /// The full `::`-separated path of a named entity; empty otherwise.
    pub path: String,
    /// The component and pair identifiers added to the entity, without
    /// duplicates.
    pub ids: Vec<u64>,
}

/// An independent engine instance: the entity store and the registry caches.
pub struct World {
    /// The store records; the entity with raw number `r` lives at index `r - 1`.
    pub entities: Vec<EntityRecord>,
    /// Indices of destroyed records whose raw number may be reused.
    pub free: Vec<usize>,
    /// Identifier cache for statically-slotted component types, indexed by
    /// their process-wide slot index; 0 means "not registered in this world".
    pub components_array: Vec<u64>,
    /// Identifier cache for generic component types, keyed by a
    /// type-identity token.
    pub components_map: TokenMap,
}

/// The raw number of an identifier: its low 32 bits.
pub open spec fn raw_of(id: u64) -> u64 {
    id % RAW_LIMIT
}

/// The generation of an identifier: the bits above the raw number.
pub open spec fn generation_of(id: u64) -> u64 {
    id / RAW_LIMIT
}

/// The view of an optional name as an optional character sequence.
pub open spec fn name_view(name: Option<String>) -> Option<Seq<char>> {
    match name {
        Option::Some(s) => Option::Some(s@),
        Option::None => Option::None,
    }
}

impl World {
    /// Well-formedness of a world: every record's generation is in range,
    /// the free list points at distinct dead records that can still bump
    /// their generation, and no two live entities share a parent and a name.
    pub open spec fn wf(self) -> bool {
        &&& self.entities@.len() < RAW_LIMIT
        &&& forall|i: int|
            0 <= i < self.entities@.len() ==> (#[trigger] self.entities@[i]).generation
                < GENERATION_LIMIT
        &&& forall|j: int|
            0 <= j < self.free@.len() ==> (#[trigger] self.free@[j]) < self.entities@.len()
        &&& forall|j: int|
            0 <= j < self.free@.len() ==> !self.entities@[#[trigger] self.free@[j] as int].alive
        &&& forall|j: int|
            0 <= j < self.free@.len() ==> self.entities@[#[trigger] self.free@[j] as int].generation
                + 1 < GENERATION_LIMIT
        &&& forall|j: int, k: int|
            0 <= j < self.free@.len() && 0 <= k < self.free@.len() && j != k
                ==> #[trigger] self.free@[j] != #[trigger] self.free@[k]
        &&& forall|i1: int, i2: int|
            0 <= i1 < self.entities@.len() && 0 <= i2 < self.entities@.len() && i1 != i2
                && (#[trigger] self.entities@[i1]).alive && (#[trigger] self.entities@[i2]).alive
                && self.entities@[i1].name is Some && name_view(self.entities@[i1].name)
                == name_view(self.entities@[i2].name) && self.entities@[i1].parent
                == self.entities@[i2].parent ==> false
    }

    /// The record an identifier's raw number points at.
    pub open spec fn rec(self, id: u64) -> EntityRecord {
        self.entities@[raw_of(id) - 1]
    }

    /// Whether `id` denotes a live entity of this world: its raw number
    /// points at a live record of the matching generation.
    pub open spec fn live(self, id: u64) -> bool {
        &&& 1 <= raw_of(id) <= self.entities@.len()
        &&& self.rec(id).alive
        &&& self.rec(id).generation == generation_of(id)
    }

    /// The name of a live entity, as a character sequence.
    pub open spec fn name_of(self, id: u64) -> Option<Seq<char>> {
        name_view(self.rec(id).name)
    }

    /// The parent scope of a live entity.
    pub open spec fn parent_of(self, id: u64) -> u64 {
        self.rec(id).parent
    }

    /// The full path of a live named entity.
    pub open spec fn path_of(self, id: u64) -> Seq<char> {
        self.rec(id).path@
    }

    /// The component and pair identifiers added to a live entity.
    pub open spec fn ids_of(self, id: u64) -> Seq<u64> {
        self.rec(id).ids@
    }

    /// Whether some live entity of this world carries `name` under `parent`.
    pub open spec fn has_named(self, parent: u64, name: Seq<char>) -> bool {
        exists|x: u64|
            #[trigger] self.live(x) && self.name_of(x) == Option::Some(name) && self.parent_of(x)
                == parent
    }

    /// A fresh world: no entities, nothing registered.
    pub fn new() -> (r: World)
        ensures
            r.wf(),
            r.entities@.len() == 0,
            r.components_array@.len() == 0,
            token_map_contents(r.components_map) == empty_token_map(),
            forall|x: u64| !r.live(x),
    {
        World {
            entities: Vec::new(),
            free: Vec::new(),
            components_array: Vec::new(),
            components_map: TokenMap::new(),
        }
    }

    /// Returns whether `id` denotes a live entity of this world.
    pub fn is_alive(&self, id: u64) -> (r: bool)
        ensures
            r == self.live(id),
    {
        let raw = id % RAW_LIMIT;
        let generation = id / RAW_LIMIT;
        if raw == 0 {
            return false;
        }
        let index = (raw - 1) as usize;
        if index >= self.entities.len() {
            return false;
        }
        let record = &self.entities[index];
        record.alive && record.generation as u64 == generation
    }

    /// Creates a record for a fresh entity and returns its identifier,
    /// reusing a destroyed record's raw number (with the generation bumped)
    /// when one is available.  The identifier is nonzero, was not live
    /// before, and carries no flag bits; no other entity is affected and the
    /// registry caches are untouched.
    fn mint_entity(&mut self, name: Option<String>, parent: u64, path: String) -> (id: u64)
        requires
            old(self).wf(),
            old(self).entities@.len() + 1 < RAW_LIMIT,
            name is Some ==> !old(self).has_named(parent, name.unwrap()@),
        ensures
            final(self).wf(),
            final(self).live(id),
            !old(self).live(id),
            id != 0,
            id < 0x1000_0000_0000_0000,
            final(self).name_of(id) == name_view(name),
            final(self).parent_of(id) == parent,
            final(self).path_of(id) == path@,
            final(self).ids_of(id).len() == 0,
            forall|x: u64| x != id ==> final(self).live(x) == old(self).live(x),
            forall|x: u64|
                old(self).live(x) && x != id ==> final(self).rec(x) == old(self).rec(x),
            final(self).components_array == old(self).components_array,
            final(self).components_map == old(self).components_map,
            final(self).entities@.len() <= old(self).entities@.len() + 1,
    {
        let ghost pre = *self;
        let record_name = name;
        if self.free.len() > 0 {
            let index = self.free[self.free.len() - 1];
            self.free.pop();
            let generation = self.entities[index].generation + 1;
            self.entities[index] = EntityRecord {
                alive: true,
                generation,
                name: record_name,
                parent,
                path,
                ids: Vec::new(),
            };
            let id = (index as u64 + 1) + generation as u64 * RAW_LIMIT;
            proof {
                lemma_id_decompose((index + 1) as u64, generation as u64);
                assert forall|x: u64| x != id implies self.live(x) == pre.live(x) by {
                    if 1 <= raw_of(x) <= pre.entities@.len() && raw_of(x) - 1 == index
                        && self.live(x) {
                        lemma_raw_generation_unique(x, id);
                    }
                }
                lemma_fresh_name_unique(pre, *self, index as int, name, parent);
            }
            id
        } else {
            let index = self.entities.len();
            self.entities.push(
                EntityRecord {
                    alive: true,
                    generation: 0,
                    name: record_name,
                    parent,
                    path,
                    ids: Vec::new(),
                },
            );
            let id = index as u64 + 1;
            proof {
                lemma_id_decompose((index + 1) as u64, 0);
                assert forall|x: u64| x != id implies self.live(x) == pre.live(x) by {
                    if 1 <= raw_of(x) <= self.entities@.len() && raw_of(x) - 1 == index
                        && self.live(x) {
                        lemma_raw_generation_unique(x, id);
                    }
                }
                lemma_fresh_name_unique(pre, *self, index as int, name, parent);
            }
            id
        }
    }

    /// Mints a fresh, unnamed entity at the root scope.
    pub fn entity(&mut self) -> (id: u64)
        requires
            old(self).wf(),
            old(self).entities@.len() + 1 < RAW_LIMIT,
        ensures
            final(self).wf(),
            final(self).live(id),
            !old(self).live(id),
            id != 0,
            id < 0x1000_0000_0000_0000,
            final(self).ids_of(id).len() == 0,
            forall|x: u64| x != id ==> final(self).live(x) == old(self).live(x),
            forall|x: u64|
                old(self).live(x) && x != id ==> final(self).rec(x) == old(self).rec(x),
            final(self).components_array == old(self).components_array,
            final(self).components_map == old(self).components_map,
            final(self).entities@.len() <= old(self).entities@.len() + 1,
    {
        self.mint_entity(Option::None, 0, String::new())
    }

    /// Destroys a live entity: its identifier stops being live, and its raw
    /// number becomes reusable under a higher generation.  Destroying an
    /// identifier that is not live does nothing.
    pub fn destruct(&mut self, id: u64)
        requires
            old(self).wf(),
        ensures
            final(self).wf(),
            !final(self).live(id),
            forall|x: u64| x != id ==> final(self).live(x) == old(self).live(x),
            forall|x: u64|
                old(self).live(x) && x != id ==> final(self).rec(x) == old(self).rec(x),
            final(self).components_array == old(self).components_array,
            final(self).components_map == old(self).components_map,
            final(self).entities@.len() == old(self).entities@.len(),
    {
        let ghost pre = *self;
        if self.is_alive(id) {
            let index = ((id % RAW_LIMIT) - 1) as usize;
            let record = &mut self.entities[index];
            record.alive = false;
            let generation = self.entities[index].generation;
            if generation + 1 < GENERATION_LIMIT {
                self.free.push(index);
            }
            proof {
                assert forall|x: u64| x != id implies self.live(x) == pre.live(x) by {
                    if 1 <= raw_of(x) <= pre.entities@.len() && raw_of(x) - 1 == index
                        && pre.live(x) {
                        lemma_raw_generation_unique(x, id);
                    }
                }
            }
        }
    }
}

/// Whether `id` is a pair whose relationship half matches `rel`'s raw
/// number, as the pair layout truncates it.
pub open spec fn rel_match(id: u64, rel: u64) -> bool {
    spec_is_pair(id) && spec_pair_first(id) == rel % 0x1000_0000
}

/// How many identifiers of `ids` are pairs on the relationship `rel`.  Since
/// a world never stores duplicate identifiers on one entity, this is the
/// number of distinct targets added under `rel`.
pub open spec fn count_rel_targets(ids: Seq<u64>, rel: u64) -> nat
    decreases ids.len(),
{
    if ids.len() == 0 {
        0
    } else {
        count_rel_targets(ids.drop_last(), rel) + (if rel_match(ids.last(), rel) {
            1nat
        } else {
            0nat
        })
    }
}

/// Returns whether `v` holds `x`.
fn vec_contains(v: &Vec<u64>, x: u64) -> (r: bool)
    ensures
        r == v@.contains(x),
{
    let mut i: usize = 0;
    while i < v.len()
        invariant
            i <= v@.len(),
            forall|k: int| 0 <= k < i ==> v@[k] != x,
        decreases v@.len() - i,
    {
        if v[i] == x {
            return true;
        }
        i += 1;
    }
    false
}

impl World {
    /// Looks a live entity up by its parent scope and name.
    pub fn lookup(&self, parent: u64, name: &str) -> (r: Option<u64>)
        requires
            self.wf(),
        ensures
            match r {
                Option::Some(id) => self.live(id) && self.name_of(id) == Option::Some(name@)
                    && self.parent_of(id) == parent,
                Option::None => !self.has_named(parent, name@),
            },
    {
        let want: String = name.to_owned();
        let mut i: usize = 0;
        while i < self.entities.len()
            invariant
                self.wf(),
                want@ == name@,
                i <= self.entities@.len(),
                forall|k: int|
                    0 <= k < i ==> !((#[trigger] self.entities@[k]).alive
                        && name_view(self.entities@[k].name) == Option::Some(name@)
                        && self.entities@[k].parent == parent),
            decreases self.entities@.len() - i,
        {
            let record = &self.entities[i];
            if record.alive && record.parent == parent {
                let name_matches = match &record.name {
                    Option::Some(n) => *n == want,
                    Option::None => false,
                };
                if name_matches {
                    let id = (i as u64 + 1) + record.generation as u64 * RAW_LIMIT;
                    proof {
                        lemma_id_decompose((i + 1) as u64, self.entities@[i as int].generation as u64);
                    }
                    return Option::Some(id);
                }
            }
            i += 1;
        }
        proof {
            if self.has_named(parent, name@) {
                let x = choose|x: u64|
                    #[trigger] self.live(x) && self.name_of(x) == Option::Some(name@)
                        && self.parent_of(x) == parent;
                assert(!((self.entities@[raw_of(x) - 1]).alive && name_view(
                    self.entities@[raw_of(x) - 1].name,
                ) == Option::Some(name@) && self.entities@[raw_of(x) - 1].parent == parent));
            }
        }
        Option::None
    }

    /// Mints a named entity under a parent scope, or returns the one that
    /// already carries that name there: named minting is idempotent per
    /// world, parent and name.  A fresh entity's path extends the parent's
    /// path with `::` and the name.
    pub fn mint_named(&mut self, parent: u64, name: &str) -> (id: u64)
        requires
            old(self).wf(),
            old(self).entities@.len() + 1 < RAW_LIMIT,
            parent == 0 || old(self).live(parent),
        ensures
            final(self).wf(),
            final(self).live(id),
            id != 0,
            final(self).name_of(id) == Option::Some(name@),
            final(self).parent_of(id) == parent,
            old(self).has_named(parent, name@) ==> *final(self) == *old(self) && old(self).live(id),
            !old(self).has_named(parent, name@) ==> !old(self).live(id) && final(self).ids_of(
                id,
            ).len() == 0 && final(self).path_of(id) == (if parent == 0 {
                "::"@ + name@
            } else {
                old(self).path_of(parent) + "::"@ + name@
            }),
            forall|x: u64| x != id ==> final(self).live(x) == old(self).live(x),
            forall|x: u64|
                old(self).live(x) && x != id ==> final(self).rec(x) == old(self).rec(x),
            final(self).components_array == old(self).components_array,
            final(self).components_map == old(self).components_map,
            final(self).entities@.len() <= old(self).entities@.len() + 1,
    {
        match self.lookup(parent, name) {
            Option::Some(existing) => existing,
            Option::None => {
                let mut path = if parent == 0 {
                    String::new()
                } else {
                    let index = ((parent % RAW_LIMIT) - 1) as usize;
                    self.entities[index].path.clone()
                };
                path.append("::");
                path.append(name);
                proof {
                    if parent != 0 {
                        assert(path@ =~= old(self).path_of(parent) + "::"@ + name@);
                    } else {
                        assert(path@ =~= "::"@ + name@);
                    }
                }
                self.mint_entity(Option::Some(name.to_owned()), parent, path)
            },
        }
    }

    /// Returns a copy of a live entity's name, or `None` for an unnamed or
    /// dead identifier.
    pub fn get_name(&self, id: u64) -> (r: Option<String>)
        ensures
            self.live(id) ==> name_view(r) == self.name_of(id),
            !self.live(id) ==> r is None,
    {
        if self.is_alive(id) {
            let index = ((id % RAW_LIMIT) - 1) as usize;
            match &self.entities[index].name {
                Option::Some(n) => Option::Some(n.clone()),
                Option::None => Option::None,
            }
        } else {
            Option::None
        }
    }

    /// Returns a copy of a live entity's full path, or the empty string for
    /// a dead identifier.
    pub fn path(&self, id: u64) -> (r: String)
        ensures
            self.live(id) ==> r@ == self.path_of(id),
            !self.live(id) ==> r@.len() == 0,
    {
        if self.is_alive(id) {
            let index = ((id % RAW_LIMIT) - 1) as usize;
            self.entities[index].path.clone()
        } else {
            String::new()
        }
    }

    /// Returns a live entity's parent scope, or 0 for a dead identifier.
    pub fn parent(&self, id: u64) -> (r: u64)
        ensures
            r == (if self.live(id) {
                self.parent_of(id)
            } else {
                0u64
            }),
    {
        if self.is_alive(id) {
            let index = ((id % RAW_LIMIT) - 1) as usize;
            self.entities[index].parent
        } else {
            0
        }
    }

    /// Adds a component or pair identifier to a live entity; adding one the
    /// entity already has changes nothing.
    pub fn add_id(&mut self, entity: u64, component: u64)
        requires
            old(self).wf(),
            old(self).live(entity),
        ensures
            final(self).wf(),
            final(self).live(entity),
            old(self).ids_of(entity).contains(component) ==> final(self).ids_of(entity) == old(self).ids_of(entity),
            !old(self).ids_of(entity).contains(component) ==> final(self).ids_of(entity) == old(self).ids_of(entity).push(component),
            forall|x: u64| final(self).live(x) == old(self).live(x),
            forall|x: u64|
                old(self).live(x) && x != entity ==> final(self).rec(x) == old(self).rec(x),
            final(self).name_of(entity) == old(self).name_of(entity),
            final(self).parent_of(entity) == old(self).parent_of(entity),
            final(self).path_of(entity) == old(self).path_of(entity),
            final(self).components_array == old(self).components_array,
            final(self).components_map == old(self).components_map,
            final(self).entities@.len() == old(self).entities@.len(),
    {
        let ghost pre = *self;
        let index = ((entity % RAW_LIMIT) - 1) as usize;
        let found = vec_contains(&self.entities[index].ids, component);
        if !found {
            let record = &mut self.entities[index];
            record.ids.push(component);
        }
        proof {
            assert forall|x: u64| self.live(x) == pre.live(x) by {}
        }
    }

    /// Adds the pair of `relationship` and `target` to a live entity.
    pub fn add_pair(&mut self, entity: u64, relationship: u64, target: u64)
        requires
            old(self).wf(),
            old(self).live(entity),
        ensures
            final(self).wf(),
            final(self).live(entity),
            old(self).ids_of(entity).contains(spec_make_pair(relationship, target)) ==> final(self).ids_of(entity) == old(self).ids_of(entity),
            !old(self).ids_of(entity).contains(spec_make_pair(relationship, target)) ==> final(self).ids_of(entity) == old(self).ids_of(entity).push(
                spec_make_pair(relationship, target),
            ),
            forall|x: u64| final(self).live(x) == old(self).live(x),
            forall|x: u64|
                old(self).live(x) && x != entity ==> final(self).rec(x) == old(self).rec(x),
            final(self).components_array == old(self).components_array,
            final(self).components_map == old(self).components_map,
    {
        let pair = make_pair(relationship, target);
        self.add_id(entity, pair);
    }

    /// Counts how many distinct targets a live entity holds pairs with under
    /// the relationship `rel`; `None` for a dead identifier.
    pub fn target_id_count(&self, entity: u64, rel: u64) -> (r: Option<u64>)
        requires
            self.wf(),
        ensures
            self.live(entity) ==> r == Option::Some(
                count_rel_targets(self.ids_of(entity), rel) as u64,
            ),
            !self.live(entity) ==> r is None,
    {
        if !self.is_alive(entity) {
            return Option::None;
        }
        let index = ((entity % RAW_LIMIT) - 1) as usize;
        let ids = &self.entities[index].ids;
        let mut count: u64 = 0;
        let mut i: usize = 0;
        while i < ids.len()
            invariant
                i <= ids@.len(),
                ids@ == self.ids_of(entity),
                count == count_rel_targets(ids@.subrange(0, i as int), rel),
                count <= i,
            decreases ids@.len() - i,
        {
            let v = ids[i];
            if is_pair(v) && pair_first(v) == rel % 0x1000_0000 {
                count = count + 1;
            }
            proof {
                assert(ids@.subrange(0, (i + 1) as int).drop_last() =~= ids@.subrange(0, i as int));
                assert(ids@.subrange(0, (i + 1) as int).last() == ids@[i as int]);
            }
            i += 1;
        }
        proof {
            assert(ids@.subrange(0, ids@.len() as int) =~= ids@);
        }
        Option::Some(count)
    }
}

/// After one record is freshly written with `name` under `parent`, no two
/// live records of the world share a parent and a name, provided the world
/// was well-formed before and no live entity already carried that name.
proof fn lemma_fresh_name_unique(pre: World, post: World, index: int, name: Option<String>, parent: u64)
    requires
        pre.wf(),
        0 <= index < post.entities@.len(),
        post.entities@.len() <= pre.entities@.len() + 1,
        post.entities@.len() < RAW_LIMIT,
        forall|i: int|
            0 <= i < post.entities@.len() && i != index ==> i < pre.entities@.len()
                && #[trigger] post.entities@[i] == pre.entities@[i],
        name_view(post.entities@[index].name) == name_view(name),
        post.entities@[index].parent == parent,
        name is Some ==> !pre.has_named(parent, name.unwrap()@),
    ensures
        forall|i1: int, i2: int|
            0 <= i1 < post.entities@.len() && 0 <= i2 < post.entities@.len() && i1 != i2
                && (#[trigger] post.entities@[i1]).alive && (#[trigger] post.entities@[i2]).alive
                && post.entities@[i1].name is Some && name_view(post.entities@[i1].name)
                == name_view(post.entities@[i2].name) && post.entities@[i1].parent
                == post.entities@[i2].parent ==> false,
{
    assert forall|i1: int, i2: int|
        0 <= i1 < post.entities@.len() && 0 <= i2 < post.entities@.len() && i1 != i2
            && (#[trigger] post.entities@[i1]).alive && (#[trigger] post.entities@[i2]).alive
            && post.entities@[i1].name is Some && name_view(post.entities@[i1].name)
            == name_view(post.entities@[i2].name) && post.entities@[i1].parent
            == post.entities@[i2].parent implies false by {
        if i1 != index && i2 != index {
            assert(pre.entities@[i1] == post.entities@[i1]);
            assert(pre.entities@[i2] == post.entities@[i2]);
        } else {
            let other = if i1 == index { i2 } else { i1 };
            assert(name is Some);
            let sought = name.unwrap()@;
            assert(name_view(post.entities@[other].name) == Option::Some(sought));
            let witness = ((other + 1) + pre.entities@[other].generation * RAW_LIMIT) as u64;
            lemma_id_decompose((other + 1) as u64, pre.entities@[other].generation as u64);
            assert(pre.live(witness));
            assert(pre.name_of(witness) == Option::Some(sought));
            assert(pre.parent_of(witness) == parent);
            assert(pre.has_named(parent, sought));
        }
    }
}

/// Two worlds with the same entity records agree on liveness, on every
/// record, and on which names are taken: the registry caches play no part
/// in any of these.
pub proof fn lemma_same_entities_same_store(a: World, b: World)
    requires
        a.entities@ == b.entities@,
    ensures
        forall|x: u64| a.live(x) == b.live(x),
        forall|x: u64| #[trigger] a.live(x) ==> a.rec(x) == b.rec(x),
        forall|parent: u64, name: Seq<char>| #[trigger] a.has_named(parent, name)
            == b.has_named(parent, name),
{
    assert forall|parent: u64, name: Seq<char>| #[trigger] a.has_named(parent, name)
        == b.has_named(parent, name) by {
        if a.has_named(parent, name) {
            let x = choose|x: u64|
                #[trigger] a.live(x) && a.name_of(x) == Option::Some(name) && a.parent_of(x)
                    == parent;
            assert(b.live(x) && b.name_of(x) == Option::Some(name) && b.parent_of(x) == parent);
        }
        if b.has_named(parent, name) {
            let x = choose|x: u64|
                #[trigger] b.live(x) && b.name_of(x) == Option::Some(name) && b.parent_of(x)
                    == parent;
            assert(a.live(x) && a.name_of(x) == Option::Some(name) && a.parent_of(x) == parent);
        }
    }
}

/// An identifier composed of an in-range raw number and generation
/// decomposes back into them, is nonzero, and stays below the flag bits.
pub proof fn lemma_id_decompose(raw: u64, generation: u64)
    requires
        1 <= raw < RAW_LIMIT,
        generation < GENERATION_LIMIT,
    ensures
        raw_of((raw + generation * RAW_LIMIT) as u64) == raw,
        generation_of((raw + generation * RAW_LIMIT) as u64) == generation,
        raw + generation * RAW_LIMIT != 0,
        raw + generation * RAW_LIMIT < 0x1000_0000_0000_0000,
{
    let m = RAW_LIMIT as int;
    let g = generation as int;
    let r = raw as int;
    assert(g * m + r < 0x1000_0000_0000_0000int) by (nonlinear_arith)
        requires
            0 <= g < 0x1000_0000,
            0 <= r < 0x1_0000_0000,
            m == 0x1_0000_0000,
    ;
    assert((r + g * m) % m == r && (r + g * m) / m == g) by (nonlinear_arith)
        requires
            0 < m,
            0 <= g,
            0 <= r < m,
    ;
}

/// Two identifiers with the same raw number and generation are equal.
pub proof fn lemma_raw_generation_unique(a: u64, b: u64)
    requires
        raw_of(a) == raw_of(b),
        generation_of(a) == generation_of(b),
    ensures
        a == b,
{
    let m = RAW_LIMIT as int;
    assert(a == m * (a as int / m) + a as int % m) by (nonlinear_arith)
        requires
            m == 0x1_0000_0000,
    ;
    assert(b == m * (b as int / m) + b as int % m) by (nonlinear_arith)
        requires
            m == 0x1_0000_0000,
    ;
}

} // verus!

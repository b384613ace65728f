//! The component registry: maps a component type to its per-world identifier
//! exactly once, re-validating cached identifiers against the store's
//! liveness query.
//!
//! Types with a process-wide slot index use the dense slot array (the
//! indexed path); types whose identity is only known per instantiation use
//! the token-keyed map (the generic path).  Both paths share the same
//! semantics: a zero or no-longer-live cache entry is treated as absent and
//! triggers re-registration, never an error; a live entry is returned
//! unchanged.  The boolean each registration returns says whether the
//! post-registration hook must fire: exactly once per live registration.

use vstd::prelude::*;

use crate::world::World;
use crate::world::RAW_LIMIT;
use crate::token_map::token_map_contents;

verus! {

/// Misuse reported by the checked registration entry points.
#[derive(Debug, PartialEq, Eq, Structural)]
pub enum RegistryError {
    /// A type required manual pre-registration but was never registered
    /// with this world, or its identifier is no longer live.
    UnregisteredUse,
}

/// The identifier the slot array caches for `slot`: 0 when the slot is
/// beyond the array or not yet registered in this world.
pub open spec fn cached_id(w: World, slot: u32) -> u64 {
    if slot < w.components_array@.len() {
        w.components_array@[slot as int]
    } else {
        0
    }
}

/// Whether the indexed path must (re-)register: the cache holds no
/// identifier for `slot`, or the one it holds is no longer live.
pub open spec fn needs_registration(w: World, slot: u32) -> bool {
    cached_id(w, slot) == 0 || !w.live(cached_id(w, slot))
}

/// The identifier the token map caches for `token`, 0 when absent.
pub open spec fn cached_id_generic(w: World, token: u64) -> u64 {
    if token_map_contents(w.components_map).contains_key(token) {
        token_map_contents(w.components_map)[token]
    } else {
        0
    }
}

/// Whether the generic path must (re-)register `token`.
pub open spec fn needs_registration_generic(w: World, token: u64) -> bool {
    cached_id_generic(w, token) == 0 || !w.live(cached_id_generic(w, token))
}

/// The external registration entry point for an unnamed component type:
/// mints a fresh component entity in the world's store.  Never returns 0,
/// and the result is live.
pub fn try_register_component(world: &mut World) -> (id: u64)
    requires
        old(world).wf(),
        old(world).entities@.len() + 1 < RAW_LIMIT,
    ensures
        final(world).wf(),
        final(world).live(id),
        !old(world).live(id),
        id != 0,
        forall|x: u64| x != id ==> final(world).live(x) == old(world).live(x),
        forall|x: u64|
            old(world).live(x) && x != id ==> final(world).rec(x) == old(world).rec(x),
        final(world).components_array == old(world).components_array,
        final(world).components_map == old(world).components_map,
        final(world).entities@.len() <= old(world).entities@.len() + 1,
{
    world.entity()
}

/// The external registration entry point for a named component type: mints
/// a component entity named `name` at the root scope, or returns the
/// pre-existing entity of that name — registration is idempotent per world
/// and name.  Never returns 0, and the result is live.
pub fn try_register_component_named(world: &mut World, name: &str) -> (id: u64)
    requires
        old(world).wf(),
        old(world).entities@.len() + 1 < RAW_LIMIT,
    ensures
        final(world).wf(),
        final(world).live(id),
        id != 0,
        final(world).name_of(id) == Option::Some(name@),
        old(world).has_named(0, name@) ==> *final(world) == *old(world) && old(world).live(id),
        !old(world).has_named(0, name@) ==> !old(world).live(id),
        forall|x: u64| x != id ==> final(world).live(x) == old(world).live(x),
        forall|x: u64|
            old(world).live(x) && x != id ==> final(world).rec(x) == old(world).rec(x),
        final(world).components_array == old(world).components_array,
        final(world).components_map == old(world).components_map,
        final(world).entities@.len() <= old(world).entities@.len() + 1,
{
    world.mint_named(0, name)
}

/// Grows the slot array to cover `slot`, zero-filling the new region:
/// "first time this world has ever seen any type at or beyond this slot
/// index".  Growth never reorders or invalidates previously assigned slot
/// values.
fn grow_slots(world: &mut World, slot: u32)
    requires
        slot < u32::MAX,
    ensures
        final(world).components_array@.len() > slot,
        final(world).components_array@.len() >= old(world).components_array@.len(),
        final(world).components_array@.subrange(
            0,
            old(world).components_array@.len() as int,
        ) == old(world).components_array@,
        forall|s: int|
            old(world).components_array@.len() <= s < final(world).components_array@.len()
                ==> final(world).components_array@[s] == 0,
        final(world).entities == old(world).entities,
        final(world).free == old(world).free,
        final(world).components_map == old(world).components_map,
{
    let ghost pre = *world;
    while world.components_array.len() <= slot as usize
        invariant
            slot < u32::MAX,
            world.components_array@.len() >= pre.components_array@.len(),
            world.components_array@.subrange(0, pre.components_array@.len() as int)
                == pre.components_array@,
            forall|s: int|
                pre.components_array@.len() <= s < world.components_array@.len()
                    ==> world.components_array@[s] == 0,
            world.entities == pre.entities,
            world.free == pre.free,
            world.components_map == pre.components_map,
        decreases slot as int + 1 - world.components_array@.len(),
    {
        world.components_array.push(0);
        proof {
            assert(world.components_array@.subrange(0, pre.components_array@.len() as int)
                =~= pre.components_array@);
        }
    }
}

/// The indexed registration path: returns the identifier registered for the
/// type with slot index `slot`, registering it first when the cache holds
/// nothing live.  The boolean is true exactly when a registration happened,
/// and with it the post-registration hook is owed — once per live
/// registration.
///
/// Registering a type that is already live-registered returns the cached
/// identifier and leaves the world untouched, so registering twice in
/// sequence returns the same identifier both times and fires the hook only
/// the first time.  With `manual_registration_check` the caller asserts the
/// type was pre-registered; calling so on an unregistered type is a misuse,
/// excluded here and reported by [`try_register_or_get_id`].
pub fn register_or_get_id(world: &mut World, slot: u32, manual_registration_check: bool) -> (r: (
    u64,
    bool,
))
    requires
        old(world).wf(),
        old(world).entities@.len() + 1 < RAW_LIMIT,
        slot < u32::MAX,
        manual_registration_check ==> !needs_registration(*old(world), slot),
    ensures
        final(world).wf(),
        r.0 != 0,
        final(world).live(r.0),
        cached_id(*final(world), slot) == r.0,
        !needs_registration(*final(world), slot),
        !needs_registration(*old(world), slot) ==> r.0 == cached_id(*old(world), slot) && r.1
            == false && *final(world) == *old(world),
        needs_registration(*old(world), slot) ==> r.1 == true && !old(world).live(r.0),
        forall|s: int|
            0 <= s < final(world).components_array@.len() && s != slot
                ==> final(world).components_array@[s] == (if s
                < old(world).components_array@.len() {
                old(world).components_array@[s]
            } else {
                0
            }),
        forall|x: u64|
            old(world).live(x) ==> final(world).live(x) && final(world).rec(x) == old(world).rec(x),
        token_map_contents(final(world).components_map) == token_map_contents(
            old(world).components_map,
        ),
        final(world).entities@.len() <= old(world).entities@.len() + 1,
{
    let index = slot as usize;
    if world.components_array.len() > index {
        let component_id = world.components_array[index];
        if component_id != 0 && world.is_alive(component_id) {
            return (component_id, false);
        }
        let id = try_register_component(world);
        world.components_array[index] = id;
        (id, true)
    } else {
        grow_slots(world, slot);
        proof {
            crate::world::lemma_same_entities_same_store(*world, *old(world));
        }
        let id = try_register_component(world);
        world.components_array[index] = id;
        (id, true)
    }
}

/// The indexed registration path for a component registered under an
/// explicit name.  Like [`register_or_get_id`], except that a
/// re-registration reuses the pre-existing entity of that name when the
/// world has one, as named registration is idempotent per world and name.
pub fn register_or_get_id_named(
    world: &mut World,
    slot: u32,
    name: &str,
    manual_registration_check: bool,
) -> (r: (u64, bool))
    requires
        old(world).wf(),
        old(world).entities@.len() + 1 < RAW_LIMIT,
        slot < u32::MAX,
        manual_registration_check ==> !needs_registration(*old(world), slot),
    ensures
        final(world).wf(),
        r.0 != 0,
        final(world).live(r.0),
        cached_id(*final(world), slot) == r.0,
        !needs_registration(*final(world), slot),
        !needs_registration(*old(world), slot) ==> r.0 == cached_id(*old(world), slot) && r.1
            == false && *final(world) == *old(world),
        needs_registration(*old(world), slot) ==> r.1 == true && final(world).name_of(r.0)
            == Option::Some(name@),
        needs_registration(*old(world), slot) && !old(world).has_named(0, name@) ==> !old(world).live(r.0),
        forall|s: int|
            0 <= s < final(world).components_array@.len() && s != slot
                ==> final(world).components_array@[s] == (if s
                < old(world).components_array@.len() {
                old(world).components_array@[s]
            } else {
                0
            }),
        forall|x: u64|
            old(world).live(x) ==> final(world).live(x) && final(world).rec(x) == old(world).rec(x),
        token_map_contents(final(world).components_map) == token_map_contents(
            old(world).components_map,
        ),
        final(world).entities@.len() <= old(world).entities@.len() + 1,
{
    let index = slot as usize;
    if world.components_array.len() > index {
        let component_id = world.components_array[index];
        if component_id != 0 && world.is_alive(component_id) {
            return (component_id, false);
        }
        let id = try_register_component_named(world, name);
        world.components_array[index] = id;
        (id, true)
    } else {
        grow_slots(world, slot);
        proof {
            crate::world::lemma_same_entities_same_store(*world, *old(world));
        }
        let id = try_register_component_named(world, name);
        world.components_array[index] = id;
        (id, true)
    }
}

/// The generic registration path: the type's identity token keys the
/// world's map.  Occupied and live returns the cached identifier; occupied
/// but dead re-registers and overwrites; vacant registers and inserts.  The
/// boolean again says the hook is owed.
pub fn register_or_get_id_generic(world: &mut World, token: u64, manual_registration_check: bool)
    -> (r: (u64, bool))
    requires
        old(world).wf(),
        old(world).entities@.len() + 1 < RAW_LIMIT,
        manual_registration_check ==> !needs_registration_generic(*old(world), token),
    ensures
        final(world).wf(),
        r.0 != 0,
        final(world).live(r.0),
        cached_id_generic(*final(world), token) == r.0,
        !needs_registration_generic(*final(world), token),
        !needs_registration_generic(*old(world), token) ==> r.0 == cached_id_generic(*old(world), token) && r.1 == false && *final(world) == *old(world),
        needs_registration_generic(*old(world), token) ==> r.1 == true && !old(world).live(r.0)
            && token_map_contents(final(world).components_map) == token_map_contents(
            old(world).components_map,
        ).insert(token, r.0),
        forall|x: u64|
            old(world).live(x) ==> final(world).live(x) && final(world).rec(x) == old(world).rec(x),
        final(world).components_array == old(world).components_array,
        final(world).entities@.len() <= old(world).entities@.len() + 1,
{
    let cached = match world.components_map.get(token) {
        Option::Some(v) => v,
        Option::None => 0,
    };
    if cached != 0 && world.is_alive(cached) {
        return (cached, false);
    }
    let id = try_register_component(world);
    world.components_map.insert(token, id);
    (id, true)
}

/// The generic registration path under an explicit name; a re-registration
/// reuses the world's pre-existing entity of that name when there is one.
pub fn register_or_get_id_named_generic(
    world: &mut World,
    token: u64,
    name: &str,
    manual_registration_check: bool,
) -> (r: (u64, bool))
    requires
        old(world).wf(),
        old(world).entities@.len() + 1 < RAW_LIMIT,
        manual_registration_check ==> !needs_registration_generic(*old(world), token),
    ensures
        final(world).wf(),
        r.0 != 0,
        final(world).live(r.0),
        cached_id_generic(*final(world), token) == r.0,
        !needs_registration_generic(*final(world), token),
        !needs_registration_generic(*old(world), token) ==> r.0 == cached_id_generic(*old(world), token) && r.1 == false && *final(world) == *old(world),
        needs_registration_generic(*old(world), token) ==> r.1 == true && final(world).name_of(r.0)
            == Option::Some(name@) && token_map_contents(final(world).components_map)
            == token_map_contents(old(world).components_map).insert(token, r.0),
        forall|x: u64|
            old(world).live(x) ==> final(world).live(x) && final(world).rec(x) == old(world).rec(x),
        final(world).components_array == old(world).components_array,
        final(world).entities@.len() <= old(world).entities@.len() + 1,
{
    let cached = match world.components_map.get(token) {
        Option::Some(v) => v,
        Option::None => 0,
    };
    if cached != 0 && world.is_alive(cached) {
        return (cached, false);
    }
    let id = try_register_component_named(world, name);
    world.components_map.insert(token, id);
    (id, true)
}

/// The checked indexed registration: in manual-registration mode a type
/// that is not live-registered is a reportable misuse, returned as
/// [`RegistryError::UnregisteredUse`] with the world untouched.
pub fn try_register_or_get_id(world: &mut World, slot: u32, manual_registration_check: bool) -> (r:
    Result<(u64, bool), RegistryError>)
    requires
        old(world).wf(),
        old(world).entities@.len() + 1 < RAW_LIMIT,
        slot < u32::MAX,
    ensures
        final(world).wf(),
        manual_registration_check && needs_registration(*old(world), slot) ==> r == Result::<
            (u64, bool),
            RegistryError,
        >::Err(RegistryError::UnregisteredUse) && *final(world) == *old(world),
        !(manual_registration_check && needs_registration(*old(world), slot)) ==> (match r {
            Result::Ok((id, registered)) => {
                &&& id != 0
                &&& final(world).live(id)
                &&& cached_id(*final(world), slot) == id
                &&& !needs_registration(*old(world), slot) ==> id == cached_id(*old(world), slot)
                    && registered == false && *final(world) == *old(world)
                &&& needs_registration(*old(world), slot) ==> registered == true
            },
            Result::Err(_) => false,
        }),
{
    if manual_registration_check {
        let index = slot as usize;
        let registered_live = if world.components_array.len() > index {
            let component_id = world.components_array[index];
            component_id != 0 && world.is_alive(component_id)
        } else {
            false
        };
        if !registered_live {
            return Result::Err(RegistryError::UnregisteredUse);
        }
        let r = register_or_get_id(world, slot, true);
        Result::Ok(r)
    } else {
        let r = register_or_get_id(world, slot, false);
        Result::Ok(r)
    }
}

/// The weak registration check of the indexed path: whether the slot array
/// holds a nonzero identifier for `slot`.  This does not re-validate
/// liveness; a stale "yes" is possible by design, and only the full
/// registration path enforces liveness, lazily, on next use.
pub fn is_registered_with_world(world: &World, slot: u32) -> (r: bool)
    ensures
        r == (cached_id(*world, slot) != 0),
{
    let index = slot as usize;
    if world.components_array.len() > index {
        world.components_array[index] != 0
    } else {
        false
    }
}

/// The weak registration check of the generic path: whether the token map
/// has an entry for `token`.  Like [`is_registered_with_world`], liveness
/// is not re-validated here.
pub fn is_registered_with_world_generic(world: &World, token: u64) -> (r: bool)
    ensures
        r == token_map_contents(world.components_map).contains_key(token),
{
    world.components_map.contains_key(token)
}

/// Returns the component identifier registered for `slot` in this world,
/// registering it first if needed.  Each world has its own identifier for
/// the same type.
pub fn entity_id(world: &mut World, slot: u32) -> (id: u64)
    requires
        old(world).wf(),
        old(world).entities@.len() + 1 < RAW_LIMIT,
        slot < u32::MAX,
    ensures
        final(world).wf(),
        id != 0,
        final(world).live(id),
        cached_id(*final(world), slot) == id,
        !needs_registration(*old(world), slot) ==> id == cached_id(*old(world), slot) && *final(world) == *old(world),
{
    let r = register_or_get_id(world, slot, false);
    r.0
}

} // verus!

//! The traits a component type carries, and the helpers built on them.
//!
//! Most of these are markers consumed at compile time: whether a type is a
//! tag or carries data, whether it is an enum or a struct component, and
//! which standard traits it implements.  [`OnComponentRegistration`] is the
//! post-registration hook the registry fires exactly once per live
//! registration; [`register_component`] ties it to the registry.

use vstd::prelude::*;

use crate::id::Entity;
use crate::registry::cached_id;
use crate::registry::is_registered_with_world;
use crate::registry::needs_registration;
use crate::registry::register_or_get_id;
use crate::world::RAW_LIMIT;
use crate::world::World;

verus! {

/// Marks a component type that stands for a Rust trait in queries.
pub trait RustTrait {

}

/// Marks a tag component: one that carries no data and has size zero.
pub trait TagComponent {

}

/// Marks a non-tag component: one that carries data and is not zero-sized.
pub trait DataComponent {

}

/// Marks the kinds of component shapes the engine supports.
pub trait ECSComponentType {

}

/// The shape marker for enum components.
pub struct Enum;

/// The shape marker for struct components.
pub struct Struct;

impl ECSComponentType for Enum {

}

impl ECSComponentType for Struct {

}

/// States which shape a component type has.
pub trait ComponentType<T: ECSComponentType> {

}

/// Compile-time information about a component type.
pub trait ComponentInfo: Sized {
    /// Whether the type's identity depends on its type parameters, so that
    /// it takes the registry's generic path.
    const IS_GENERIC: bool;

    /// Whether the type is an enum component.
    const IS_ENUM: bool;

    /// Whether the type is a tag.
    const IS_TAG: bool;

    /// Whether the type implements `Clone`.
    const IMPLS_CLONE: bool;

    /// Whether the type implements `Default`.
    const IMPLS_DEFAULT: bool;

    /// Whether the type implements `PartialOrd`.
    const IMPLS_PARTIAL_ORD: bool;

    /// Whether the type implements `PartialEq`.
    const IMPLS_PARTIAL_EQ: bool;

    /// Whether the type is a shared reference.
    const IS_REF: bool;

    /// Whether the type is a mutable reference.
    const IS_MUT: bool;

    /// Whether the first element of a pair built on this type is a tag.
    type TagType;
}

/// The hook the registry fires after it registers a component type with a
/// world: exactly once per live registration.
pub trait OnComponentRegistration {
    /// Called with the world and the identifier the type was registered
    /// under.
    fn on_component_registration(world: &World, component_id: Entity);
}

/// Selects one of two types by a compile-time condition.
pub struct ConditionalTypeSelector<const B: bool, T> {
    marker: core::marker::PhantomData<T>,
}

/// Placeholder for the `Default` implementation a type does not have.
#[derive(Default, Clone)]
pub struct FlecsNoneDefaultDummy;

/// Placeholder for the `Clone` implementation a type does not have.
#[derive(Default, Clone)]
pub struct FlecsNoneCloneDummy;

/// Placeholder for the `PartialEq` implementation a type does not have.
#[derive(Clone, PartialEq)]
pub struct FlecsNonePartialEqDummy;

/// Placeholder for the `PartialOrd` implementation a type does not have.
#[derive(Clone, PartialEq, PartialOrd)]
pub struct FlecsNonePartialOrdDummy;

/// Carries the `Default` implementation the lifecycle hooks use for a type,
/// or the placeholder when it has none.
pub trait FlecsDefaultType {
    /// The type whose `Default` is used.
    type Type: Default;
}

/// Carries the `Clone` implementation the lifecycle hooks use for a type.
pub trait FlecsCloneType {
    /// The type whose `Clone` is used.
    type Type: Clone;
}

/// Carries the `PartialEq` implementation the lifecycle hooks use for a type.
pub trait FlecsPartialEqType {
    /// The type whose `PartialEq` is used.
    type Type: PartialEq;
}

/// Carries the `PartialOrd` implementation the lifecycle hooks use for a type.
pub trait FlecsPartialOrdType {
    /// The type whose `PartialOrd` is used.
    type Type: PartialOrd;
}

impl<T> FlecsDefaultType for ConditionalTypeSelector<false, T> {
    type Type = FlecsNoneDefaultDummy;
}

impl<T: Default> FlecsDefaultType for ConditionalTypeSelector<true, T> {
    type Type = T;
}

impl<T> FlecsCloneType for ConditionalTypeSelector<false, T> {
    type Type = FlecsNoneCloneDummy;
}

impl<T: Clone> FlecsCloneType for ConditionalTypeSelector<true, T> {
    type Type = T;
}

impl<T> FlecsPartialEqType for ConditionalTypeSelector<false, T> {
    type Type = FlecsNonePartialEqDummy;
}

impl<T: PartialEq> FlecsPartialEqType for ConditionalTypeSelector<true, T> {
    type Type = T;
}

impl<T> FlecsPartialOrdType for ConditionalTypeSelector<false, T> {
    type Type = FlecsNonePartialOrdDummy;
}

impl<T: PartialOrd> FlecsPartialOrdType for ConditionalTypeSelector<true, T> {
    type Type = T;
}

/// Marks that the first element of a pair is not a tag.
pub struct FlecsFirstIsNotATag;

/// Marks that the first element of a pair is a tag.
pub struct FlecsFirstIsATag;

/// Registers the component type with slot index `slot` and fires its
/// post-registration hook when, and only when, a registration happened.
/// Registering a live-registered type a second time returns the same
/// identifier and does not fire the hook again.
pub fn register_component<T: OnComponentRegistration>(world: &mut World, slot: u32) -> (r: (
    u64,
    bool,
))
    requires
        old(world).wf(),
        old(world).entities@.len() + 1 < RAW_LIMIT,
        slot < u32::MAX,
    ensures
        final(world).wf(),
        r.0 != 0,
        final(world).live(r.0),
        cached_id(*final(world), slot) == r.0,
        !needs_registration(*final(world), slot),
        r.1 == needs_registration(*old(world), slot),
        !needs_registration(*old(world), slot) ==> r.0 == cached_id(*old(world), slot) && *final(world) == *old(world),
{
    let r = register_or_get_id(world, slot, false);
    if r.1 {
        let component_id = Entity::new(r.0);
        T::on_component_registration(&*world, component_id);
    }
    r
}

/// Returns whether every variant of an enum component has been registered
/// as an entity: no cached variant identifier is still 0.
pub fn are_fields_registered_as_entities(variant_ids: &Vec<u64>) -> (r: bool)
    ensures
        r == (forall|i: int| 0 <= i < variant_ids@.len() ==> variant_ids@[i] != 0),
{
    let mut i: usize = 0;
    while i < variant_ids.len()
        invariant
            i <= variant_ids@.len(),
            forall|k: int| 0 <= k < i ==> variant_ids@[k] != 0,
        decreases variant_ids@.len() - i,
    {
        if variant_ids[i] == 0 {
            return false;
        }
        i += 1;
    }
    true
}

/// Returns whether the variant at `index` has been registered as an entity.
pub fn is_index_registered_as_entity(variant_ids: &Vec<u64>, index: usize) -> (r: bool)
    requires
        index < variant_ids@.len(),
    ensures
        r == (variant_ids@[index as int] != 0),
{
    variant_ids[index] != 0
}

/// The identifier cached for the variant at `index`, or `None` when the
/// index is out of the enum's range.
pub fn id_variant_of_index(variant_ids: &Vec<u64>, index: usize) -> (r: Option<u64>)
    ensures
        index < variant_ids@.len() ==> r == Option::Some(variant_ids@[index as int]),
        index >= variant_ids@.len() ==> r is None,
{
    if index < variant_ids.len() {
        Option::Some(variant_ids[index])
    } else {
        Option::None
    }
}

/// The identifier of an enum component's variant, registering the enum with
/// the world first when its slot is not yet cached there.
pub fn id_variant(world: &mut World, slot: u32, variant_ids: &Vec<u64>, index: usize) -> (r: u64)
    requires
        old(world).wf(),
        old(world).entities@.len() + 1 < RAW_LIMIT,
        slot < u32::MAX,
        index < variant_ids@.len(),
    ensures
        final(world).wf(),
        r == variant_ids@[index as int],
        cached_id(*final(world), slot) != 0,
{
    if !is_registered_with_world(world, slot) {
        let _ = register_or_get_id(world, slot, false);
    }
    variant_ids[index]
}

} // verus!

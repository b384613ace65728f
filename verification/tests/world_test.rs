//! The world model: entities, liveness, names and paths, pair targets.

use flecs_registry::filter::Filter;
use flecs_registry::filter::FilterBase;
use flecs_registry::id::Entity;
use flecs_registry::id::IdOperations;
use flecs_registry::pipeline::Pipeline;
use flecs_registry::registration_traits::OnComponentRegistration;
use flecs_registry::registration_traits::are_fields_registered_as_entities;
use flecs_registry::registration_traits::id_variant;
use flecs_registry::registration_traits::id_variant_of_index;
use flecs_registry::registration_traits::is_index_registered_as_entity;
use flecs_registry::registration_traits::register_component;
use flecs_registry::registry::is_registered_with_world;
use flecs_registry::registry::register_or_get_id_named;
use flecs_registry::world::World;

#[test]
fn count_target_ids() {
    let mut world = World::new();

    let e = world.entity();
    let r = world.entity();
    let o = world.entity();

    world.add_pair(e, r, o);
    world.add_pair(e, r, o);

    assert_eq!(world.target_id_count(e, r).unwrap(), 1);

    let e2 = world.entity();
    world.add_pair(e2, r, o);

    assert_eq!(world.target_id_count(e, r).unwrap(), 1);
    assert_eq!(world.target_id_count(e2, r).unwrap(), 1);

    let o2 = world.entity();

    world.add_pair(e, r, o2);

    assert_eq!(world.target_id_count(e, r).unwrap(), 2);
    assert_eq!(world.target_id_count(e2, r).unwrap(), 1);
}

#[test]
fn module_with_core_name() {
    let mut world = World::new();

    let m = world.mint_named(0, "ModuleType");
    assert!(m != 0);
    assert_eq!(world.path(m), "::ModuleType");

    let pos = world.mint_named(m, "Position");
    assert!(pos != 0);
    assert_eq!(world.path(pos), "::ModuleType::Position");
    assert_eq!(world.lookup(m, "Position"), Some(pos));
}

#[test]
fn module_reimport_after_delete() {
    let mut world = World::new();
    let module_slot: u32 = 1;
    let position_slot: u32 = 2;

    {
        let (m, _) = register_or_get_id_named(&mut world, module_slot, "ModuleType", false);
        let (pos, _) = register_or_get_id_named(&mut world, position_slot, "Position", false);
        assert_eq!(world.lookup(0, "Position"), Some(pos));
        assert_eq!(world.lookup(0, "ModuleType"), Some(m));

        world.destruct(m);
    }

    {
        let (m, reimported) = register_or_get_id_named(&mut world, module_slot, "ModuleType", false);
        assert!(reimported);
        assert_eq!(world.lookup(0, "ModuleType"), Some(m));
        let (pos, _) = register_or_get_id_named(&mut world, position_slot, "Position", false);
        assert_eq!(world.lookup(0, "Position"), Some(pos));
    }
}

#[test]
fn module_component_name_w_module_name() {
    let mut world = World::new();

    let m = world.mint_named(0, "ModuleA");
    assert!(m != 0);
    let missing = world.lookup(m, "ModuleAComponent");
    assert!(missing.is_none());

    let c = world.mint_named(m, "ModuleAComponent");
    assert_eq!(world.get_name(c).as_deref(), Some("ModuleAComponent"));
    assert_eq!(world.get_name(world.parent(c)).as_deref(), Some("ModuleA"));
    assert_eq!(world.path(c), "::ModuleA::ModuleAComponent");
}

#[test]
fn named_minting_is_idempotent_per_parent_and_name() {
    let mut world = World::new();

    let first = world.mint_named(0, "Position");
    let second = world.mint_named(0, "Position");
    assert_eq!(first, second);

    let scope = world.mint_named(0, "ns");
    let nested = world.mint_named(scope, "Position");
    assert_ne!(nested, first);
    assert_eq!(world.path(nested), "::ns::Position");
}

#[test]
fn destroyed_raw_numbers_are_reused_with_a_new_generation() {
    let mut world = World::new();

    let a = world.entity();
    world.destruct(a);
    let b = world.entity();

    assert_ne!(a, b);
    // same raw number, higher generation
    assert_eq!(a & 0xFFFF_FFFF, b & 0xFFFF_FFFF);
    assert!(b > u32::MAX as u64);
    assert!(world.is_alive(b));
    assert!(!world.is_alive(a));
}

struct QuietComponent;

impl OnComponentRegistration for QuietComponent {
    fn on_component_registration(_world: &World, _component_id: Entity) {}
}

#[test]
fn hook_fires_once_per_live_registration() {
    let mut world = World::new();
    let slot: u32 = 3;

    let (id, hook_owed) = register_component::<QuietComponent>(&mut world, slot);
    assert!(hook_owed);

    let (again, hook_owed_again) = register_component::<QuietComponent>(&mut world, slot);
    assert_eq!(again, id);
    assert!(!hook_owed_again);

    world.destruct(id);
    let (third, hook_owed_third) = register_component::<QuietComponent>(&mut world, slot);
    assert!(hook_owed_third);
    assert_ne!(third, id);
}

#[test]
fn enum_variant_helpers() {
    let partial: Vec<u64> = vec![5, 6, 0];
    assert!(!are_fields_registered_as_entities(&partial));
    assert!(is_index_registered_as_entity(&partial, 1));
    assert!(!is_index_registered_as_entity(&partial, 2));
    assert_eq!(id_variant_of_index(&partial, 1), Some(6));
    assert_eq!(id_variant_of_index(&partial, 3), None);

    let full: Vec<u64> = vec![5, 6, 7];
    assert!(are_fields_registered_as_entities(&full));

    let mut world = World::new();
    let slot: u32 = 2;
    let v = id_variant(&mut world, slot, &full, 2);
    assert_eq!(v, 7);
    assert!(is_registered_with_world(&world, slot));
}

#[test]
fn filter_builder_walks_terms() {
    let mut filter = Filter::new(7);
    assert_eq!(filter.filter.world, 7);
    assert_eq!(filter.terms.len(), 32);

    {
        let term = filter.current_term();
        term.id = 42;
        term.oper = 2;
    }
    filter.next_term();

    let term = filter.current_term();
    assert_eq!(term.id, 0);
    assert_eq!(filter.terms[0].id, 42);
    assert_eq!(filter.terms[0].oper, 2);

    let base = FilterBase::new(3, 4);
    assert_eq!(base.world, 3);
    assert_eq!(base.filter_ptr, 4);
    let empty = FilterBase::default();
    assert_eq!(empty.world, 0);
    assert_eq!(empty.filter_ptr, 0);
}

#[test]
fn pipeline_wraps_a_live_entity() {
    let mut world = World::new();
    let pipeline = Pipeline::new(&mut world);
    assert!(pipeline.entity().id() != 0);
    assert!(world.is_alive(pipeline.entity().id()));
}

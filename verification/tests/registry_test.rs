//! The slot allocator and the two registration paths.

use flecs_registry::c_types::InOutKind;
use flecs_registry::c_types::OperKind;
use flecs_registry::c_types::QueryCacheKind;
use flecs_registry::index_allocator::IndexAllocator;
use flecs_registry::index_allocator::UNSET_INDEX;
use flecs_registry::registry::RegistryError;
use flecs_registry::registry::is_registered_with_world;
use flecs_registry::registry::is_registered_with_world_generic;
use flecs_registry::registry::register_or_get_id;
use flecs_registry::registry::register_or_get_id_generic;
use flecs_registry::registry::register_or_get_id_named;
use flecs_registry::registry::try_register_or_get_id;
use flecs_registry::world::World;

#[test]
fn allocator_hands_out_dense_indices() {
    let mut alloc = IndexAllocator::new();
    let mut cell_a: u32 = UNSET_INDEX;
    let mut cell_b: u32 = UNSET_INDEX;

    let a = alloc.get_or_init_index(&mut cell_a);
    let b = alloc.get_or_init_index(&mut cell_b);
    assert_eq!(a, 1);
    assert_eq!(b, 2);
    assert_ne!(a, b);

    // repeated queries are stable
    assert_eq!(alloc.get_or_init_index(&mut cell_a), a);
    assert_eq!(alloc.get_or_init_index(&mut cell_b), b);
    assert_eq!(cell_a, a);
    assert_eq!(cell_b, b);
}

#[test]
fn allocator_race_loser_accepts_winner_value() {
    // Two contenders race to initialize the same cell.  The winner installs
    // the index it drew; the loser, arriving second, must observe the
    // winner's value and not overwrite it, even though it drew (and so
    // leaked) a counter value of its own.
    let mut alloc = IndexAllocator::new();
    let mut cell: u32 = UNSET_INDEX;

    let winner = alloc.get_or_init_index(&mut cell);
    let leaked = alloc.fetch_new_index();
    let loser = alloc.get_or_init_index(&mut cell);

    assert_eq!(winner, 1);
    assert_eq!(leaked, 2);
    assert_eq!(loser, winner);
    assert_eq!(cell, winner);

    // the leaked index is permanently skipped, never reassigned
    let mut next_cell: u32 = UNSET_INDEX;
    assert_eq!(alloc.get_or_init_index(&mut next_cell), 3);
}

#[test]
fn registration_is_idempotent() {
    let mut world = World::new();
    let slot: u32 = 1;

    let (first, registered_first) = register_or_get_id(&mut world, slot, false);
    let (second, registered_second) = register_or_get_id(&mut world, slot, false);

    assert_ne!(first, 0);
    assert_eq!(first, second);
    assert!(registered_first);
    // the hook fires exactly once across both calls
    assert!(!registered_second);
}

#[test]
fn stale_identifier_triggers_reregistration() {
    let mut world = World::new();
    let slot: u32 = 1;

    let (first, _) = register_or_get_id(&mut world, slot, false);
    assert!(world.is_alive(first));

    world.destruct(first);
    assert!(!world.is_alive(first));
    // the weak check may still say yes: staleness is only found on next use
    assert!(is_registered_with_world(&world, slot));

    let (second, registered) = register_or_get_id(&mut world, slot, false);
    assert!(registered);
    assert_ne!(second, first);
    assert!(world.is_alive(second));
    assert!(!world.is_alive(first));
}

#[test]
fn worlds_are_independent() {
    let mut world_a = World::new();
    let mut world_b = World::new();
    let slot: u32 = 1;

    // world B mints an unrelated entity first, so the same type gets a
    // different identifier there
    let extra = world_b.entity();
    assert_ne!(extra, 0);

    let (id_a, _) = register_or_get_id(&mut world_a, slot, false);
    let (id_b, _) = register_or_get_id(&mut world_b, slot, false);
    assert_ne!(id_a, id_b);

    // each world keeps its own cache without cross-contamination
    let (again_a, registered_a) = register_or_get_id(&mut world_a, slot, false);
    let (again_b, registered_b) = register_or_get_id(&mut world_b, slot, false);
    assert_eq!(again_a, id_a);
    assert_eq!(again_b, id_b);
    assert!(!registered_a);
    assert!(!registered_b);
}

#[test]
fn generic_path_uses_token_map() {
    let mut world = World::new();
    let token: u64 = 0xABCD_EF01;

    assert!(!is_registered_with_world_generic(&world, token));
    let (first, registered_first) = register_or_get_id_generic(&mut world, token, false);
    assert!(registered_first);
    assert!(is_registered_with_world_generic(&world, token));

    let (second, registered_second) = register_or_get_id_generic(&mut world, token, false);
    assert_eq!(first, second);
    assert!(!registered_second);

    // a second instantiation gets its own identifier
    let other_token: u64 = 0x1234;
    let (third, _) = register_or_get_id_generic(&mut world, other_token, false);
    assert_ne!(third, first);

    // staleness is healed on the generic path too
    world.destruct(first);
    let (fourth, registered_fourth) = register_or_get_id_generic(&mut world, token, false);
    assert!(registered_fourth);
    assert_ne!(fourth, first);
}

#[test]
fn manual_mode_reports_unregistered_use() {
    let mut world = World::new();
    let slot: u32 = 1;

    let r = try_register_or_get_id(&mut world, slot, true);
    assert_eq!(r, Err(RegistryError::UnregisteredUse));

    let (id, _) = register_or_get_id(&mut world, slot, false);
    let r = try_register_or_get_id(&mut world, slot, true);
    assert_eq!(r, Ok((id, false)));

    // a destroyed identifier makes manual use a misuse again
    world.destruct(id);
    let r = try_register_or_get_id(&mut world, slot, true);
    assert_eq!(r, Err(RegistryError::UnregisteredUse));
}

#[test]
fn named_registration_reuses_the_named_entity() {
    let mut world = World::new();
    let slot: u32 = 1;

    let (first, registered) = register_or_get_id_named(&mut world, slot, "Position", false);
    assert!(registered);
    assert_eq!(world.lookup(0, "Position"), Some(first));
    assert_eq!(world.get_name(first).as_deref(), Some("Position"));

    // the cache answers the second call; nothing new is minted
    let (second, registered_again) = register_or_get_id_named(&mut world, slot, "Position", false);
    assert_eq!(second, first);
    assert!(!registered_again);
}

#[test]
fn kind_enums_match_engine_values() {
    assert!(InOutKind::In.is_read_only());
    assert!(!InOutKind::InOut.is_read_only());
    assert_eq!(InOutKind::from(4i16), InOutKind::In);
    assert_eq!(InOutKind::from(99i16), InOutKind::Default);
    assert_eq!(i16::from(InOutKind::Filter), 2);

    assert!(OperKind::Not.is_negation());
    assert!(OperKind::NotFrom.is_negation());
    assert!(!OperKind::And.is_negation());
    assert_eq!(OperKind::from(6i16), OperKind::NotFrom);
    assert_eq!(i16::from(OperKind::Optional), 3);

    assert!(QueryCacheKind::Auto.is_auto());
    assert!(QueryCacheKind::CacheNone.is_none());
    assert!(QueryCacheKind::All.is_all());
    assert!(QueryCacheKind::Default.is_default());
    assert!(QueryCacheKind::from(3u32).is_none());
    assert!(QueryCacheKind::from(42u32).is_default());
}

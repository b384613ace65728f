//! The identifier codec: round trips, flags, wildcard detection.

use flecs_registry::id::ECS_ANY;
use flecs_registry::id::ECS_AUTO_OVERRIDE;
use flecs_registry::id::ECS_PAIR;
use flecs_registry::id::ECS_TOGGLE;
use flecs_registry::id::ECS_WILDCARD;
use flecs_registry::id::Entity;
use flecs_registry::id::IdOperations;
use flecs_registry::id::RUST_ECS_COMPONENT_MASK;
use flecs_registry::id::RUST_ecs_id_FLAGS_MASK;
use flecs_registry::id::flags_of;
use flecs_registry::id::flags_str;
use flecs_registry::id::has_flag;
use flecs_registry::id::is_pair;
use flecs_registry::id::is_wildcard;
use flecs_registry::id::make_pair;
use flecs_registry::id::strip_flags;
use flecs_registry::id::strip_generation;
use flecs_registry::id::unpack_pair;

#[test]
fn strip_flags_round_trip() {
    let samples: Vec<u64> = vec![
        0,
        1,
        270,
        0xFFFF_FFFF,
        0x1234_5678_9ABC_DEF0,
        ECS_PAIR | 77,
        ECS_TOGGLE | ECS_AUTO_OVERRIDE | 0xDEAD_BEEF,
        u64::MAX,
    ];
    for id in samples {
        assert_eq!(strip_flags(id) | flags_of(id), id);
        assert_eq!(strip_flags(id) & RUST_ecs_id_FLAGS_MASK, 0);
        assert_eq!(flags_of(id) & RUST_ECS_COMPONENT_MASK, 0);
    }
}

#[test]
fn pair_round_trip() {
    let cases: Vec<(u64, u64)> = vec![(1, 2), (270, 271), (0x0FFF_FFFF, 0xFFFF_FFFF), (42, 42)];
    for (rel, tgt) in cases {
        let pair = make_pair(rel, tgt);
        assert!(is_pair(pair));
        assert_eq!(unpack_pair(pair), (rel, tgt));
    }
}

#[test]
fn strip_generation_keeps_low_bits() {
    assert_eq!(strip_generation(0x0000_0005_0000_002A), 0x2A);
    assert_eq!(strip_generation(0x2A), 0x2A);
    assert_eq!(strip_generation(u64::MAX), 0xFFFF_FFFF);
}

#[test]
fn wildcard_detection() {
    assert!(is_wildcard(ECS_WILDCARD));
    assert!(is_wildcard(ECS_ANY));
    assert!(is_wildcard(make_pair(ECS_WILDCARD, 7)));
    assert!(is_wildcard(make_pair(7, ECS_WILDCARD)));
    assert!(is_wildcard(make_pair(ECS_ANY, 7)));
    assert!(is_wildcard(make_pair(7, ECS_ANY)));
    assert!(!is_wildcard(make_pair(7, 9)));
    assert!(!is_wildcard(7));
    assert_eq!(ECS_WILDCARD, 270);
    assert_eq!(ECS_ANY, 271);
}

#[test]
fn flag_tests() {
    let id = ECS_TOGGLE | 99;
    assert!(has_flag(id, ECS_TOGGLE));
    assert!(!has_flag(id, ECS_PAIR));
    assert!(!is_pair(id));
    assert!(is_pair(ECS_PAIR | 99));
}

#[test]
fn flags_str_names() {
    assert_eq!(flags_str(ECS_PAIR | 7), "PAIR");
    assert_eq!(flags_str(ECS_TOGGLE | 7), "TOGGLE");
    assert_eq!(flags_str(ECS_AUTO_OVERRIDE | 7), "AUTO_OVERRIDE");
    assert_eq!(flags_str(7), "UNKNOWN");
    assert_eq!(flags_str(ECS_PAIR | ECS_TOGGLE), "PAIR");
}

#[test]
fn id_operations_on_entity() {
    let e = Entity::new(ECS_TOGGLE | 0x0000_0002_0000_0007);
    assert!(e.has_any_flags());
    assert!(e.has_flags_for(ECS_TOGGLE));
    assert_eq!(e.flags().id(), ECS_TOGGLE);
    assert_eq!(e.remove_flags().id(), 0x0000_0002_0000_0007);
    assert_eq!(e.remove_flags_checked(ECS_TOGGLE).id(), 0x0000_0002_0000_0007);
    assert_eq!(e.remove_generation().id(), 7);
    assert!(!e.is_wildcard());
    assert_eq!(e.to_flags_str(), "TOGGLE");

    let plain = Entity::new(5);
    assert!(!plain.has_any_flags());
    let flagged = plain.add_flags(ECS_PAIR);
    assert!(flagged.has_flags_for(ECS_PAIR));
    assert_eq!(Entity::new_from_id(9).id(), 9);
}

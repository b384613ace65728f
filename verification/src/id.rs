//! The identifier codec: pure bit manipulation on 64-bit identifiers.
//!
//! An identifier packs a 32-bit raw number, a generation counter and four
//! reserved flag bits into one `u64`.  A pair identifier additionally packs a
//! relationship and a target into the low 60 bits.  Every operation here is
//! total and pure; the layout must match the engine's bit-for-bit, since
//! identifiers cross the boundary between the registry and the engine's
//! storage.

#![allow(non_upper_case_globals)]

use vstd::prelude::*;

verus! {

/// The four reserved flag bits at the top of every identifier.
pub const RUST_ecs_id_FLAGS_MASK: u64 = 0xFF << 60;

/// Everything but the reserved flag bits.
pub const RUST_ECS_COMPONENT_MASK: u64 = !RUST_ecs_id_FLAGS_MASK;

/// Indicates that the identifier is a pair.
pub const ECS_PAIR: u64 = 1 << 63;

/// Automatically override the component when it is inherited.
pub const ECS_AUTO_OVERRIDE: u64 = 1 << 62;

/// Adds a bitset to storage which allows the component to be enabled/disabled.
pub const ECS_TOGGLE: u64 = 1 << 61;

/// Include all components from the entity to which AND is applied.
pub const ECS_AND: u64 = 1 << 60;

/// Base identifier below which the engine reserves component ids.
pub const FLECS_HI_COMPONENT_ID: u64 = 256;

/// Term reference flag: match on self.
pub const ECS_SELF: u64 = 1 << 63;

/// Term reference flag: match by traversing upwards.
pub const ECS_UP: u64 = 1 << 62;

/// Term reference flag: match by traversing downwards (derived, never set by producers).
pub const ECS_TRAV: u64 = 1 << 61;

/// Term reference flag: sort results breadth first.
pub const ECS_CASCADE: u64 = 1 << 60;

/// Term reference flag: iterate groups in descending order.
pub const ECS_DESC: u64 = 1 << 59;

/// Term reference flag: the term id is a variable.
pub const ECS_IS_VARIABLE: u64 = 1 << 58;

/// Term reference flag: the term id is an entity.
pub const ECS_IS_ENTITY: u64 = 1 << 57;

/// Term reference flag: the term id is a name, not an entity lookup.
pub const ECS_IS_NAME: u64 = 1 << 56;

/// All term traversal flags.
pub const ECS_TRAVERSE_FLAGS: u64 = ECS_SELF | ECS_UP | ECS_TRAV | ECS_CASCADE | ECS_DESC;

/// All term reference kind flags.
pub const ECS_TERM_REF_FLAGS: u64 = ECS_TRAVERSE_FLAGS | ECS_IS_VARIABLE | ECS_IS_ENTITY
    | ECS_IS_NAME;

/// The reserved wildcard marker entity ("match anything, each match distinct").
pub const ECS_WILDCARD: u64 = FLECS_HI_COMPONENT_ID + 14;

/// The reserved any marker entity ("match anything as a single match").
pub const ECS_ANY: u64 = FLECS_HI_COMPONENT_ID + 15;

/// The flag bits of an identifier.
pub open spec fn spec_flags_of(id: u64) -> u64 {
    id & RUST_ecs_id_FLAGS_MASK
}

/// The identifier with its flag bits cleared.
pub open spec fn spec_strip_flags(id: u64) -> u64 {
    id & RUST_ECS_COMPONENT_MASK
}

/// Whether the identifier carries every bit of `flag`.
pub open spec fn spec_has_flag(id: u64, flag: u64) -> bool {
    id & flag == flag
}

/// The low 32 bits of the identifier: the raw number without its generation.
pub open spec fn spec_strip_generation(id: u64) -> u64 {
    id & 0xFFFF_FFFF
}

/// Whether the identifier is a pair.
pub open spec fn spec_is_pair(id: u64) -> bool {
    id & ECS_PAIR == ECS_PAIR
}

/// A pair identifier built from a relationship and a target.
pub open spec fn spec_make_pair(relationship: u64, target: u64) -> u64 {
    ECS_PAIR | ((relationship << 32) | (target & 0xFFFF_FFFF))
}

/// The relationship half of a pair: bits 32 to 59.
pub open spec fn spec_pair_first(id: u64) -> u64 {
    (id & RUST_ECS_COMPONENT_MASK) >> 32
}

/// The target half of a pair: the low 32 bits.
pub open spec fn spec_pair_second(id: u64) -> u64 {
    id & 0xFFFF_FFFF
}

/// Whether the identifier denotes a wildcard: either it is, once the term
/// reference flags are removed, one of the two reserved marker entities, or it
/// is a pair and one of its halves is.
pub open spec fn spec_is_wildcard(id: u64) -> bool {
    if spec_is_pair(id) {
        let first = spec_pair_first(id);
        let second = spec_pair_second(id);
        first == ECS_WILDCARD || first == ECS_ANY || second == ECS_WILDCARD || second == ECS_ANY
    } else {
        let stripped = id & !ECS_TERM_REF_FLAGS;
        stripped == ECS_WILDCARD || stripped == ECS_ANY
    }
}

/// Returns the flag bits of `id`.
#[verifier::when_used_as_spec(spec_flags_of)]
pub fn flags_of(id: u64) -> (r: u64)
    ensures
        r == spec_flags_of(id),
{
    id & RUST_ecs_id_FLAGS_MASK
}

/// Returns `id` with the flag bits cleared.
#[verifier::when_used_as_spec(spec_strip_flags)]
pub fn strip_flags(id: u64) -> (r: u64)
    ensures
        r == spec_strip_flags(id),
{
    id & RUST_ECS_COMPONENT_MASK
}

/// Returns whether `id` carries every bit of `flag`.
#[verifier::when_used_as_spec(spec_has_flag)]
pub fn has_flag(id: u64, flag: u64) -> (r: bool)
    ensures
        r == spec_has_flag(id, flag),
{
    id & flag == flag
}

/// Returns the low 32 bits of `id`: the raw number without its generation.
#[verifier::when_used_as_spec(spec_strip_generation)]
pub fn strip_generation(id: u64) -> (r: u64)
    ensures
        r == spec_strip_generation(id),
{
    id & 0xFFFF_FFFF
}

/// Returns whether `id` is a pair.
#[verifier::when_used_as_spec(spec_is_pair)]
pub fn is_pair(id: u64) -> (r: bool)
    ensures
        r == spec_is_pair(id),
{
    id & ECS_PAIR == ECS_PAIR
}

/// Packs a relationship and a target into a pair identifier.
#[verifier::when_used_as_spec(spec_make_pair)]
pub fn make_pair(relationship: u64, target: u64) -> (r: u64)
    ensures
        r == spec_make_pair(relationship, target),
{
    ECS_PAIR | ((relationship << 32) | (target & 0xFFFF_FFFF))
}

/// Reads the relationship half of a pair.  Callers must check [`is_pair`]
/// first; on a non-pair identifier the result reads bits that do not hold a
/// relationship.
#[verifier::when_used_as_spec(spec_pair_first)]
pub fn pair_first(id: u64) -> (r: u64)
    ensures
        r == spec_pair_first(id),
{
    (id & RUST_ECS_COMPONENT_MASK) >> 32
}

/// Reads the target half of a pair.  Callers must check [`is_pair`] first.
#[verifier::when_used_as_spec(spec_pair_second)]
pub fn pair_second(id: u64) -> (r: u64)
    ensures
        r == spec_pair_second(id),
{
    id & 0xFFFF_FFFF
}

/// Unpacks a pair into its relationship and target halves.  The exact inverse
/// of [`make_pair`] when the identifier is a pair built from in-range halves.
pub fn unpack_pair(id: u64) -> (r: (u64, u64))
    ensures
        r.0 == spec_pair_first(id),
        r.1 == spec_pair_second(id),
{
    (pair_first(id), pair_second(id))
}

/// Returns whether `id` denotes a wildcard.
#[verifier::when_used_as_spec(spec_is_wildcard)]
pub fn is_wildcard(id: u64) -> (r: bool)
    ensures
        r == spec_is_wildcard(id),
{
    if is_pair(id) {
        let first = pair_first(id);
        let second = pair_second(id);
        first == ECS_WILDCARD || first == ECS_ANY || second == ECS_WILDCARD || second == ECS_ANY
    } else {
        let stripped = id & !ECS_TERM_REF_FLAGS;
        stripped == ECS_WILDCARD || stripped == ECS_ANY
    }
}

/// The engine's name for the single flag bit of an identifier, by priority:
/// a pair reads as `PAIR` whatever else is set, then the toggle and
/// auto-override bits; anything else reads as `UNKNOWN`.
pub fn flags_str(id: u64) -> (r: &'static str)
    ensures
        spec_is_pair(id) ==> r@ == "PAIR"@,
        !spec_is_pair(id) && spec_has_flag(id, ECS_TOGGLE) ==> r@ == "TOGGLE"@,
        !spec_is_pair(id) && !spec_has_flag(id, ECS_TOGGLE) && spec_has_flag(id, ECS_AUTO_OVERRIDE)
            ==> r@ == "AUTO_OVERRIDE"@,
        !spec_is_pair(id) && !spec_has_flag(id, ECS_TOGGLE) && !spec_has_flag(
            id,
            ECS_AUTO_OVERRIDE,
        ) ==> r@ == "UNKNOWN"@,
{
    if has_flag(id, ECS_PAIR) {
        "PAIR"
    } else if has_flag(id, ECS_TOGGLE) {
        "TOGGLE"
    } else if has_flag(id, ECS_AUTO_OVERRIDE) {
        "AUTO_OVERRIDE"
    } else {
        "UNKNOWN"
    }
}

/// A 64-bit identifier wrapped as a value of its own type.
#[derive(Debug, Clone, Copy, PartialEq, Eq, Hash, Structural)]
pub struct Entity(pub u64);

impl Entity {
    /// Wraps a raw identifier value.
    pub fn new(id: u64) -> (r: Entity)
        ensures
            r.0 == id,
    {
        Entity(id)
    }
}

/// Identifier operations shared by every value that stands for a 64-bit
/// identifier.  The provided methods are the codec applied to the wrapped
/// value.
pub trait IdOperations: Sized + Copy {
    /// The identifier value this object stands for.
    spec fn id_spec(&self) -> u64;

    /// Returns the identifier value.
    fn id(&self) -> (r: u64)
        ensures
            r == self.id_spec(),
    ;

    /// Wraps an identifier value.
    fn new_from_id(id: u64) -> (r: Self)
        ensures
            r.id_spec() == id,
    ;

    /// Returns whether the identifier is a wildcard.
    fn is_wildcard(self) -> (r: bool)
        ensures
            r == spec_is_wildcard(self.id_spec()),
    {
        is_wildcard(self.id())
    }

    /// Returns the identifier with the given role flags added.
    fn add_flags(self, flags: u64) -> (r: Self)
        ensures
            r.id_spec() == (self.id_spec() | flags),
    {
        let raw = self.id() | flags;
        Self::new_from_id(raw)
    }

    /// Returns the identifier with its role flags removed, provided its
    /// flags are exactly the ones the caller claims; anything else is a
    /// caller contract violation.
    fn remove_flags_checked(self, flags: u64) -> (r: Self)
        requires
            spec_flags_of(self.id_spec()) == flags,
        ensures
            r.id_spec() == spec_strip_flags(self.id_spec()),
    {
        let raw = self.id() & RUST_ECS_COMPONENT_MASK;
        Self::new_from_id(raw)
    }

    /// Returns the identifier with its role flags removed.
    fn remove_flags(self) -> (r: Self)
        ensures
            r.id_spec() == spec_strip_flags(self.id_spec()),
    {
        let raw = self.id() & RUST_ECS_COMPONENT_MASK;
        Self::new_from_id(raw)
    }

    /// Returns the flag bits of the identifier, or 0 when none is set.
    fn flags(self) -> (r: Self)
        ensures
            r.id_spec() == spec_flags_of(self.id_spec()),
    {
        let raw = self.id() & RUST_ecs_id_FLAGS_MASK;
        Self::new_from_id(raw)
    }

    /// Returns whether the identifier carries every bit of `flags`.
    fn has_flags_for(self, flags: u64) -> (r: bool)
        ensures
            r == spec_has_flag(self.id_spec(), flags),
    {
        self.id() & flags == flags
    }

    /// Returns whether the identifier carries any role flag.
    fn has_any_flags(self) -> (r: bool)
        ensures
            r == (spec_flags_of(self.id_spec()) != 0),
    {
        self.id() & RUST_ecs_id_FLAGS_MASK != 0
    }

    /// Returns the identifier reduced to its raw number, without generation
    /// or flags.
    fn remove_generation(self) -> (r: Entity)
        ensures
            r.0 == spec_strip_generation(self.id_spec()),
    {
        let raw = strip_generation(self.id());
        Entity(raw)
    }

    /// Returns the engine's name for the identifier's flag, as
    /// [`flags_str`] reads it.
    fn to_flags_str(self) -> (r: &'static str)
        ensures
            spec_is_pair(self.id_spec()) ==> r@ == "PAIR"@,
    {
        flags_str(self.id())
    }
}

impl IdOperations for Entity {
    open spec fn id_spec(&self) -> u64 {
        self.0
    }

    fn id(&self) -> (r: u64) {
        self.0
    }

    fn new_from_id(id: u64) -> (r: Entity) {
        Entity(id)
    }
}

/// Splitting an identifier into flags and payload loses nothing: for every
/// identifier, recombining [`strip_flags`] and [`flags_of`] restores it.
pub proof fn lemma_flags_round_trip(id: u64)
    ensures
        spec_strip_flags(id) | spec_flags_of(id) == id,
{
    assert((id & !(0xFFu64 << 60)) | (id & (0xFFu64 << 60)) == id) by (bit_vector);
}

/// Packing a relationship (within its 28-bit range) and a target (within its
/// 32-bit range) into a pair and unpacking it again returns both unchanged.
pub proof fn lemma_pair_round_trip(relationship: u64, target: u64)
    requires
        relationship < 0x1000_0000,
        target < 0x1_0000_0000,
    ensures
        spec_pair_first(spec_make_pair(relationship, target)) == relationship,
        spec_pair_second(spec_make_pair(relationship, target)) == target,
        spec_is_pair(spec_make_pair(relationship, target)),
{
    let r = relationship;
    let t = target;
    assert((((1u64 << 63) | ((r << 32) | (t & 0xFFFF_FFFF))) & !(0xFFu64 << 60)) >> 32 == r
        && ((1u64 << 63) | ((r << 32) | (t & 0xFFFF_FFFF))) & 0xFFFF_FFFF == t
        && ((1u64 << 63) | ((r << 32) | (t & 0xFFFF_FFFF))) & (1u64 << 63) == (1u64 << 63))
        by (bit_vector)
        requires
            r < 0x1000_0000 && t < 0x1_0000_0000,
    ;
}

/// The two reserved marker entities are wildcards, and a pair is a wildcard
/// exactly when one of its halves is a marker.
pub proof fn lemma_wildcard_markers()
    ensures
        spec_is_wildcard(ECS_WILDCARD),
        spec_is_wildcard(ECS_ANY),
{
    assert(ECS_WILDCARD & ECS_PAIR != ECS_PAIR && ECS_WILDCARD & !ECS_TERM_REF_FLAGS
        == ECS_WILDCARD) by (bit_vector);
    assert(ECS_ANY & ECS_PAIR != ECS_PAIR && ECS_ANY & !ECS_TERM_REF_FLAGS == ECS_ANY)
        by (bit_vector);
}

/// A pair of two in-range halves is a wildcard if and only if one of its
/// halves is one of the two reserved marker entities.  In particular a freshly
/// minted pair of two concrete identifiers is not a wildcard.
pub proof fn lemma_pair_wildcard(relationship: u64, target: u64)
    requires
        relationship < 0x1000_0000,
        target < 0x1_0000_0000,
    ensures
        spec_is_wildcard(spec_make_pair(relationship, target)) <==> (relationship == ECS_WILDCARD
            || relationship == ECS_ANY || target == ECS_WILDCARD || target == ECS_ANY),
{
    lemma_pair_round_trip(relationship, target);
}

} // verus!

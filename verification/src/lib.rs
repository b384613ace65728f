//! Component-identity core of an entity-component-system engine.
//!
//! The crate has three layers:
//!
//! - [`id`]: a bit-exact codec for 64-bit identifiers (pairs, flag bits,
//!   generation counters, wildcard markers);
//! - [`index_allocator`]: the process-wide allocator of dense per-type slot
//!   indices;
//! - [`world`] and [`registry`]: a per-world entity store together with the
//!   type-to-identifier registry that caches each component's identifier,
//!   re-validating it against the store's liveness query on every use.

pub mod c_types;
pub mod filter;
pub mod id;
pub mod index_allocator;
pub mod pipeline;
pub mod registration_traits;
pub mod registry;
pub mod token_map;
pub mod world;

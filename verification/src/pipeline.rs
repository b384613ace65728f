//! Pipelines order and schedule systems for execution.
//!
//! A pipeline is built around an entity the engine initializes for it; the
//! engine never hands back the zero identifier on success, and a zero would
//! abort in use, so construction is only defined for a live entity.

use vstd::prelude::*;

use crate::id::Entity;
use crate::world::RAW_LIMIT;
use crate::world::World;

verus! {

/// A pipeline: the entity the engine runs systems through.
pub struct Pipeline {
    /// The pipeline's own entity.
    pub entity: Entity,
}

impl Pipeline {
    /// Creates a new pipeline in `world`, minting the entity that stands
    /// for it.  The entity is live and never 0.
    pub fn new(world: &mut World) -> (r: Pipeline)
        requires
            old(world).wf(),
            old(world).entities@.len() + 1 < RAW_LIMIT,
        ensures
            final(world).wf(),
            r.entity.0 != 0,
            final(world).live(r.entity.0),
            forall|x: u64| x != r.entity.0 ==> final(world).live(x) == old(world).live(x),
            final(world).components_array == old(world).components_array,
            final(world).components_map == old(world).components_map,
    {
        let id = world.entity();
        Pipeline { entity: Entity::new(id) }
    }

    /// The entity this pipeline runs through.
    pub fn entity(&self) -> (r: Entity)
        ensures
            r == self.entity,
    {
        self.entity
    }
}

} // verus!

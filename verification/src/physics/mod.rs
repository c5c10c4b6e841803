//! Physics module. Represents the meat of the project.
//!
//! The host owns the entities. It hands them over as a slab of records, the
//! index of a record being the handle of its entity, and the systems here
//! rewrite the components in place: they never add, remove or reorder an
//! entity.

use vstd::prelude::*;

pub mod coord;
pub mod gravity;
pub mod momentum;

use crate::physics::coord::Position;
use crate::physics::gravity::{gravity, pulled, GRAVITY_QUANTUM};
use crate::physics::momentum::{momentum, moved, BouncePolicy, Velocity, FRICTION_QUANTUM};

verus! {

/// What the physics knows of one entity: where it is, if it is anywhere, and
/// how fast it travels, if it travels at all.
///
/// An entity without a position is not moved; one without a velocity stays
/// where it is.
#[derive(Clone, Copy, Debug, PartialEq, Eq)]
pub struct Entity {
    pub position: Option<Position>,
    pub velocity: Option<Velocity>,
}

impl Entity {
    /// This entity with `velocity` in the place of its own. An entity that
    /// has no velocity gets none.
    pub open spec fn redrawn(self, velocity: Velocity) -> Entity {
        Entity {
            position: self.position,
            velocity: match self.velocity {
                Some(_) => Some(velocity),
                None => None,
            },
        }
    }

    /// Whether `after` is this entity with some velocity in the place of
    /// its own.
    pub open spec fn redraws_to(self, after: Entity) -> bool {
        exists|drawn: Velocity| after == #[trigger] self.redrawn(drawn)
    }

    /// Put `velocity` in the place of the velocity of this entity, if it has
    /// one. The position stays, and an entity without a velocity stays as it
    /// is.
    pub fn replace_velocity(&mut self, velocity: Velocity)
        ensures
            *final(self) == old(self).redrawn(velocity),
    {
        if self.velocity.is_some() {
            self.velocity = Some(velocity);
        }
    }
}

/// Combination of all the physics systems for developer convenience.
///
/// It carries the quantities that tune them. The default is a pull of 2^20
/// per tick, a friction of 2^16 per tick and the [`BouncePolicy::Spill`]
/// bounce.
#[derive(Clone, Copy, Debug, PartialEq, Eq)]
pub struct PhysicsPlugin {
    /// What gravity takes from the vertical velocity on each tick.
    pub gravity: u32,
    /// What friction takes from the speed on each axis on each tick.
    pub friction: u32,
    /// How an entity is turned around at the border of the world.
    pub bounce: BouncePolicy,
}

impl Default for PhysicsPlugin {
    fn default() -> (r: Self)
        ensures
            r.gravity == GRAVITY_QUANTUM,
            r.friction == FRICTION_QUANTUM,
            r.bounce == BouncePolicy::Spill,
    {
        PhysicsPlugin {
            gravity: GRAVITY_QUANTUM,
            friction: FRICTION_QUANTUM,
            bounce: BouncePolicy::Spill,
        }
    }
}

impl PhysicsPlugin {
    /// The entity `e` one tick later: pulled down, then moved.
    pub open spec fn ticked(self, e: Entity) -> Entity {
        moved(pulled(e, self.gravity), self.friction, self.bounce)
    }

    /// Advance every entity by one tick: gravity first, momentum second.
    pub fn tick(&self, entities: &mut Vec<Entity>)
        ensures
            final(entities).len() == old(entities).len(),
            forall|i: int|
                0 <= i < old(entities).len() ==> final(entities)[i] == self.ticked(
                    #[trigger] old(entities)[i],
                ),
    {
        gravity(entities, self.gravity);
        momentum(entities, self.friction, self.bounce);
    }
}

} // verus!

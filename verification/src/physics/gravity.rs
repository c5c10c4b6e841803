//! Omnipresent downward force.

use vstd::prelude::*;

use crate::physics::coord::{clamp, saturating_sub_unsigned, CoordT, Vector2};
use crate::physics::momentum::Velocity;
use crate::physics::Entity;

verus! {

/// What gravity takes from the vertical velocity on each tick, unless the
/// host says otherwise.
pub const GRAVITY_QUANTUM: u32 = 0x10_0000;

/// The velocity `v` after gravity has pulled on it: the vertical axis is
/// lower by `quantum`, as far as the range reaches, and the horizontal axis
/// is as it was.
pub open spec fn gravity_spec(v: Velocity, quantum: u32) -> Velocity {
    Velocity(Vector2 { x: v.0.x, y: clamp(v.0.y - quantum) as CoordT })
}

/// The entity `e` after gravity has pulled on it. Only a velocity is pulled
/// on.
pub open spec fn pulled(e: Entity, quantum: u32) -> Entity {
    Entity {
        position: e.position,
        velocity: match e.velocity {
            Some(v) => Some(gravity_spec(v, quantum)),
            None => None,
        },
    }
}

/// Add velocity facing downwards to one entity.
pub fn apply_gravity(velocity: &mut Velocity, quantum: u32)
    ensures
        *final(velocity) == gravity_spec(*old(velocity), quantum),
{
    velocity.0.y = saturating_sub_unsigned(velocity.0.y, quantum);
}

/// Add velocity facing downwards to every entity that has a velocity.
pub fn gravity(entities: &mut Vec<Entity>, quantum: u32)
    ensures
        final(entities).len() == old(entities).len(),
        forall|i: int|
            0 <= i < old(entities).len() ==> final(entities)[i] == pulled(
                #[trigger] old(entities)[i],
                quantum,
            ),
{
    let count = entities.len();
    let mut i: usize = 0;
    while i < count
        invariant
            i <= count,
            entities.len() == count,
            count == old(entities).len(),
            forall|k: int| 0 <= k < i ==> entities[k] == pulled(#[trigger] old(entities)[k], quantum),
            forall|k: int| i <= k < count ==> entities[k] == #[trigger] old(entities)[k],
        decreases count - i,
    {
        let mut entity = entities[i];
        if let Some(mut velocity) = entity.velocity {
            apply_gravity(&mut velocity, quantum);
            entity.velocity = Some(velocity);
            entities.set(i, entity);
        }
        i += 1;
    }
}

} // verus!

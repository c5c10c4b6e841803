//! **P**hysics **2D** **S**andbox.
//!
//! An interactive playground for exploring real-time 2d physics simulation.
//!
//! This crate is the simulation itself: a deterministic integrator for point
//! masses on a bounded fixed-point plane. On every tick gravity pulls each
//! velocity downwards and momentum moves each position by its velocity,
//! wears the velocity down by friction and turns it around at the border of
//! the plane. Windows, input and drawing are the business of the host.

use vstd::prelude::*;

pub mod physics;

use crate::physics::coord::CoordT;
use crate::physics::momentum::Velocity;
use crate::physics::Entity;

verus! {

/// One coordinate drawn by `rand::random`, from the generator of the calling
/// thread. Nothing is claimed of the value: any coordinate may come back,
/// and two draws need not agree.
#[verifier::external_body]
fn random_coord() -> CoordT {
    rand::random()
}

/// Randomize velocities of all entities on space.
///
/// `space_pressed` says whether the space bar went down since the last
/// frame. If not, nothing changes. If so, [`Entity::replace_velocity`] gives
/// each entity a velocity drawn anew in the place of the one it has.
pub fn randomize_velocities_on_space(space_pressed: bool, entities: &mut Vec<Entity>)
    ensures
        final(entities).len() == old(entities).len(),
        !space_pressed ==> final(entities)@ == old(entities)@,
        forall|i: int|
            0 <= i < old(entities).len() ==> old(entities)[i].redraws_to(
                #[trigger] final(entities)[i],
            ),
{
    let count = entities.len();
    let mut i: usize = 0;
    while space_pressed && i < count
        invariant
            i <= count,
            entities.len() == count,
            count == old(entities).len(),
            !space_pressed ==> entities@ == old(entities)@,
            forall|k: int| 0 <= k < i ==> old(entities)[k].redraws_to(#[trigger] entities[k]),
            forall|k: int| i <= k < count ==> entities[k] == #[trigger] old(entities)[k],
        decreases count - i,
    {
        let mut entity = entities[i];
        if entity.velocity.is_some() {
            let drawn = Velocity::new(random_coord(), random_coord());
            entity.replace_velocity(drawn);
            entities.set(i, entity);
        } else {
            proof {
                lemma_redraws_to_itself(entity);
            }
        }
        i += 1;
    }
    proof {
        assert forall|k: int| 0 <= k < count implies old(entities)[k].redraws_to(
            #[trigger] entities[k],
        ) by {
            if k >= i {
                lemma_redraws_to_itself(old(entities)[k]);
            }
        }
    }
}

/// An entity is itself with some velocity in the place of its own: with its
/// own where it has one, with any where it has none.
proof fn lemma_redraws_to_itself(e: Entity)
    ensures
        e.redraws_to(e),
{
    let own = match e.velocity {
        Some(v) => v,
        None => Velocity(crate::physics::coord::Vector2 { x: 0, y: 0 }),
    };
    assert(e == e.redrawn(own));
}

} // verus!

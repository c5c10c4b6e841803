//! Conservation of momentum. Ie the tendency of physical entities to keep their state.
//!
//! One tick does three things to an entity, in this order and on each axis by
//! itself: the position advances by the velocity, friction takes its share of
//! the velocity, and at the border of the world the velocity is turned
//! around. The bounce looks at the position after the move and turns around
//! the velocity that friction has left.

use vstd::prelude::*;

use crate::physics::coord::{
    clamp, in_range, magnitude, spill_add, trunc_div, CoordT, Position, Vector2,
};
use crate::physics::Entity;

verus! {

/// What friction takes from the speed on each axis on each tick, unless the
/// host says otherwise.
pub const FRICTION_QUANTUM: u32 = 0x1_0000;

/// Change of position with time.
#[derive(Clone, Copy, Debug, PartialEq, Eq, Structural)]
pub struct Velocity(pub Vector2);

impl View for Velocity {
    type V = (int, int);

    open spec fn view(&self) -> (int, int) {
        self.0@
    }
}

impl Velocity {
    /// Construct a new velocity with provided values.
    #[inline(always)]
    pub fn new(x: CoordT, y: CoordT) -> (r: Self)
        ensures
            r.0.x == x,
            r.0.y == y,
    {
        Velocity(Vector2 { x, y })
    }
}

impl Default for Velocity {
    fn default() -> (r: Self)
        ensures
            r.0.x == 0,
            r.0.y == 0,
    {
        Velocity(Vector2 { x: 0, y: 0 })
    }
}

impl AsRef<Vector2> for Velocity {
    #[inline(always)]
    fn as_ref(&self) -> (r: &Vector2)
        ensures
            *r == self.0,
    {
        &self.0
    }
}

impl AsMut<Vector2> for Velocity {
    #[inline(always)]
    fn as_mut(&mut self) -> (r: &mut Vector2)
        ensures
            *r == old(self).0,
            final(self).0 == *final(r),
    {
        &mut self.0
    }
}

/// How an entity is turned around at the border of the world. One simulation
/// keeps to one policy: the two differ in when they turn a velocity around
/// and in how much of the speed survives.
#[derive(Clone, Copy, Debug, PartialEq, Eq, Structural)]
pub enum BouncePolicy {
    /// The position advances by a saturating sum. An axis bounces when the
    /// position stands on a border after the move and the velocity still
    /// points out of the world; 15/16 of the speed survive.
    Boundary,
    /// The position advances by [`spill_add`]. An axis bounces when part of
    /// the move was spilled; half of the speed survives.
    Spill,
}

/// The velocity `v` on one axis after friction: `quantum` nearer to zero, and
/// zero where it was no further than `quantum` from it.
pub open spec fn friction_spec(v: int, quantum: int) -> int {
    if v > quantum {
        v - quantum
    } else if v < -quantum {
        v + quantum
    } else {
        0
    }
}

/// The velocity `v` on one axis after a bounce: turned around and shortened,
/// the result rounded toward zero.
pub open spec fn reflect_spec(v: int, policy: BouncePolicy) -> int {
    match policy {
        BouncePolicy::Boundary => -trunc_div(15 * v, 16),
        BouncePolicy::Spill => -trunc_div(v, 2),
    }
}

/// Whether an axis bounces. `moved` is the position after the move, `spill`
/// the part of the move that the border has swallowed, and `slowed` the
/// velocity that friction has left.
pub open spec fn bounces(moved: int, spill: int, slowed: int, policy: BouncePolicy) -> bool {
    match policy {
        BouncePolicy::Boundary => {
            ||| moved == CoordT::MAX && slowed > 0
            ||| moved == CoordT::MIN && slowed < 0
        },
        BouncePolicy::Spill => spill != 0,
    }
}

/// The velocity on one axis after the bounce, if there is one.
pub open spec fn bounce_spec(moved: int, spill: int, slowed: int, policy: BouncePolicy) -> int {
    if bounces(moved, spill, slowed, policy) {
        reflect_spec(slowed, policy)
    } else {
        slowed
    }
}

/// Whether the tick that starts from `position` with `velocity` ends in a
/// bounce on this axis.
pub open spec fn tick_bounces(
    position: int,
    velocity: int,
    friction: int,
    policy: BouncePolicy,
) -> bool {
    bounces(
        clamp(position + velocity),
        position + velocity - clamp(position + velocity),
        friction_spec(velocity, friction),
        policy,
    )
}

/// One tick on one axis: the position and the velocity that follow from
/// `position` and `velocity`. The position moves, friction slows the
/// velocity down, and the bounce turns around what friction has left.
pub open spec fn step_axis(position: int, velocity: int, friction: int, policy: BouncePolicy) -> (
    int,
    int,
) {
    let moved = clamp(position + velocity);
    let spill = position + velocity - moved;
    let slowed = friction_spec(velocity, friction);
    (moved, bounce_spec(moved, spill, slowed, policy))
}

/// One tick on both axes of an entity that has a position and a velocity.
pub open spec fn integrate_spec(
    position: Position,
    velocity: Velocity,
    friction: u32,
    policy: BouncePolicy,
) -> (Position, Velocity) {
    let x = step_axis(position.0.x as int, velocity.0.x as int, friction as int, policy);
    let y = step_axis(position.0.y as int, velocity.0.y as int, friction as int, policy);
    (
        Position(Vector2 { x: x.0 as CoordT, y: y.0 as CoordT }),
        Velocity(Vector2 { x: x.1 as CoordT, y: y.1 as CoordT }),
    )
}

/// The entity `e` after one tick of momentum. Only an entity with both a
/// position and a velocity moves.
pub open spec fn moved(e: Entity, friction: u32, policy: BouncePolicy) -> Entity {
    match (e.position, e.velocity) {
        (Some(p), Some(v)) => {
            let next = integrate_spec(p, v, friction, policy);
            Entity { position: Some(next.0), velocity: Some(next.1) }
        },
        _ => e,
    }
}

/// Wear a velocity on one axis down by `quantum`.
pub fn friction(v: CoordT, quantum: u32) -> (r: CoordT)
    ensures
        r == friction_spec(v as int, quantum as int),
{
    let wide: i64 = v as i64;
    let step: i64 = quantum as i64;
    if wide > step {
        (wide - step) as CoordT
    } else if wide < -step {
        (wide + step) as CoordT
    } else {
        0
    }
}

/// Turn a velocity on one axis around as `policy` has it.
pub fn reflect(v: CoordT, policy: BouncePolicy) -> (r: CoordT)
    ensures
        r == reflect_spec(v as int, policy),
{
    match policy {
        BouncePolicy::Boundary => {
            let scaled: i64 = 15 * (v as i64);
            (-(scaled / 16)) as CoordT
        },
        BouncePolicy::Spill => -(v / 2),
    }
}

/// Wear a velocity down by `quantum` on each axis.
pub fn apply_friction(velocity: &mut Velocity, quantum: u32)
    ensures
        final(velocity)@ == (
            friction_spec(old(velocity).0.x as int, quantum as int),
            friction_spec(old(velocity).0.y as int, quantum as int),
        ),
{
    velocity.0.x = friction(velocity.0.x, quantum);
    velocity.0.y = friction(velocity.0.y, quantum);
}

/// Turn a velocity on one axis around if the axis bounces. `moved` is the
/// position after the move, `spill` the part of the move that the border has
/// swallowed, and `slowed` the velocity that friction has left.
pub fn bounce(moved: CoordT, spill: CoordT, slowed: CoordT, policy: BouncePolicy) -> (r: CoordT)
    ensures
        r == bounce_spec(moved as int, spill as int, slowed as int, policy),
{
    let hit = match policy {
        BouncePolicy::Boundary => (moved == CoordT::MAX && slowed > 0) || (moved == CoordT::MIN
            && slowed < 0),
        BouncePolicy::Spill => spill != 0,
    };
    if hit {
        reflect(slowed, policy)
    } else {
        slowed
    }
}

/// Advance one entity by one tick: move, then friction, then bounce.
pub fn integrate_momentum(
    position: &mut Position,
    velocity: &mut Velocity,
    friction: u32,
    policy: BouncePolicy,
)
    ensures
        (*final(position), *final(velocity)) == integrate_spec(
            *old(position),
            *old(velocity),
            friction,
            policy,
        ),
{
    let spill = match policy {
        BouncePolicy::Boundary => {
            position.0 = position.0 + velocity.0;
            Vector2::new(0, 0)
        },
        BouncePolicy::Spill => spill_add(&mut position.0, velocity.0),
    };
    apply_friction(velocity, friction);
    velocity.0.x = bounce(position.0.x, spill.x, velocity.0.x, policy);
    velocity.0.y = bounce(position.0.y, spill.y, velocity.0.y, policy);
}

/// Conservation of energy in a system. Each entity with velocity tries to keep it as much as possible.
///
/// Every entity that has a position and a velocity advances by one tick.
pub fn momentum(entities: &mut Vec<Entity>, friction: u32, policy: BouncePolicy)
    ensures
        final(entities).len() == old(entities).len(),
        forall|i: int|
            0 <= i < old(entities).len() ==> final(entities)[i] == moved(
                #[trigger] old(entities)[i],
                friction,
                policy,
            ),
{
    let count = entities.len();
    let mut i: usize = 0;
    while i < count
        invariant
            i <= count,
            entities.len() == count,
            count == old(entities).len(),
            forall|k: int|
                0 <= k < i ==> entities[k] == moved(#[trigger] old(entities)[k], friction, policy),
            forall|k: int| i <= k < count ==> entities[k] == #[trigger] old(entities)[k],
        decreases count - i,
    {
        let entity = entities[i];
        if let Some(mut position) = entity.position {
            if let Some(mut velocity) = entity.velocity {
                integrate_momentum(&mut position, &mut velocity, friction, policy);
                entities.set(i, Entity { position: Some(position), velocity: Some(velocity) });
            }
        }
        i += 1;
    }
}

/// The velocity `v` on one axis after `ticks` ticks of friction and nothing
/// else.
pub open spec fn friction_iter(v: int, quantum: int, ticks: nat) -> int
    decreases ticks,
{
    if ticks == 0 {
        v
    } else {
        friction_iter(friction_spec(v, quantum), quantum, (ticks - 1) as nat)
    }
}

/// Position and velocity of an entity after `ticks` ticks of momentum and
/// nothing else.
pub open spec fn integrate_iter(
    position: Position,
    velocity: Velocity,
    friction: u32,
    policy: BouncePolicy,
    ticks: nat,
) -> (Position, Velocity)
    decreases ticks,
{
    if ticks == 0 {
        (position, velocity)
    } else {
        let next = integrate_spec(position, velocity, friction, policy);
        integrate_iter(next.0, next.1, friction, policy, (ticks - 1) as nat)
    }
}

/// Whether the entity gets through the next `ticks` ticks of momentum
/// without a bounce on either axis.
pub open spec fn undisturbed(
    position: Position,
    velocity: Velocity,
    friction: u32,
    policy: BouncePolicy,
    ticks: nat,
) -> bool
    decreases ticks,
{
    ticks == 0 || {
        let next = integrate_spec(position, velocity, friction, policy);
        &&& !tick_bounces(position.0.x as int, velocity.0.x as int, friction as int, policy)
        &&& !tick_bounces(position.0.y as int, velocity.0.y as int, friction as int, policy)
        &&& undisturbed(next.0, next.1, friction, policy, (ticks - 1) as nat)
    }
}

/// Friction drives a velocity toward zero and never past it: the speed
/// falls by the quantum, or to zero where it was no more than the quantum,
/// and the velocity never changes its sign.
pub proof fn lemma_friction_toward_zero(v: int, quantum: int)
    requires
        quantum >= 0,
    ensures
        magnitude(friction_spec(v, quantum)) == if magnitude(v) > quantum {
            magnitude(v) - quantum
        } else {
            0
        },
        magnitude(friction_spec(v, quantum)) <= magnitude(v),
        v != 0 && quantum > 0 ==> magnitude(friction_spec(v, quantum)) < magnitude(v),
        v >= 0 ==> friction_spec(v, quantum) >= 0,
        v <= 0 ==> friction_spec(v, quantum) <= 0,
{
}

/// A bounce turns a velocity around and shortens it: 15/16 of the speed
/// survive under [`BouncePolicy::Boundary`] and half of it under
/// [`BouncePolicy::Spill`], rounded down. A speed of one is lost in the
/// rounding; any higher speed leaves a velocity that points the other way.
pub proof fn lemma_reflect_turns_around(v: int, policy: BouncePolicy)
    ensures
        v >= 0 ==> reflect_spec(v, policy) <= 0,
        v <= 0 ==> reflect_spec(v, policy) >= 0,
        policy == BouncePolicy::Boundary ==> magnitude(reflect_spec(v, policy)) == (15
            * magnitude(v)) / 16,
        policy == BouncePolicy::Spill ==> magnitude(reflect_spec(v, policy)) == magnitude(v) / 2,
        magnitude(reflect_spec(v, policy)) <= magnitude(v),
        magnitude(v) >= 2 ==> reflect_spec(v, policy) != 0,
{
}

/// An entity that stands on the upper border and heads out of the world
/// stays on the border and comes back: its velocity after the tick is what
/// friction has left of it, turned around. It is negative where friction
/// leaves a speed of two or more.
pub proof fn lemma_bounce_at_upper_border(velocity: int, friction: int, policy: BouncePolicy)
    requires
        0 <= friction,
        friction + 2 <= velocity,
    ensures
        step_axis(CoordT::MAX as int, velocity, friction, policy) == (
            CoordT::MAX as int,
            reflect_spec(velocity - friction, policy),
        ),
        step_axis(CoordT::MAX as int, velocity, friction, policy).1 < 0,
{
    lemma_reflect_turns_around(velocity - friction, policy);
}

/// An entity that stands on the lower border and heads out of the world
/// stays on the border and comes back: its velocity after the tick is what
/// friction has left of it, turned around. It is positive where friction
/// leaves a speed of two or more.
pub proof fn lemma_bounce_at_lower_border(velocity: int, friction: int, policy: BouncePolicy)
    requires
        0 <= friction,
        velocity <= -friction - 2,
    ensures
        step_axis(CoordT::MIN as int, velocity, friction, policy) == (
            CoordT::MIN as int,
            reflect_spec(velocity + friction, policy),
        ),
        step_axis(CoordT::MIN as int, velocity, friction, policy).1 > 0,
{
    lemma_reflect_turns_around(velocity + friction, policy);
}

/// A tick never takes an axis out of the world, and it never adds speed:
/// what comes out is a position and a velocity of the range, the velocity
/// no longer than the one that went in.
pub proof fn lemma_step_axis_in_range(
    position: int,
    velocity: int,
    friction: int,
    policy: BouncePolicy,
)
    requires
        in_range(velocity),
        friction >= 0,
    ensures
        in_range(step_axis(position, velocity, friction, policy).0),
        in_range(step_axis(position, velocity, friction, policy).1),
        magnitude(step_axis(position, velocity, friction, policy).1) <= magnitude(velocity),
{
    lemma_friction_toward_zero(velocity, friction);
    lemma_reflect_turns_around(friction_spec(velocity, friction), policy);
}

/// Away from the border a tick keeps the velocity apart from friction: an
/// entity that a move leaves strictly inside the world does not bounce.
pub proof fn lemma_no_bounce_inside(
    position: int,
    velocity: int,
    friction: int,
    policy: BouncePolicy,
)
    requires
        CoordT::MIN < position + velocity < CoordT::MAX,
    ensures
        step_axis(position, velocity, friction, policy) == (
            position + velocity,
            friction_spec(velocity, friction),
        ),
{
}

/// Friction applied tick after tick is friction by the sum of the quanta.
pub proof fn lemma_friction_iter(v: int, quantum: int, ticks: nat)
    requires
        quantum >= 0,
    ensures
        friction_iter(v, quantum, ticks) == friction_spec(v, ticks * quantum),
    decreases ticks,
{
    if ticks > 0 {
        let rest = (ticks - 1) as nat;
        lemma_friction_iter(friction_spec(v, quantum), quantum, rest);
        assert(ticks * quantum == rest * quantum + quantum && rest * quantum >= 0)
            by (nonlinear_arith)
            requires
                rest == ticks - 1,
                quantum >= 0,
                rest >= 0,
        ;
    } else {
        assert(ticks * quantum == 0) by (nonlinear_arith)
            requires
                ticks == 0,
        ;
    }
}

/// With a friction above zero any velocity is worn down to exactly zero
/// after finitely many ticks, as soon as the quanta add up to the speed, and
/// it stays zero from then on.
pub proof fn lemma_friction_settles(v: int, quantum: int, ticks: nat)
    requires
        quantum > 0,
        ticks * quantum >= magnitude(v),
    ensures
        friction_iter(v, quantum, ticks) == 0,
        friction_iter(v, quantum, ticks + 1) == 0,
        friction_iter(v, quantum, magnitude(v) as nat) == 0,
{
    lemma_friction_iter(v, quantum, ticks);
    lemma_friction_iter(v, quantum, ticks + 1);
    lemma_friction_iter(v, quantum, magnitude(v) as nat);
    assert((ticks + 1) * quantum >= ticks * quantum && magnitude(v) * quantum >= magnitude(v))
        by (nonlinear_arith)
        requires
            quantum > 0,
            ticks >= 0,
            magnitude(v) >= 0,
    ;
}

/// As long as an entity does not bounce, momentum does to its velocity what
/// friction alone would do.
pub proof fn lemma_undisturbed_velocity(
    position: Position,
    velocity: Velocity,
    friction: u32,
    policy: BouncePolicy,
    ticks: nat,
)
    requires
        undisturbed(position, velocity, friction, policy, ticks),
    ensures
        integrate_iter(position, velocity, friction, policy, ticks).1@ == (
            friction_iter(velocity.0.x as int, friction as int, ticks),
            friction_iter(velocity.0.y as int, friction as int, ticks),
        ),
    decreases ticks,
{
    if ticks > 0 {
        let next = integrate_spec(position, velocity, friction, policy);
        lemma_friction_toward_zero(velocity.0.x as int, friction as int);
        lemma_friction_toward_zero(velocity.0.y as int, friction as int);
        assert(next.1@ == (
            friction_spec(velocity.0.x as int, friction as int),
            friction_spec(velocity.0.y as int, friction as int),
        ));
        lemma_undisturbed_velocity(next.0, next.1, friction, policy, (ticks - 1) as nat);
    }
}

/// An entity that is left alone comes to rest, bounce or no bounce: with a
/// friction above zero its velocity is exactly zero on both axes once the
/// quanta add up to its speed on each of them.
pub proof fn lemma_comes_to_rest(
    position: Position,
    velocity: Velocity,
    friction: u32,
    policy: BouncePolicy,
    ticks: nat,
)
    requires
        friction > 0,
        ticks * friction >= magnitude(velocity.0.x as int),
        ticks * friction >= magnitude(velocity.0.y as int),
    ensures
        integrate_iter(position, velocity, friction, policy, ticks).1@ == (0int, 0int),
    decreases ticks,
{
    if ticks > 0 {
        let rest = (ticks - 1) as nat;
        let next = integrate_spec(position, velocity, friction, policy);
        lemma_step_axis_in_range(
            position.0.x as int,
            velocity.0.x as int,
            friction as int,
            policy,
        );
        lemma_step_axis_in_range(
            position.0.y as int,
            velocity.0.y as int,
            friction as int,
            policy,
        );
        lemma_friction_toward_zero(velocity.0.x as int, friction as int);
        lemma_friction_toward_zero(velocity.0.y as int, friction as int);
        lemma_reflect_turns_around(friction_spec(velocity.0.x as int, friction as int), policy);
        lemma_reflect_turns_around(friction_spec(velocity.0.y as int, friction as int), policy);
        assert(ticks * friction == rest * friction + friction && rest * friction >= 0)
            by (nonlinear_arith)
            requires
                rest == ticks - 1,
                rest >= 0,
                friction > 0,
        ;
        lemma_comes_to_rest(next.0, next.1, friction, policy, rest);
    } else {
        assert(ticks * friction == 0) by (nonlinear_arith)
            requires
                ticks == 0,
        ;
    }
}

/// An entity at rest stays as it is, wherever it stands and however long:
/// nothing is left to swing back.
pub proof fn lemma_rest_is_stable(
    position: Position,
    friction: u32,
    policy: BouncePolicy,
    ticks: nat,
)
    ensures
        integrate_iter(
            position,
            Velocity(Vector2 { x: 0, y: 0 }),
            friction,
            policy,
            ticks,
        ) == (position, Velocity(Vector2 { x: 0, y: 0 })),
    decreases ticks,
{
    if ticks > 0 {
        let still = Velocity(Vector2 { x: 0, y: 0 });
        assert(integrate_spec(position, still, friction, policy) == (position, still));
        lemma_rest_is_stable(position, friction, policy, (ticks - 1) as nat);
    }
}

} // verus!

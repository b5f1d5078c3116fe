//! Properties that hold of the systems for all inputs.
use vstd::prelude::*;
use crate::collision::{collected_by, hits_player};
use crate::entity::{Entity, EntityKind, radius_of, PLAYER_RADIUS, HAZARD_RADIUS, PICKUP_RADIUS};
use crate::geometry::{Arena, Vec2, dist_sq};
use crate::motion::{confined, moved, needs_clamp};

verus! {

/// With no intended direction the player does not drift, whatever the time step.
pub proof fn law_zero_intent_no_drift(e: Entity, dt: int)
    requires
        e.kind == EntityKind::Player,
        dt >= 0,
    ensures
        moved(e, Vec2 { x: 0, y: 0 }, dt) == e,
{
    assert(0 * (crate::motion::PLAYER_SPEED as int) * dt == 0);
    let m = moved(e, Vec2 { x: 0, y: 0 }, dt);
    assert(m.pos.x == e.pos.x);
    assert(m.pos.y == e.pos.y);
}

/// After confinement a player or hazard lies within `[radius, side - radius]`
/// on both axes.
pub proof fn law_confined_within_arena(e: Entity, arena: Arena)
    requires
        arena.wf(),
        e.kind != EntityKind::Pickup,
    ensures
        arena.holds(confined(e, arena).pos, radius_of(e.kind)),
{
}

/// A hazard's direction component changes sign exactly when its axis had to
/// be clamped (a zero component stays zero); the player's direction is kept.
pub proof fn law_bounce_iff_clamped(e: Entity, arena: Arena)
    requires
        arena.wf(),
        -1000 <= e.direction.x <= 1000,
        -1000 <= e.direction.y <= 1000,
    ensures
        e.kind == EntityKind::Hazard ==> {
            let r = radius_of(e.kind);
            let d = confined(e, arena).direction;
            &&& d.x == if needs_clamp(e.pos.x as int, r, arena.width as int) {
                -e.direction.x
            } else {
                e.direction.x as int
            }
            &&& d.y == if needs_clamp(e.pos.y as int, r, arena.height as int) {
                -e.direction.y
            } else {
                e.direction.y as int
            }
            &&& e.direction.x != 0 ==> (d.x == -e.direction.x <==> needs_clamp(
                e.pos.x as int,
                r,
                arena.width as int,
            ))
            &&& e.direction.y != 0 ==> (d.y == -e.direction.y <==> needs_clamp(
                e.pos.y as int,
                r,
                arena.height as int,
            ))
        },
        e.kind == EntityKind::Player ==> confined(e, arena).direction == e.direction,
{
}

/// A hazard hits the player exactly when the distance of their centres is
/// strictly below the sum of their radii: touching is no hit.
pub proof fn law_hazard_hit_strict(e: Entity, p: Vec2)
    requires
        e.kind == EntityKind::Hazard,
    ensures
        hits_player(e, p) <==> dist_sq(p, e.pos) < (PLAYER_RADIUS + HAZARD_RADIUS) * (
        PLAYER_RADIUS + HAZARD_RADIUS),
        dist_sq(p, e.pos) == (PLAYER_RADIUS + HAZARD_RADIUS) * (PLAYER_RADIUS + HAZARD_RADIUS)
            ==> !hits_player(e, p),
{
}

/// A pickup is collected exactly when the distance of the centres is
/// strictly below the sum of the radii: touching collects nothing.
pub proof fn law_pickup_collect_strict(e: Entity, p: Vec2)
    requires
        e.kind == EntityKind::Pickup,
    ensures
        collected_by(e, p) <==> dist_sq(p, e.pos) < (PLAYER_RADIUS + PICKUP_RADIUS) * (
        PLAYER_RADIUS + PICKUP_RADIUS),
        dist_sq(p, e.pos) == (PLAYER_RADIUS + PICKUP_RADIUS) * (PLAYER_RADIUS + PICKUP_RADIUS)
            ==> !collected_by(e, p),
{
}

} // verus!

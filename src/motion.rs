use vstd::prelude::*;
use crate::entity::{Entity, EntityKind, EntityStore, radius_of};
use crate::geometry::{Arena, Vec2, DIR_DIAGONAL, DIR_ONE, POS_LIMIT, ARENA_LIMIT};

verus! {

/// The player's speed, in pixels per second.
pub const PLAYER_SPEED: u32 = 500;

/// Largest speed that any entity may have, in pixels per second.
pub const SPEED_LIMIT: u32 = 10_000;

/// Net direction of the pressed keys: `+1`, `-1` or `0` on an axis.
pub open spec fn axis_of(plus: bool, minus: bool) -> int {
    (if plus {
        1int
    } else {
        0int
    }) - (if minus {
        1int
    } else {
        0int
    })
}

/// The player's intended direction: zero when no key (or two opposite keys)
/// is pressed, a unit vector otherwise; a diagonal is scaled so that its
/// length, and with it the speed, equals that along an axis.
pub open spec fn intent_of(up: bool, down: bool, left: bool, right: bool) -> Vec2 {
    let h = axis_of(right, left);
    let v = axis_of(up, down);
    if h != 0 && v != 0 {
        Vec2 { x: (h * DIR_DIAGONAL) as i64, y: (v * DIR_DIAGONAL) as i64 }
    } else {
        Vec2 { x: (h * DIR_ONE) as i64, y: (v * DIR_ONE) as i64 }
    }
}

/// Turns the four direction keys into the player's intended direction.
pub fn player_intent(up: bool, down: bool, left: bool, right: bool) -> (r: Vec2)
    ensures
        r == intent_of(up, down, left, right),
        r.is_zero() <==> axis_of(right, left) == 0 && axis_of(up, down) == 0,
        !r.is_zero() ==> crate::geometry::is_unit(r),
{
    let h: i64 = (if right {
        1i64
    } else {
        0i64
    }) - (if left {
        1i64
    } else {
        0i64
    });
    let v: i64 = (if up {
        1i64
    } else {
        0i64
    }) - (if down {
        1i64
    } else {
        0i64
    });
    let r = if h != 0 && v != 0 {
        Vec2 { x: h * DIR_DIAGONAL, y: v * DIR_DIAGONAL }
    } else {
        Vec2 { x: h * DIR_ONE, y: v * DIR_ONE }
    };
    proof {
        crate::geometry::lemma_component_square(r.x as int);
        crate::geometry::lemma_component_square(r.y as int);
    }
    r
}

/// Speed of the entity's kind or its own: the player's is fixed.
pub open spec fn speed_of(e: Entity) -> int {
    if e.kind == EntityKind::Player {
        PLAYER_SPEED as int
    } else {
        e.speed as int
    }
}

/// A position advanced along `d` at `speed` pixels per second for `dt`
/// milliseconds: `pos + d * speed * dt`, exact in micro-pixels.
pub open spec fn advanced(pos: Vec2, d: Vec2, speed: int, dt: int) -> Vec2 {
    Vec2 { x: (pos.x + d.x * speed * dt) as i64, y: (pos.y + d.y * speed * dt) as i64 }
}

/// An entity after one movement step: the player follows `intent`, a hazard
/// its own direction and speed, a pickup stays.
pub open spec fn moved(e: Entity, intent: Vec2, dt: int) -> Entity {
    match e.kind {
        EntityKind::Player => Entity { pos: advanced(e.pos, intent, PLAYER_SPEED as int, dt), ..e },
        EntityKind::Hazard => Entity { pos: advanced(e.pos, e.direction, e.speed as int, dt), ..e },
        EntityKind::Pickup => e,
    }
}

/// A direction whose components stay within the unit length.
pub open spec fn dir_bounded(d: Vec2) -> bool {
    -DIR_ONE <= d.x <= DIR_ONE && -DIR_ONE <= d.y <= DIR_ONE
}

/// What movement needs of an entity to stay within machine integers.
pub open spec fn movable(e: Entity) -> bool {
    e.pos.within(POS_LIMIT as int) && dir_bounded(e.direction) && e.speed <= SPEED_LIMIT
}

/// Every entity of `s` is movable.
pub open spec fn all_movable(s: Seq<Entity>) -> bool {
    forall|i: int| 0 <= i < s.len() ==> movable(#[trigger] s[i])
}

/// Advances one coordinate; exact, with no overflow for bounded inputs.
fn advance_axis(p: i64, d: i64, speed: u32, dt_ms: u32) -> (r: i64)
    requires
        -POS_LIMIT <= p <= POS_LIMIT,
        -DIR_ONE <= d <= DIR_ONE,
        speed <= SPEED_LIMIT,
    ensures
        r == p + d * speed * dt_ms,
{
    assert(-10_000_000 <= d * speed <= 10_000_000) by (nonlinear_arith)
        requires
            -1000 <= d <= 1000,
            0 <= speed <= 10_000,
    ;
    let ds: i64 = d * (speed as i64);
    assert(-42_949_672_950_000_000 <= ds * dt_ms <= 42_949_672_950_000_000) by (nonlinear_arith)
        requires
            -10_000_000 <= ds <= 10_000_000,
            0 <= dt_ms <= 4_294_967_295,
    ;
    let step: i64 = ds * (dt_ms as i64);
    assert(step == d * speed * dt_ms) by (nonlinear_arith)
        requires
            ds == d * speed,
            step == ds * dt_ms,
    ;
    p + step
}

/// The movement system: moves the player along `intent` at `PLAYER_SPEED`
/// and every hazard along its own direction at its own speed, for `dt_ms`
/// milliseconds. Pickups and the store order are left as they are.
pub fn movement_system(store: &mut EntityStore, intent: Vec2, dt_ms: u32)
    requires
        old(store).wf(),
        all_movable(old(store)@),
        dir_bounded(intent),
    ensures
        final(store).wf(),
        final(store).next_id() == old(store).next_id(),
        final(store)@.len() == old(store)@.len(),
        forall|i: int|
            0 <= i < old(store)@.len() ==> #[trigger] final(store)@[i] == moved(
                old(store)@[i],
                intent,
                dt_ms as int,
            ),
{
    let ghost s0 = store@;
    let n = store.len();
    let mut i: usize = 0;
    while i < n
        invariant
            store.wf(),
            store.next_id() == old(store).next_id(),
            n == s0.len(),
            s0 == old(store)@,
            all_movable(s0),
            dir_bounded(intent),
            i <= n,
            store@.len() == n,
            forall|k: int| 0 <= k < i ==> #[trigger] store@[k] == moved(s0[k], intent, dt_ms as int),
            forall|k: int| i <= k < n ==> #[trigger] store@[k] == s0[k],
        decreases n - i,
    {
        let e = store.get(i);
        assert(movable(s0[i as int]));
        match e.kind {
            EntityKind::Player => {
                let x = advance_axis(e.pos.x, intent.x, PLAYER_SPEED, dt_ms);
                let y = advance_axis(e.pos.y, intent.y, PLAYER_SPEED, dt_ms);
                store.set_motion(i, Vec2 { x, y }, e.direction);
            },
            EntityKind::Hazard => {
                let x = advance_axis(e.pos.x, e.direction.x, e.speed, dt_ms);
                let y = advance_axis(e.pos.y, e.direction.y, e.speed, dt_ms);
                store.set_motion(i, Vec2 { x, y }, e.direction);
            },
            EntityKind::Pickup => {},
        }
        i = i + 1;
    }
}

/// Lower and upper bound of a coordinate for a circle of radius `r` on a
/// side of length `dim`.
pub open spec fn clamp_axis(v: int, r: int, dim: int) -> int {
    if v < r {
        r
    } else if v > dim - r {
        dim - r
    } else {
        v
    }
}

/// Whether a coordinate lies outside `[r, dim - r]` and must be clamped.
pub open spec fn needs_clamp(v: int, r: int, dim: int) -> bool {
    v < r || v > dim - r
}

/// A direction component after a possible bounce off a wall.
pub open spec fn bounce(d: int, clamped: bool) -> int {
    if clamped {
        -d
    } else {
        d
    }
}

/// Reversing direction components keeps a unit direction a unit direction.
pub proof fn lemma_bounce_unit(d: Vec2, cx: bool, cy: bool)
    requires
        crate::geometry::is_unit(d),
    ensures
        crate::geometry::is_unit(
            Vec2 { x: bounce(d.x as int, cx) as i64, y: bounce(d.y as int, cy) as i64 },
        ),
{
    assert((-d.x) * (-d.x) == d.x * d.x) by (nonlinear_arith);
    assert((-d.y) * (-d.y) == d.y * d.y) by (nonlinear_arith);
}

/// An entity after confinement: the player and hazards are clamped into the
/// arena; a hazard reverses each direction component whose axis was clamped.
pub open spec fn confined(e: Entity, arena: Arena) -> Entity {
    let r = radius_of(e.kind);
    let cx = needs_clamp(e.pos.x as int, r, arena.width as int);
    let cy = needs_clamp(e.pos.y as int, r, arena.height as int);
    let pos = Vec2 {
        x: clamp_axis(e.pos.x as int, r, arena.width as int) as i64,
        y: clamp_axis(e.pos.y as int, r, arena.height as int) as i64,
    };
    match e.kind {
        EntityKind::Player => Entity { pos, ..e },
        EntityKind::Hazard => Entity {
            pos,
            direction: Vec2 {
                x: bounce(e.direction.x as int, cx) as i64,
                y: bounce(e.direction.y as int, cy) as i64,
            },
            ..e
        },
        EntityKind::Pickup => e,
    }
}

/// Clamps one coordinate and tells whether it had to.
fn confine_axis(v: i64, r: i64, dim: i64) -> (res: (i64, bool))
    requires
        0 <= r,
        2 * r <= dim <= ARENA_LIMIT,
    ensures
        res.0 == clamp_axis(v as int, r as int, dim as int),
        res.1 == needs_clamp(v as int, r as int, dim as int),
{
    if v < r {
        (r, true)
    } else if v > dim - r {
        (dim - r, true)
    } else {
        (v, false)
    }
}

/// The confinement system: brings the player and every hazard back inside
/// the arena, and bounces hazards off the walls they crossed.
pub fn confinement_system(store: &mut EntityStore, arena: Arena)
    requires
        old(store).wf(),
        arena.wf(),
        forall|i: int| 0 <= i < old(store)@.len() ==> dir_bounded(#[trigger] old(store)@[i].direction),
    ensures
        final(store).wf(),
        final(store).next_id() == old(store).next_id(),
        final(store)@.len() == old(store)@.len(),
        forall|i: int|
            0 <= i < old(store)@.len() ==> #[trigger] final(store)@[i] == confined(
                old(store)@[i],
                arena,
            ),
{
    let ghost s0 = store@;
    let n = store.len();
    let mut i: usize = 0;
    while i < n
        invariant
            store.wf(),
            store.next_id() == old(store).next_id(),
            n == s0.len(),
            s0 == old(store)@,
            arena.wf(),
            forall|k: int| 0 <= k < n ==> dir_bounded(#[trigger] s0[k].direction),
            i <= n,
            store@.len() == n,
            forall|k: int| 0 <= k < i ==> #[trigger] store@[k] == confined(s0[k], arena),
            forall|k: int| i <= k < n ==> #[trigger] store@[k] == s0[k],
        decreases n - i,
    {
        let e = store.get(i);
        assert(dir_bounded(s0[i as int].direction));
        if e.kind != EntityKind::Pickup {
            let r = e.kind.radius();
            let (x, cx) = confine_axis(e.pos.x, r, arena.width);
            let (y, cy) = confine_axis(e.pos.y, r, arena.height);
            let mut d = e.direction;
            if e.kind == EntityKind::Hazard {
                if cx {
                    d.x = -d.x;
                }
                if cy {
                    d.y = -d.y;
                }
            }
            store.set_motion(i, Vec2 { x, y }, d);
        }
        i = i + 1;
    }
}

} // verus!

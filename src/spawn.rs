use vstd::prelude::*;
use crate::entity::{Entity, EntityKind, EntityStore, count_kind, radius_of, lemma_count_push};
use crate::geometry::{Arena, Vec2, ARENA_LIMIT, DIR_DIAGONAL, DIR_ONE, is_unit};

verus! {

/// Speed given to a newly spawned hazard, in pixels per second.
pub const HAZARD_SPEED: u32 = 200;

/// Hazards placed when a round starts.
pub const START_NUMBER_OF_ENEMIES: usize = 4;

/// Most hazards alive at once.
pub const MAX_NUMBER_OF_ENEMIES: usize = 20;

/// Most pickups alive at once; a round starts with this many.
pub const MAX_NUMBER_OF_STARS: usize = 10;

/// Milliseconds between two hazard spawns.
pub const ENEMY_SPAWN_INTERVAL_MS: u64 = 5000;

/// Milliseconds between two pickup spawns.
pub const STAR_SPAWN_INTERVAL_MS: u64 = 1000;

/// Largest population cap that a configuration may set.
pub const CAP_LIMIT: usize = 10_000;

/// Accumulates elapsed time and becomes due once `interval_ms` is reached.
#[derive(Clone, Copy, Debug, PartialEq, Eq, Structural)]
pub struct SpawnTimer {
    pub interval_ms: u64,
    pub elapsed_ms: u64,
    pub due: bool,
}

impl SpawnTimer {
    /// A positive interval, and the due flag tells whether it was reached.
    pub open spec fn wf(self) -> bool {
        self.interval_ms > 0 && self.due == (self.elapsed_ms >= self.interval_ms)
    }

    /// A fresh timer; a zero interval is a configuration error.
    pub fn new(interval_ms: u64) -> (r: Option<SpawnTimer>)
        ensures
            r.is_some() <==> interval_ms > 0,
            r.is_some() ==> r.unwrap() == (SpawnTimer { interval_ms, elapsed_ms: 0, due: false }),
    {
        if interval_ms == 0 {
            None
        } else {
            Some(SpawnTimer { interval_ms, elapsed_ms: 0, due: false })
        }
    }

    /// Adds `dt_ms` to the accumulated time (saturating at the largest `u64`).
    pub fn tick(&mut self, dt_ms: u32)
        requires
            old(self).wf(),
        ensures
            final(self).wf(),
            final(self).interval_ms == old(self).interval_ms,
            final(self).elapsed_ms == if old(self).elapsed_ms + dt_ms > u64::MAX {
                u64::MAX as int
            } else {
                old(self).elapsed_ms + dt_ms
            },
    {
        self.elapsed_ms = self.elapsed_ms.saturating_add(dt_ms as u64);
        self.due = self.elapsed_ms >= self.interval_ms;
    }

    /// Reads the due flag; a due timer restarts from zero.
    pub fn take_due(&mut self) -> (r: bool)
        requires
            old(self).wf(),
        ensures
            final(self).wf(),
            r == old(self).due,
            !final(self).due,
            final(self).interval_ms == old(self).interval_ms,
            final(self).elapsed_ms == if r {
                0
            } else {
                old(self).elapsed_ms
            },
    {
        let r = self.due;
        if r {
            self.elapsed_ms = 0;
            self.due = false;
        }
        r
    }
}

/// Population caps, seed size and spawn intervals of a round.
#[derive(Clone, Copy, Debug, PartialEq, Eq, Structural)]
pub struct SpawnConfig {
    pub hazard_cap: usize,
    pub pickup_cap: usize,
    pub start_hazards: usize,
    pub hazard_interval_ms: u64,
    pub pickup_interval_ms: u64,
}

impl SpawnConfig {
    pub open spec fn wf(self) -> bool {
        &&& 0 < self.hazard_cap <= CAP_LIMIT
        &&& 0 < self.pickup_cap <= CAP_LIMIT
        &&& self.start_hazards <= self.hazard_cap
        &&& self.hazard_interval_ms > 0
        &&& self.pickup_interval_ms > 0
    }

    /// Validates a configuration: caps must be positive (and at most
    /// `CAP_LIMIT`), the seed no larger than the hazard cap, intervals positive.
    pub fn new(
        hazard_cap: usize,
        pickup_cap: usize,
        start_hazards: usize,
        hazard_interval_ms: u64,
        pickup_interval_ms: u64,
    ) -> (r: Option<SpawnConfig>)
        ensures
            r.is_some() <==> (SpawnConfig {
                hazard_cap,
                pickup_cap,
                start_hazards,
                hazard_interval_ms,
                pickup_interval_ms,
            }).wf(),
            r.is_some() ==> r.unwrap() == (SpawnConfig {
                hazard_cap,
                pickup_cap,
                start_hazards,
                hazard_interval_ms,
                pickup_interval_ms,
            }),
    {
        let c = SpawnConfig {
            hazard_cap,
            pickup_cap,
            start_hazards,
            hazard_interval_ms,
            pickup_interval_ms,
        };
        if 0 < hazard_cap && hazard_cap <= CAP_LIMIT && 0 < pickup_cap && pickup_cap <= CAP_LIMIT
            && start_hazards <= hazard_cap && hazard_interval_ms > 0 && pickup_interval_ms > 0 {
            Some(c)
        } else {
            None
        }
    }

    /// The game's own settings.
    pub fn standard() -> (r: SpawnConfig)
        ensures
            r.wf(),
            r.hazard_cap == MAX_NUMBER_OF_ENEMIES,
            r.pickup_cap == MAX_NUMBER_OF_STARS,
            r.start_hazards == START_NUMBER_OF_ENEMIES,
            r.hazard_interval_ms == ENEMY_SPAWN_INTERVAL_MS,
            r.pickup_interval_ms == STAR_SPAWN_INTERVAL_MS,
    {
        SpawnConfig {
            hazard_cap: MAX_NUMBER_OF_ENEMIES,
            pickup_cap: MAX_NUMBER_OF_STARS,
            start_hazards: START_NUMBER_OF_ENEMIES,
            hazard_interval_ms: ENEMY_SPAWN_INTERVAL_MS,
            pickup_interval_ms: STAR_SPAWN_INTERVAL_MS,
        }
    }

    /// Population cap of `kind`; a round has a single player.
    pub open spec fn cap_of(self, kind: EntityKind) -> int {
        match kind {
            EntityKind::Hazard => self.hazard_cap as int,
            EntityKind::Pickup => self.pickup_cap as int,
            EntityKind::Player => 1,
        }
    }
}

/// Random draws for one new entity, supplied by the caller's random source.
#[derive(Clone, Copy, Debug, PartialEq, Eq, Structural)]
pub struct SpawnRolls {
    pub x: u64,
    pub y: u64,
    pub heading: u64,
}

/// A coordinate drawn from `roll`, evenly over `[r, dim - r]`.
pub open spec fn spawn_coord(roll: u64, r: int, dim: int) -> int {
    r + roll as int % (dim - 2 * r + 1)
}

/// One of the eight compass directions, picked by `roll`.
pub open spec fn heading_of(roll: u64) -> Vec2 {
    let k = roll % 8;
    if k == 0 {
        Vec2 { x: DIR_ONE, y: 0 }
    } else if k == 1 {
        Vec2 { x: DIR_DIAGONAL, y: DIR_DIAGONAL }
    } else if k == 2 {
        Vec2 { x: 0, y: DIR_ONE }
    } else if k == 3 {
        Vec2 { x: (-DIR_DIAGONAL) as i64, y: DIR_DIAGONAL }
    } else if k == 4 {
        Vec2 { x: (-DIR_ONE) as i64, y: 0 }
    } else if k == 5 {
        Vec2 { x: (-DIR_DIAGONAL) as i64, y: (-DIR_DIAGONAL) as i64 }
    } else if k == 6 {
        Vec2 { x: 0, y: (-DIR_ONE) as i64 }
    } else {
        Vec2 { x: DIR_DIAGONAL, y: (-DIR_DIAGONAL) as i64 }
    }
}

/// Every heading is a unit direction.
pub proof fn lemma_heading_unit(roll: u64)
    ensures
        is_unit(heading_of(roll)),
{
    let d = heading_of(roll);
    crate::geometry::lemma_component_square(d.x as int);
    crate::geometry::lemma_component_square(d.y as int);
}

/// The entity that a spawn of `kind` with `rolls` creates under `id`: a
/// position inside the arena, and for a hazard a heading and the default speed.
pub open spec fn spawned(id: u64, kind: EntityKind, arena: Arena, rolls: SpawnRolls) -> Entity {
    let r = radius_of(kind);
    let pos = Vec2 {
        x: spawn_coord(rolls.x, r, arena.width as int) as i64,
        y: spawn_coord(rolls.y, r, arena.height as int) as i64,
    };
    if kind == EntityKind::Hazard {
        Entity { id, kind, pos, direction: heading_of(rolls.heading), speed: HAZARD_SPEED }
    } else {
        Entity { id, kind, pos, direction: Vec2 { x: 0, y: 0 }, speed: 0 }
    }
}

fn spawn_coordinate(roll: u64, r: i64, dim: i64) -> (c: i64)
    requires
        0 <= r,
        2 * r <= dim <= ARENA_LIMIT,
    ensures
        c == spawn_coord(roll, r as int, dim as int),
        r <= c <= dim - r,
{
    let span = (dim - 2 * r + 1) as u64;
    r + (roll % span) as i64
}

/// The heading that `roll` picks.
pub fn heading(roll: u64) -> (d: Vec2)
    ensures
        d == heading_of(roll),
        is_unit(d),
{
    let k = roll % 8;
    if k == 0 {
        Vec2 { x: DIR_ONE, y: 0 }
    } else if k == 1 {
        Vec2 { x: DIR_DIAGONAL, y: DIR_DIAGONAL }
    } else if k == 2 {
        Vec2 { x: 0, y: DIR_ONE }
    } else if k == 3 {
        Vec2 { x: -DIR_DIAGONAL, y: DIR_DIAGONAL }
    } else if k == 4 {
        Vec2 { x: -DIR_ONE, y: 0 }
    } else if k == 5 {
        Vec2 { x: -DIR_DIAGONAL, y: -DIR_DIAGONAL }
    } else if k == 6 {
        Vec2 { x: 0, y: -DIR_ONE }
    } else {
        Vec2 { x: DIR_DIAGONAL, y: -DIR_DIAGONAL }
    }
}

/// Creates one entity of `kind` at the place that `rolls` picks.
pub fn spawn_entity(store: &mut EntityStore, kind: EntityKind, arena: Arena, rolls: SpawnRolls) -> (id: u64)
    requires
        old(store).wf(),
        old(store).has_room(1),
        arena.wf(),
        kind != EntityKind::Player,
    ensures
        final(store).wf(),
        id == old(store).next_id(),
        final(store).next_id() == old(store).next_id() + 1,
        final(store)@ == old(store)@.push(spawned(id, kind, arena, rolls)),
        arena.holds(spawned(id, kind, arena, rolls).pos, radius_of(kind)),
{
    let r = kind.radius();
    let x = spawn_coordinate(rolls.x, r, arena.width);
    let y = spawn_coordinate(rolls.y, r, arena.height);
    let pos = Vec2 { x, y };
    if kind == EntityKind::Hazard {
        let d = heading(rolls.heading);
        store.create(kind, pos, d, HAZARD_SPEED)
    } else {
        store.create(kind, pos, Vec2 { x: 0, y: 0 }, 0)
    }
}

/// The spawn system for one kind: reads (and so clears) the timer's due
/// flag, and when it was due and fewer than `cap` entities of `kind` live,
/// creates one. A full population leaves the store as it is.
pub fn spawn_system(
    store: &mut EntityStore,
    timer: &mut SpawnTimer,
    kind: EntityKind,
    cap: usize,
    arena: Arena,
    rolls: SpawnRolls,
) -> (r: Option<u64>)
    requires
        old(store).wf(),
        old(store).has_room(1),
        old(timer).wf(),
        arena.wf(),
        kind != EntityKind::Player,
    ensures
        final(store).wf(),
        final(timer).wf(),
        !final(timer).due,
        final(timer).interval_ms == old(timer).interval_ms,
        final(timer).elapsed_ms == if old(timer).due {
            0
        } else {
            old(timer).elapsed_ms
        },
        r.is_some() <==> old(timer).due && count_kind(old(store)@, kind) < cap,
        count_kind(old(store)@, kind) >= cap ==> r.is_none() && final(store)@ == old(store)@,
        r.is_some() ==> r.unwrap() == old(store).next_id() && final(store).next_id()
            == old(store).next_id() + 1 && final(store)@ == old(store)@.push(
            spawned(r.unwrap(), kind, arena, rolls),
        ) && count_kind(final(store)@, kind) == count_kind(old(store)@, kind) + 1,
        r.is_none() ==> final(store)@ == old(store)@ && final(store).next_id() == old(
            store,
        ).next_id(),
{
    let due = timer.take_due();
    if due && store.count(kind) < cap {
        let ghost s0 = store@;
        let id = spawn_entity(store, kind, arena, rolls);
        proof {
            lemma_count_push(s0, spawned(id, kind, arena, rolls), kind);
        }
        Some(id)
    } else {
        None
    }
}

} // verus!

use vstd::prelude::*;
use crate::collision::{GameOverEvent, add_capped, collected_by, collected_count, collision_system, hazard_hit, positions_bounded, uncollected};
use crate::entity::{Entity, EntityKind, EntityStore, count_kind, radius_of, lemma_count_push, lemma_count_remove};
use crate::geometry::{Arena, Vec2, ARENA_LIMIT, POS_LIMIT, is_unit};
use crate::motion::{SPEED_LIMIT, confined, confinement_system, dir_bounded, intent_of, moved, movement_system, player_intent, all_movable, movable};
use crate::score::ScoreBoard;
use crate::spawn::{SpawnConfig, SpawnRolls, SpawnTimer, spawn_entity, spawn_system, spawned};
use crate::state::{AppState, SimulationState};

verus! {

/// The direction keys held during a tick.
#[derive(Clone, Copy, Debug, PartialEq, Eq, Structural)]
pub struct Controls {
    pub up: bool,
    pub down: bool,
    pub left: bool,
    pub right: bool,
}

/// The intended direction that `c` gives the player.
pub open spec fn controls_intent(c: Controls) -> Vec2 {
    intent_of(c.up, c.down, c.left, c.right)
}

/// An entity that lies in the largest possible arena and moves within limits.
pub open spec fn placed(e: Entity) -> bool {
    &&& 0 <= e.pos.x <= ARENA_LIMIT
    &&& 0 <= e.pos.y <= ARENA_LIMIT
    &&& dir_bounded(e.direction)
    &&& e.speed <= SPEED_LIMIT
    &&& e.kind == EntityKind::Hazard ==> is_unit(e.direction)
}

/// Every entity of `s` is placed.
pub open spec fn all_placed(s: Seq<Entity>) -> bool {
    forall|i: int| 0 <= i < s.len() ==> placed(#[trigger] s[i])
}

/// Every player and hazard of `s` lies inside `arena`.
pub open spec fn all_confined(s: Seq<Entity>, arena: Arena) -> bool {
    forall|i: int|
        0 <= i < s.len() && (#[trigger] s[i]).kind != EntityKind::Pickup ==> arena.holds(
            s[i].pos,
            radius_of(s[i].kind),
        )
}

/// The entities after movement and confinement of one tick.
pub open spec fn stepped(s: Seq<Entity>, intent: Vec2, dt: int, arena: Arena) -> Seq<Entity> {
    Seq::new(s.len(), |i: int| confined(moved(s[i], intent, dt), arena))
}

/// Some player of `s` is touched by a hazard of `s`.
pub open spec fn player_hit(s: Seq<Entity>) -> bool {
    exists|pi: int|
        0 <= pi < s.len() && (#[trigger] s[pi]).kind == EntityKind::Player && hazard_hit(s, s[pi].pos)
}

/// The player that starts a round, at the centre of the arena.
pub open spec fn player_at_center(id: u64, arena: Arena) -> Entity {
    Entity {
        id,
        kind: EntityKind::Player,
        pos: Vec2 { x: (arena.width / 2) as i64, y: (arena.height / 2) as i64 },
        direction: Vec2 { x: 0, y: 0 },
        speed: 0,
    }
}

/// The population that starts a round: the player, then `start_hazards`
/// hazards, then `pickup_cap` pickups, under consecutive identifiers from
/// `first`; hazard and pickup number `k` (counted from 0) use `rolls[k]`.
pub open spec fn seeded(first: nat, arena: Arena, config: SpawnConfig, rolls: Seq<SpawnRolls>) -> Seq<
    Entity,
> {
    Seq::new(
        (1 + config.start_hazards + config.pickup_cap) as nat,
        |i: int|
            if i == 0 {
                player_at_center(first as u64, arena)
            } else if i <= config.start_hazards {
                spawned((first + i) as u64, EntityKind::Hazard, arena, rolls[i - 1])
            } else {
                spawned((first + i) as u64, EntityKind::Pickup, arena, rolls[i - 1])
            },
    )
}

/// The whole simulation state that the tick driver owns.
pub struct Simulation {
    pub arena: Arena,
    pub config: SpawnConfig,
    pub store: EntityStore,
    pub scores: ScoreBoard,
    pub hazard_timer: SpawnTimer,
    pub pickup_timer: SpawnTimer,
    pub phase: AppState,
    pub run_state: SimulationState,
    pub exit_requested: bool,
}

impl Simulation {
    /// The simulation's invariant: valid arena, configuration, store and
    /// timers; every entity placed; populations within their caps; and no
    /// entity outside a round.
    pub open spec fn wf(&self) -> bool {
        &&& self.arena.wf()
        &&& self.config.wf()
        &&& self.store.wf()
        &&& self.hazard_timer.wf()
        &&& self.pickup_timer.wf()
        &&& self.hazard_timer.interval_ms == self.config.hazard_interval_ms
        &&& self.pickup_timer.interval_ms == self.config.pickup_interval_ms
        &&& all_placed(self.store@)
        &&& count_kind(self.store@, EntityKind::Hazard) <= self.config.hazard_cap
        &&& count_kind(self.store@, EntityKind::Pickup) <= self.config.pickup_cap
        &&& self.phase != AppState::Game ==> self.store@.len() == 0
    }

    /// The systems of a tick run only in a round that is not paused.
    pub open spec fn is_running(&self) -> bool {
        self.phase == AppState::Game && self.run_state == SimulationState::Running
    }

    /// Number of entities that starting a round creates.
    pub open spec fn seed_size(&self) -> nat {
        (1 + self.config.start_hazards + self.config.pickup_cap) as nat
    }

    /// A simulation in the main menu, with an empty arena and no scores.
    pub fn new(arena: Arena, config: SpawnConfig) -> (r: Simulation)
        requires
            arena.wf(),
            config.wf(),
        ensures
            r.wf(),
            r.arena == arena,
            r.config == config,
            r.phase == AppState::MainMenu,
            r.run_state == SimulationState::Running,
            r.store@.len() == 0,
            r.store.next_id() == 0,
            r.scores.current == 0,
            r.scores.history@.len() == 0,
            !r.exit_requested,
    {
        Simulation {
            arena,
            config,
            store: EntityStore::new(),
            scores: ScoreBoard::new(),
            hazard_timer: SpawnTimer {
                interval_ms: config.hazard_interval_ms,
                elapsed_ms: 0,
                due: false,
            },
            pickup_timer: SpawnTimer {
                interval_ms: config.pickup_interval_ms,
                elapsed_ms: 0,
                due: false,
            },
            phase: AppState::MainMenu,
            run_state: SimulationState::Running,
            exit_requested: false,
        }
    }

    /// Starts a round: places the player at the centre, the seed hazards and
    /// a full set of pickups, zeroes the score and restarts the timers.
    fn enter_game(&mut self, rolls: &Vec<SpawnRolls>)
        requires
            old(self).wf(),
            old(self).store@.len() == 0,
            old(self).store.has_room(old(self).seed_size()),
            rolls@.len() >= old(self).seed_size() - 1,
        ensures
            final(self).wf(),
            final(self).phase == AppState::Game,
            final(self).run_state == SimulationState::Running,
            final(self).arena == old(self).arena,
            final(self).config == old(self).config,
            final(self).exit_requested == old(self).exit_requested,
            final(self).scores.current == 0,
            final(self).scores.history@ == old(self).scores.history@,
            final(self).hazard_timer.elapsed_ms == 0,
            final(self).pickup_timer.elapsed_ms == 0,
            final(self).store@ == seeded(
                old(self).store.next_id(),
                old(self).arena,
                old(self).config,
                rolls@,
            ),
            count_kind(final(self).store@, EntityKind::Player) == 1,
            count_kind(final(self).store@, EntityKind::Hazard) == old(self).config.start_hazards,
            count_kind(final(self).store@, EntityKind::Pickup) == old(self).config.pickup_cap,
    {
        let ghost first = self.store.next_id();
        let ghost want = seeded(first, self.arena, self.config, rolls@);
        let arena = self.arena;
        let center = arena.center();
        self.store.create(EntityKind::Player, center, Vec2 { x: 0, y: 0 }, 0);
        proof {
            lemma_count_push(Seq::empty(), self.store@[0], EntityKind::Player);
            lemma_count_push(Seq::empty(), self.store@[0], EntityKind::Hazard);
            lemma_count_push(Seq::empty(), self.store@[0], EntityKind::Pickup);
            assert(Seq::<Entity>::empty().push(self.store@[0]) == self.store@);
        }
        let h = self.config.start_hazards;
        let total = h + self.config.pickup_cap;
        let mut k: usize = 0;
        while k < total
            invariant
                self.store.wf(),
                arena == self.arena,
                arena.wf(),
                self.config == old(self).config,
                self.config.wf(),
                self.exit_requested == old(self).exit_requested,
                self.scores.history@ == old(self).scores.history@,
                h == self.config.start_hazards,
                total == h + self.config.pickup_cap,
                rolls@.len() >= total,
                want == seeded(first, arena, self.config, rolls@),
                first == old(self).store.next_id(),
                first + total + 1 <= u64::MAX,
                k <= total,
                self.store.next_id() == first + 1 + k,
                self.store@.len() == 1 + k,
                forall|j: int| 0 <= j < 1 + k ==> #[trigger] self.store@[j] == want[j],
                all_placed(self.store@),
                count_kind(self.store@, EntityKind::Player) == 1,
                count_kind(self.store@, EntityKind::Hazard) == if k <= h {
                    k
                } else {
                    h
                },
                count_kind(self.store@, EntityKind::Pickup) == if k <= h {
                    0
                } else {
                    (k - h) as nat
                },
            decreases total - k,
        {
            let kind = if k < h {
                EntityKind::Hazard
            } else {
                EntityKind::Pickup
            };
            let ghost s0 = self.store@;
            let id = spawn_entity(&mut self.store, kind, arena, rolls[k]);
            proof {
                let e = spawned(id, kind, arena, rolls@[k as int]);
                crate::spawn::lemma_heading_unit(rolls@[k as int].heading);
                lemma_count_push(s0, e, EntityKind::Player);
                lemma_count_push(s0, e, EntityKind::Hazard);
                lemma_count_push(s0, e, EntityKind::Pickup);
                assert(self.store@[k + 1] == want[k + 1]);
            }
            k = k + 1;
        }
        proof {
            assert(self.store@ =~= want);
        }
        self.scores.reset();
        self.hazard_timer = SpawnTimer {
            interval_ms: self.config.hazard_interval_ms,
            elapsed_ms: 0,
            due: false,
        };
        self.pickup_timer = SpawnTimer {
            interval_ms: self.config.pickup_interval_ms,
            elapsed_ms: 0,
            due: false,
        };
        self.phase = AppState::Game;
        self.run_state = SimulationState::Running;
    }

    /// Moves from the current phase to `target` when that is legal: the
    /// main menu or a round, from any other phase. The game-over phase is
    /// reached only through a collision. Leaving a round clears every entity;
    /// entering one seeds its population, zeroes the score and resumes running.
    pub fn request_phase_transition(&mut self, target: AppState, rolls: &Vec<SpawnRolls>) -> (r: bool)
        requires
            old(self).wf(),
            target == AppState::Game ==> old(self).store.has_room(old(self).seed_size()) && rolls@.len()
                >= old(self).seed_size() - 1,
        ensures
            final(self).wf(),
            r == (target != AppState::GameOver && target != old(self).phase),
            final(self).arena == old(self).arena,
            final(self).config == old(self).config,
            final(self).exit_requested == old(self).exit_requested,
            final(self).scores.history@ == old(self).scores.history@,
            !r ==> final(self).phase == old(self).phase && final(self).run_state == old(self).run_state
                && final(self).store@ == old(self).store@ && final(self).scores.current == old(
                self,
            ).scores.current,
            r ==> final(self).phase == target,
            r && target == AppState::MainMenu ==> final(self).store@.len() == 0
                && final(self).scores.current == old(self).scores.current,
            r && target == AppState::Game ==> final(self).scores.current == 0 && final(self).run_state
                == SimulationState::Running && final(self).store@ == seeded(
                old(self).store.next_id(),
                old(self).arena,
                old(self).config,
                rolls@,
            ) && count_kind(final(self).store@, EntityKind::Player) == 1 && count_kind(
                final(self).store@,
                EntityKind::Hazard,
            ) == old(self).config.start_hazards && count_kind(final(self).store@, EntityKind::Pickup)
                == old(self).config.pickup_cap,
    {
        if target == AppState::GameOver || target == self.phase {
            return false;
        }
        if self.phase == AppState::Game {
            self.store.clear();
        }
        if target == AppState::Game {
            self.enter_game(rolls);
        } else {
            self.phase = target;
        }
        true
    }

    /// Pauses a running round or resumes a paused one; legal only in a round.
    pub fn request_run_state_toggle(&mut self) -> (r: bool)
        requires
            old(self).wf(),
        ensures
            final(self).wf(),
            r == (old(self).phase == AppState::Game),
            final(self).run_state == if r {
                if old(self).run_state == SimulationState::Running {
                    SimulationState::Paused
                } else {
                    SimulationState::Running
                }
            } else {
                old(self).run_state
            },
            final(self).phase == old(self).phase,
            final(self).store@ == old(self).store@,
            final(self).scores.current == old(self).scores.current,
            final(self).scores.history@ == old(self).scores.history@,
    {
        if self.phase != AppState::Game {
            return false;
        }
        self.run_state = match self.run_state {
            SimulationState::Running => SimulationState::Paused,
            SimulationState::Paused => SimulationState::Running,
        };
        true
    }

    /// Records that the application should close.
    pub fn request_exit(&mut self)
        requires
            old(self).wf(),
        ensures
            final(self).wf(),
            final(self).exit_requested,
            final(self).phase == old(self).phase,
            final(self).store@ == old(self).store@,
    {
        self.exit_requested = true;
    }

    /// Current application phase.
    pub fn phase(&self) -> (r: AppState)
        ensures
            r == self.phase,
    {
        self.phase
    }

    /// Current run state.
    pub fn run_state(&self) -> (r: SimulationState)
        ensures
            r == self.run_state,
    {
        self.run_state
    }

    /// Current round's score.
    pub fn current_score(&self) -> (r: u32)
        ensures
            r == self.scores.current,
    {
        self.scores.current
    }

    /// Identifiers and positions of the live entities of `kind`.
    pub fn entities(&self, kind: EntityKind) -> (r: Vec<(u64, Vec2)>)
        ensures
            r@.len() == crate::entity::of_kind(self.store@, kind).len(),
            forall|k: int|
                0 <= k < r@.len() ==> #[trigger] r@[k] == (
                    crate::entity::of_kind(self.store@, kind)[k].id,
                    crate::entity::of_kind(self.store@, kind)[k].pos,
                ),
    {
        self.store.positions_of(kind)
    }

    /// One tick. The arena takes its current size. In a running round the
    /// spawn timers advance, then movement, confinement, collision and, if
    /// the player survived, the two spawn systems run in that order. A
    /// game-over event is recorded in the score history, ends the round and
    /// clears the arena; it is also returned for other listeners. Outside a
    /// running round nothing but the arena changes.
    #[verifier::rlimit(50)]
    pub fn tick(
        &mut self,
        arena: Arena,
        dt_ms: u32,
        controls: Controls,
        hazard_rolls: SpawnRolls,
        pickup_rolls: SpawnRolls,
    ) -> (event: Option<GameOverEvent>)
        requires
            old(self).wf(),
            arena.wf(),
            old(self).store.has_room(2),
        ensures
            final(self).wf(),
            final(self).arena == arena,
            final(self).config == old(self).config,
            final(self).exit_requested == old(self).exit_requested,
            final(self).run_state == old(self).run_state,
            final(self).scores.current >= old(self).scores.current,
            final(self).scores.history@.len() == old(self).scores.history@.len() + if event.is_some() {
                1int
            } else {
                0int
            },
            !old(self).is_running() ==> event.is_none() && final(self).phase == old(self).phase
                && final(self).store@ == old(self).store@ && final(self).scores.current == old(
                self,
            ).scores.current && final(self).scores.history@ == old(self).scores.history@,
            old(self).is_running() ==> event.is_some() == player_hit(
                stepped(old(self).store@, controls_intent(controls), dt_ms as int, arena),
            ),
            event.is_some() ==> event.unwrap().score == old(self).scores.current
                && final(self).scores.current == old(self).scores.current && final(self).phase
                == AppState::GameOver && final(self).store@.len() == 0
                && final(self).scores.history@.drop_last() == old(self).scores.history@
                && final(self).scores.history@.last().score == event.unwrap().score,
            old(self).is_running() && event.is_none() ==> final(self).phase == AppState::Game
                && final(self).scores.history@ == old(self).scores.history@ && all_confined(
                final(self).store@,
                arena,
            ),
            old(self).is_running() && event.is_none() ==> {
                let s1 = stepped(old(self).store@, controls_intent(controls), dt_ms as int, arena);
                &&& count_kind(s1, EntityKind::Player) == 0 ==> final(self).scores.current == old(
                    self,
                ).scores.current
                &&& forall|pi: int|
                    0 <= pi < s1.len() && (#[trigger] s1[pi]).kind == EntityKind::Player
                        ==> final(self).scores.current == add_capped(
                        old(self).scores.current,
                        collected_count(s1, s1[pi].pos),
                    )
            },
    {
        self.arena = arena;
        if !(self.phase == AppState::Game && self.run_state == SimulationState::Running) {
            return None;
        }
        let ghost s0 = self.store@;
        let intent = player_intent(controls.up, controls.down, controls.left, controls.right);
        self.hazard_timer.tick(dt_ms);
        self.pickup_timer.tick(dt_ms);
        assert(all_movable(s0)) by {
            assert forall|i: int| 0 <= i < s0.len() implies movable(#[trigger] s0[i]) by {
                assert(placed(s0[i]));
            }
        }
        movement_system(&mut self.store, intent, dt_ms);
        confinement_system(&mut self.store, arena);
        let ghost s1 = self.store@;
        proof {
            self.store.lemma_at_most_one_player();
            assert(s1 =~= stepped(s0, intent, dt_ms as int, arena));
            lemma_stepped(s0, intent, dt_ms as int, arena);
        }
        let event = collision_system(&mut self.store, &mut self.scores.current);
        proof {
            let s2 = self.store@;
            if count_kind(s1, EntityKind::Player) == 0 {
                assert(!player_hit(s1)) by {
                    if player_hit(s1) {
                        let pi = choose|pi: int|
                            0 <= pi < s1.len() && (#[trigger] s1[pi]).kind == EntityKind::Player
                                && hazard_hit(s1, s1[pi].pos);
                        lemma_count_remove(s1, pi, EntityKind::Player);
                    }
                }
            } else {
                crate::entity::lemma_count_positive(s1, EntityKind::Player);
                let pi = choose|pi: int| 0 <= pi < s1.len() && (#[trigger] s1[pi]).kind == EntityKind::Player;
                assert(count_kind(s1, EntityKind::Player) <= 1);
                crate::entity::lemma_single_player(s1, pi);
                assert(event.is_some() == hazard_hit(s1, s1[pi].pos));
                if event.is_none() {
                    lemma_uncollected_keeps(s1, s1[pi].pos, arena);
                }
            }
        }
        match event {
            Some(ev) => {
                self.scores.record(ev);
                self.store.clear();
                self.phase = AppState::GameOver;
                Some(ev)
            },
            None => {
                let ghost s2 = self.store@;
                let cfg = self.config;
                let a = spawn_system(
                    &mut self.store,
                    &mut self.hazard_timer,
                    EntityKind::Hazard,
                    cfg.hazard_cap,
                    arena,
                    hazard_rolls,
                );
                proof {
                    lemma_spawn_keeps(s2, self.store@, a, EntityKind::Hazard, arena, hazard_rolls);
                }
                let ghost s3 = self.store@;
                let b = spawn_system(
                    &mut self.store,
                    &mut self.pickup_timer,
                    EntityKind::Pickup,
                    cfg.pickup_cap,
                    arena,
                    pickup_rolls,
                );
                proof {
                    lemma_spawn_keeps(s3, self.store@, b, EntityKind::Pickup, arena, pickup_rolls);
                }
                None
            },
        }
    }
}

/// Movement then confinement keeps every entity placed, keeps every kind's
/// count, and leaves players and hazards inside the arena.
proof fn lemma_stepped(s: Seq<Entity>, intent: Vec2, dt: int, arena: Arena)
    requires
        all_placed(s),
        arena.wf(),
        crate::motion::dir_bounded(intent),
    ensures
        all_placed(stepped(s, intent, dt, arena)),
        all_confined(stepped(s, intent, dt, arena), arena),
        positions_bounded(stepped(s, intent, dt, arena)),
        forall|kind: EntityKind| count_kind(#[trigger] stepped(s, intent, dt, arena), kind) == count_kind(s, kind),
{
    let t = stepped(s, intent, dt, arena);
    assert forall|i: int| 0 <= i < t.len() implies placed(#[trigger] t[i]) && t[i].pos.within(
        POS_LIMIT as int,
    ) by {
        assert(placed(s[i]));
        if s[i].kind == EntityKind::Hazard {
            let e = s[i];
            let r = radius_of(e.kind);
            crate::motion::lemma_bounce_unit(
                e.direction,
                crate::motion::needs_clamp(moved(e, intent, dt).pos.x as int, r, arena.width as int),
                crate::motion::needs_clamp(moved(e, intent, dt).pos.y as int, r, arena.height as int),
            );
        }
    }
    assert forall|kind: EntityKind| count_kind(#[trigger] stepped(s, intent, dt, arena), kind) == count_kind(s, kind) by {
        lemma_count_same_kinds(s, t, kind);
    }
}

/// Sequences that agree on every element's kind count every kind alike.
proof fn lemma_count_same_kinds(a: Seq<Entity>, b: Seq<Entity>, kind: EntityKind)
    requires
        a.len() == b.len(),
        forall|i: int| 0 <= i < a.len() ==> (#[trigger] a[i]).kind == b[i].kind,
    ensures
        count_kind(a, kind) == count_kind(b, kind),
    decreases a.len(),
{
    if a.len() > 0 {
        lemma_count_same_kinds(a.drop_last(), b.drop_last(), kind);
    }
}

/// Removing collected pickups keeps entities placed and confined, keeps the
/// counts of players and hazards and does not raise that of pickups.
proof fn lemma_uncollected_keeps(s: Seq<Entity>, p: Vec2, arena: Arena)
    requires
        all_placed(s),
        all_confined(s, arena),
    ensures
        all_placed(uncollected(s, p)),
        all_confined(uncollected(s, p), arena),
        count_kind(uncollected(s, p), EntityKind::Player) == count_kind(s, EntityKind::Player),
        count_kind(uncollected(s, p), EntityKind::Hazard) == count_kind(s, EntityKind::Hazard),
        count_kind(uncollected(s, p), EntityKind::Pickup) <= count_kind(s, EntityKind::Pickup),
    decreases s.len(),
{
    if s.len() > 0 {
        let d = s.drop_last();
        assert(all_placed(d)) by {
            assert forall|i: int| 0 <= i < d.len() implies placed(#[trigger] d[i]) by {
                assert(placed(s[i]));
            }
        }
        assert(all_confined(d, arena)) by {
            assert forall|i: int| 0 <= i < d.len() && (#[trigger] d[i]).kind != EntityKind::Pickup implies arena.holds(d[i].pos, radius_of(d[i].kind)) by {
                assert(s[i] == d[i]);
            }
        }
        lemma_uncollected_keeps(d, p, arena);
        let u = uncollected(d, p);
        if !collected_by(s.last(), p) {
            assert(placed(s[s.len() - 1]));
            let w = u.push(s.last());
            assert(w.drop_last() =~= u);
            assert(all_placed(w)) by {
                assert forall|i: int| 0 <= i < w.len() implies placed(#[trigger] w[i]) by {
                    if i < u.len() {
                        assert(w[i] == u[i]);
                    }
                }
            }
            assert(all_confined(w, arena)) by {
                assert forall|i: int| 0 <= i < w.len() && (#[trigger] w[i]).kind != EntityKind::Pickup implies arena.holds(w[i].pos, radius_of(w[i].kind)) by {
                    if i < u.len() {
                        assert(w[i] == u[i]);
                    } else {
                        assert(w[i] == s[s.len() - 1]);
                    }
                }
            }
        }
    }
}

/// A spawn keeps the entities placed and confined and the counts of the
/// other kinds.
proof fn lemma_spawn_keeps(
    s: Seq<Entity>,
    t: Seq<Entity>,
    r: Option<u64>,
    kind: EntityKind,
    arena: Arena,
    rolls: SpawnRolls,
)
    requires
        all_placed(s),
        all_confined(s, arena),
        arena.wf(),
        kind != EntityKind::Player,
        r.is_none() ==> t == s,
        r.is_some() ==> t == s.push(spawned(r.unwrap(), kind, arena, rolls)),
    ensures
        all_placed(t),
        all_confined(t, arena),
        forall|k: EntityKind| k != kind ==> count_kind(t, k) == count_kind(s, k),
{
    if r.is_some() {
        let e = spawned(r.unwrap(), kind, arena, rolls);
        crate::spawn::lemma_heading_unit(rolls.heading);
        assert(arena.holds(e.pos, radius_of(kind)));
        assert forall|i: int| 0 <= i < t.len() implies placed(#[trigger] t[i]) by {
            if i < s.len() {
                assert(t[i] == s[i]);
            }
        }
        assert forall|k: EntityKind| k != kind implies count_kind(t, k) == count_kind(s, k) by {
            lemma_count_push(s, e, k);
        }
    }
}

} // verus!

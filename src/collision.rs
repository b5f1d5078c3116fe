use vstd::prelude::*;
use crate::entity::{Entity, EntityKind, EntityStore, count_kind, PLAYER_RADIUS, HAZARD_RADIUS, PICKUP_RADIUS};
use crate::geometry::{Vec2, POS_LIMIT, circles_overlap, overlaps};

verus! {

/// Raised when a hazard hits the player; carries the score at that moment.
#[derive(Clone, Copy, Debug, PartialEq, Eq, Structural)]
pub struct GameOverEvent {
    pub score: u32,
}

/// The hazard `e` touches a player standing at `p`.
pub open spec fn hits_player(e: Entity, p: Vec2) -> bool {
    e.kind == EntityKind::Hazard && overlaps(p, PLAYER_RADIUS as int, e.pos, HAZARD_RADIUS as int)
}

/// The pickup `e` is collected by a player standing at `p`.
pub open spec fn collected_by(e: Entity, p: Vec2) -> bool {
    e.kind == EntityKind::Pickup && overlaps(p, PLAYER_RADIUS as int, e.pos, PICKUP_RADIUS as int)
}

/// Some hazard of `s` touches a player standing at `p`.
pub open spec fn hazard_hit(s: Seq<Entity>, p: Vec2) -> bool {
    exists|i: int| 0 <= i < s.len() && hits_player(#[trigger] s[i], p)
}

/// `s` without the pickups that a player at `p` collects, order kept.
pub open spec fn uncollected(s: Seq<Entity>, p: Vec2) -> Seq<Entity>
    decreases s.len(),
{
    if s.len() == 0 {
        Seq::empty()
    } else if collected_by(s.last(), p) {
        uncollected(s.drop_last(), p)
    } else {
        uncollected(s.drop_last(), p).push(s.last())
    }
}

/// Number of pickups of `s` that a player at `p` collects.
pub open spec fn collected_count(s: Seq<Entity>, p: Vec2) -> nat
    decreases s.len(),
{
    if s.len() == 0 {
        0
    } else {
        collected_count(s.drop_last(), p) + if collected_by(s.last(), p) {
            1nat
        } else {
            0nat
        }
    }
}

/// `a + k`, held at the largest `u32`.
pub open spec fn add_capped(a: u32, k: nat) -> u32 {
    if a + k > u32::MAX {
        u32::MAX
    } else {
        (a + k) as u32
    }
}

/// Every position of `s` is small enough for exact distance tests.
pub open spec fn positions_bounded(s: Seq<Entity>) -> bool {
    forall|i: int| 0 <= i < s.len() ==> (#[trigger] s[i]).pos.within(POS_LIMIT as int)
}

/// Position of the first hazard of the store that touches a player at `p`.
pub fn first_hazard_hit(store: &EntityStore, p: Vec2) -> (r: Option<usize>)
    requires
        positions_bounded(store@),
        p.within(POS_LIMIT as int),
    ensures
        r.is_some() <==> hazard_hit(store@, p),
        r.is_some() ==> r.unwrap() < store@.len() && hits_player(store@[r.unwrap() as int], p)
            && forall|k: int| 0 <= k < r.unwrap() ==> !hits_player(#[trigger] store@[k], p),
{
    let n = store.len();
    let mut i: usize = 0;
    while i < n
        invariant
            n == store@.len(),
            i <= n,
            positions_bounded(store@),
            p.within(POS_LIMIT as int),
            forall|k: int| 0 <= k < i ==> !hits_player(#[trigger] store@[k], p),
        decreases n - i,
    {
        let e = store.get(i);
        assert(e.pos.within(POS_LIMIT as int));
        if e.kind == EntityKind::Hazard && circles_overlap(p, PLAYER_RADIUS, e.pos, HAZARD_RADIUS) {
            return Some(i);
        }
        i = i + 1;
    }
    None
}

/// Removes every pickup that a player at `p` collects; answers how many.
/// Nothing else changes and the remaining entities keep their order.
pub fn collect_pickups(store: &mut EntityStore, p: Vec2) -> (n: usize)
    requires
        old(store).wf(),
        positions_bounded(old(store)@),
        p.within(POS_LIMIT as int),
    ensures
        final(store).wf(),
        final(store).next_id() == old(store).next_id(),
        final(store)@ == uncollected(old(store)@, p),
        n == collected_count(old(store)@, p),
{
    let ghost s0 = store@;
    let mut i: usize = 0;
    let mut n: usize = 0;
    let ghost mut k: int = 0;
    let total = store.len();
    while i < store.len()
        invariant
            s0.len() == total,
            store.wf(),
            store.next_id() == old(store).next_id(),
            s0 == old(store)@,
            positions_bounded(s0),
            p.within(POS_LIMIT as int),
            0 <= k <= s0.len(),
            store@ == uncollected(s0.take(k), p) + s0.skip(k),
            i == uncollected(s0.take(k), p).len(),
            n == collected_count(s0.take(k), p),
            n <= k,
        decreases s0.len() - k,
    {
        proof {
            lemma_uncollected_len(s0.take(k), p);
            assert(store@.len() == i + (s0.len() - k));
            assert(k < s0.len());
            assert(store@[i as int] == s0[k]);
            assert(s0.take(k + 1).drop_last() =~= s0.take(k));
        }
        let e = store.get(i);
        assert(e.pos.within(POS_LIMIT as int));
        if e.kind == EntityKind::Pickup && circles_overlap(p, PLAYER_RADIUS, e.pos, PICKUP_RADIUS) {
            let ghost before = store@;
            store.remove_at(i);
            proof {
                assert(store@ =~= uncollected(s0.take(k + 1), p) + s0.skip(k + 1));
            }
            n = n + 1;
        } else {
            proof {
                assert(uncollected(s0.take(k + 1), p) + s0.skip(k + 1) =~= store@);
            }
            i = i + 1;
        }
        proof {
            k = k + 1;
        }
    }
    proof {
        lemma_uncollected_len(s0.take(k), p);
        assert(k == s0.len());
        assert(s0.take(k) =~= s0);
        assert(store@ =~= uncollected(s0, p));
    }
    n
}

proof fn lemma_uncollected_len(s: Seq<Entity>, p: Vec2)
    ensures
        uncollected(s, p).len() + collected_count(s, p) == s.len(),
    decreases s.len(),
{
    if s.len() > 0 {
        lemma_uncollected_len(s.drop_last(), p);
    }
}

/// The collision system. Without a player nothing happens. When some hazard
/// touches the player (the first one in store order is taken), the player is
/// removed and a game-over event with the current score is raised; pickups
/// are then not looked at. Otherwise every pickup the player touches is
/// removed and the score rises by one for each (held at the largest `u32`).
pub fn collision_system(store: &mut EntityStore, score: &mut u32) -> (event: Option<GameOverEvent>)
    requires
        old(store).wf(),
        positions_bounded(old(store)@),
    ensures
        final(store).wf(),
        final(store).next_id() == old(store).next_id(),
        count_kind(old(store)@, EntityKind::Player) == 0 ==> event.is_none() && final(store)@
            == old(store)@ && *final(score) == *old(score),
        forall|pi: int|
            0 <= pi < old(store)@.len() && #[trigger] old(store)@[pi].kind == EntityKind::Player
                ==> {
                let p = old(store)@[pi].pos;
                &&& event.is_some() == hazard_hit(old(store)@, p)
                &&& event.is_some() ==> event.unwrap().score == *old(score) && *final(score)
                    == *old(score) && final(store)@ == old(store)@.remove(pi)
                &&& event.is_none() ==> final(store)@ == uncollected(old(store)@, p)
                    && *final(score) == add_capped(*old(score), collected_count(old(store)@, p))
            },
{
    match store.first_of(EntityKind::Player) {
        None => None,
        Some(pi) => {
            let ghost s0 = store@;
            let p = store.get(pi).pos;
            assert(p.within(POS_LIMIT as int));
            proof {
                store.lemma_at_most_one_player();
                crate::entity::lemma_single_player(s0, pi as int);
            }
            match first_hazard_hit(store, p) {
                Some(_) => {
                    store.remove_at(pi);
                    assert(hazard_hit(s0, p));
                    Some(GameOverEvent { score: *score })
                },
                None => {
                    let n = collect_pickups(store, p);
                    let add: u32 = if n > u32::MAX as usize {
                        u32::MAX
                    } else {
                        n as u32
                    };
                    *score = score.saturating_add(add);
                    assert(*score == add_capped(*old(score), collected_count(s0, p)));
                    assert(!hazard_hit(s0, p));
                    None
                },
            }
        },
    }
}

} // verus!

use vstd::prelude::*;
use crate::geometry::{Vec2, PIXEL};

verus! {

/// What an entity is.
#[derive(Clone, Copy, Debug, PartialEq, Eq, Structural)]
pub enum EntityKind {
    Player,
    Hazard,
    Pickup,
}

/// Radius of the player's circle: half its 64-pixel sprite.
pub const PLAYER_RADIUS: i64 = 32 * PIXEL;

/// Radius of a hazard's circle: half its 64-pixel sprite.
pub const HAZARD_RADIUS: i64 = 32 * PIXEL;

/// Radius of a pickup's circle: half its 30-pixel sprite.
pub const PICKUP_RADIUS: i64 = 15 * PIXEL;

pub open spec fn radius_of(kind: EntityKind) -> int {
    match kind {
        EntityKind::Player => PLAYER_RADIUS as int,
        EntityKind::Hazard => HAZARD_RADIUS as int,
        EntityKind::Pickup => PICKUP_RADIUS as int,
    }
}

impl EntityKind {
    /// The fixed radius of entities of this kind.
    pub fn radius(&self) -> (r: i64)
        ensures
            r == radius_of(*self),
    {
        match self {
            EntityKind::Player => PLAYER_RADIUS,
            EntityKind::Hazard => HAZARD_RADIUS,
            EntityKind::Pickup => PICKUP_RADIUS,
        }
    }
}

/// One simulated entity. `direction` and `speed` matter for hazards only.
#[derive(Clone, Copy, Debug, PartialEq, Eq, Structural)]
pub struct Entity {
    pub id: u64,
    pub kind: EntityKind,
    pub pos: Vec2,
    pub direction: Vec2,
    pub speed: u32,
}

/// Whether some entity of `s` carries `id`.
pub open spec fn has_id(s: Seq<Entity>, id: u64) -> bool {
    exists|i: int| 0 <= i < s.len() && #[trigger] s[i].id == id
}

/// Number of entities of `kind` in `s`.
pub open spec fn count_kind(s: Seq<Entity>, kind: EntityKind) -> nat
    decreases s.len(),
{
    if s.len() == 0 {
        0
    } else {
        count_kind(s.drop_last(), kind) + if s.last().kind == kind {
            1nat
        } else {
            0nat
        }
    }
}

/// The entities of `kind` in `s`, in store order.
pub open spec fn of_kind(s: Seq<Entity>, kind: EntityKind) -> Seq<Entity>
    decreases s.len(),
{
    if s.len() == 0 {
        Seq::empty()
    } else if s.last().kind == kind {
        of_kind(s.drop_last(), kind).push(s.last())
    } else {
        of_kind(s.drop_last(), kind)
    }
}

/// Owns every live entity, in creation order, under unique identifiers.
pub struct EntityStore {
    entities: Vec<Entity>,
    next_id: u64,
}

impl View for EntityStore {
    type V = Seq<Entity>;

    closed spec fn view(&self) -> Seq<Entity> {
        self.entities@
    }
}

impl EntityStore {
    /// The identifier that the next created entity receives.
    pub closed spec fn next_id(&self) -> nat {
        self.next_id as nat
    }

    /// Identifiers are unique and below `next_id`; at most one player lives.
    pub closed spec fn wf(&self) -> bool {
        &&& forall|i: int, j: int|
            0 <= i < j < self.entities@.len() ==> #[trigger] self.entities@[i].id
                != #[trigger] self.entities@[j].id
        &&& forall|i: int|
            0 <= i < self.entities@.len() ==> #[trigger] self.entities@[i].id < self.next_id
        &&& count_kind(self.entities@, EntityKind::Player) <= 1
    }

    /// A well-formed store holds at most one player.
    pub proof fn lemma_at_most_one_player(&self)
        requires
            self.wf(),
        ensures
            count_kind(self@, EntityKind::Player) <= 1,
    {
    }

    /// Whether `n` more entities can still be given fresh identifiers.
    pub open spec fn has_room(&self, n: nat) -> bool {
        self.next_id() + n <= u64::MAX
    }

    pub fn new() -> (r: EntityStore)
        ensures
            r.wf(),
            r@ == Seq::<Entity>::empty(),
            r.next_id() == 0,
    {
        EntityStore { entities: Vec::new(), next_id: 0 }
    }

    pub fn len(&self) -> (r: usize)
        ensures
            r == self@.len(),
    {
        self.entities.len()
    }

    /// How many identifiers are left to give out.
    pub fn ids_left(&self) -> (r: u64)
        ensures
            r == u64::MAX - self.next_id(),
    {
        u64::MAX - self.next_id
    }

    /// The entity at position `i` of the store order.
    pub fn get(&self, i: usize) -> (r: Entity)
        requires
            i < self@.len(),
        ensures
            r == self@[i as int],
    {
        self.entities[i]
    }

    /// Adds an entity under a fresh identifier and returns that identifier.
    pub fn create(&mut self, kind: EntityKind, pos: Vec2, direction: Vec2, speed: u32) -> (id: u64)
        requires
            old(self).wf(),
            old(self).has_room(1),
            kind == EntityKind::Player ==> count_kind(old(self)@, EntityKind::Player) == 0,
        ensures
            final(self).wf(),
            id == old(self).next_id(),
            !has_id(old(self)@, id),
            final(self).next_id() == old(self).next_id() + 1,
            final(self)@ == old(self)@.push(
                Entity { id, kind, pos, direction, speed },
            ),
    {
        let id = self.next_id;
        let e = Entity { id, kind, pos, direction, speed };
        let ghost s = self.entities@;
        self.entities.push(e);
        assert(self.entities@.drop_last() =~= s);
        self.next_id = self.next_id + 1;
        id
    }

    /// Position in store order of the entity with `id`, if one lives.
    pub fn find(&self, id: u64) -> (r: Option<usize>)
        ensures
            r.is_some() <==> has_id(self@, id),
            r.is_some() ==> r.unwrap() < self@.len() && self@[r.unwrap() as int].id == id,
    {
        let mut i: usize = 0;
        while i < self.entities.len()
            invariant
                i <= self.entities@.len(),
                forall|k: int| 0 <= k < i ==> #[trigger] self.entities@[k].id != id,
            decreases self.entities@.len() - i,
        {
            if self.entities[i].id == id {
                return Some(i);
            }
            i = i + 1;
        }
        None
    }

    /// Removes the entity at position `i`; the others keep their order.
    pub fn remove_at(&mut self, i: usize) -> (e: Entity)
        requires
            old(self).wf(),
            i < old(self)@.len(),
        ensures
            final(self).wf(),
            e == old(self)@[i as int],
            final(self)@ == old(self)@.remove(i as int),
            final(self).next_id() == old(self).next_id(),
            !has_id(final(self)@, e.id),
    {
        let ghost s = self.entities@;
        let e = self.entities.remove(i);
        proof {
            lemma_count_remove(s, i as int, EntityKind::Player);
        }
        e
    }

    /// Removes the entity with `id`. Answers whether one was there; an
    /// absent identifier leaves the store as it was.
    pub fn remove(&mut self, id: u64) -> (r: bool)
        requires
            old(self).wf(),
        ensures
            final(self).wf(),
            r == has_id(old(self)@, id),
            !has_id(final(self)@, id),
            final(self).next_id() == old(self).next_id(),
            r ==> exists|i: int|
                0 <= i < old(self)@.len() && old(self)@[i].id == id && final(self)@ == old(
                    self,
                )@.remove(i),
            !r ==> final(self)@ == old(self)@,
    {
        match self.find(id) {
            Some(i) => {
                self.remove_at(i);
                true
            },
            None => false,
        }
    }

    /// Replaces position and direction of the entity at `i`.
    pub fn set_motion(&mut self, i: usize, pos: Vec2, direction: Vec2)
        requires
            old(self).wf(),
            i < old(self)@.len(),
        ensures
            final(self).wf(),
            final(self).next_id() == old(self).next_id(),
            final(self)@ == old(self)@.update(
                i as int,
                Entity { pos, direction, ..old(self)@[i as int] },
            ),
    {
        let ghost s = self.entities@;
        let mut e = self.entities[i];
        e.pos = pos;
        e.direction = direction;
        self.entities.set(i, e);
        proof {
            lemma_count_update(s, i as int, e, EntityKind::Player);
        }
    }

    /// Removes every entity. Identifiers already given out are not reused.
    pub fn clear(&mut self)
        requires
            old(self).wf(),
        ensures
            final(self).wf(),
            final(self)@ == Seq::<Entity>::empty(),
            final(self).next_id() == old(self).next_id(),
    {
        self.entities.clear();
    }

    /// Position in store order of the first entity of `kind`, if any.
    pub fn first_of(&self, kind: EntityKind) -> (r: Option<usize>)
        ensures
            r.is_some() <==> count_kind(self@, kind) > 0,
            r.is_none() ==> forall|k: int| 0 <= k < self@.len() ==> #[trigger] self@[k].kind != kind,
            r.is_some() ==> r.unwrap() < self@.len() && self@[r.unwrap() as int].kind == kind
                && forall|k: int| 0 <= k < r.unwrap() ==> #[trigger] self@[k].kind != kind,
    {
        let mut i: usize = 0;
        while i < self.entities.len()
            invariant
                i <= self.entities@.len(),
                forall|k: int| 0 <= k < i ==> #[trigger] self.entities@[k].kind != kind,
            decreases self.entities@.len() - i,
        {
            if self.entities[i].kind == kind {
                proof {
                    lemma_count_remove(self.entities@, i as int, kind);
                }
                return Some(i);
            }
            i = i + 1;
        }
        proof {
            lemma_count_zero(self.entities@, kind);
        }
        None
    }

    /// Number of live entities of `kind`.
    pub fn count(&self, kind: EntityKind) -> (r: usize)
        ensures
            r == count_kind(self@, kind),
    {
        let mut n: usize = 0;
        let mut i: usize = 0;
        while i < self.entities.len()
            invariant
                i <= self.entities@.len(),
                n == count_kind(self.entities@.take(i as int), kind),
                n <= i,
            decreases self.entities@.len() - i,
        {
            assert(self.entities@.take(i + 1).drop_last() =~= self.entities@.take(i as int));
            if self.entities[i].kind == kind {
                n = n + 1;
            }
            i = i + 1;
        }
        assert(self.entities@.take(i as int) =~= self.entities@);
        n
    }

    /// Identifiers and positions of the live entities of `kind`, in store order.
    pub fn positions_of(&self, kind: EntityKind) -> (r: Vec<(u64, Vec2)>)
        ensures
            r@.len() == of_kind(self@, kind).len(),
            forall|k: int|
                0 <= k < r@.len() ==> #[trigger] r@[k] == (
                    of_kind(self@, kind)[k].id,
                    of_kind(self@, kind)[k].pos,
                ),
    {
        let mut out: Vec<(u64, Vec2)> = Vec::new();
        let mut i: usize = 0;
        while i < self.entities.len()
            invariant
                i <= self.entities@.len(),
                out@.len() == of_kind(self.entities@.take(i as int), kind).len(),
                forall|k: int|
                    0 <= k < out@.len() ==> #[trigger] out@[k] == (
                        of_kind(self.entities@.take(i as int), kind)[k].id,
                        of_kind(self.entities@.take(i as int), kind)[k].pos,
                    ),
            decreases self.entities@.len() - i,
        {
            let e = self.entities[i];
            assert(self.entities@.take(i + 1).drop_last() =~= self.entities@.take(i as int));
            if e.kind == kind {
                out.push((e.id, e.pos));
            }
            i = i + 1;
        }
        assert(self.entities@.take(i as int) =~= self.entities@);
        out
    }
}

/// A sequence with no entity of `kind` counts none of it.
proof fn lemma_count_zero(s: Seq<Entity>, kind: EntityKind)
    requires
        forall|k: int| 0 <= k < s.len() ==> #[trigger] s[k].kind != kind,
    ensures
        count_kind(s, kind) == 0,
    decreases s.len(),
{
    if s.len() > 0 {
        lemma_count_zero(s.drop_last(), kind);
    }
}

/// Removing an element lowers the count of its kind by one.
pub proof fn lemma_count_remove(s: Seq<Entity>, i: int, kind: EntityKind)
    requires
        0 <= i < s.len(),
    ensures
        count_kind(s.remove(i), kind) + (if s[i].kind == kind {
            1nat
        } else {
            0nat
        }) == count_kind(s, kind),
    decreases s.len(),
{
    if i < s.len() - 1 {
        lemma_count_remove(s.drop_last(), i, kind);
        assert(s.remove(i).drop_last() =~= s.drop_last().remove(i));
        assert(s.remove(i).last() == s.last());
    } else {
        assert(s.remove(i) =~= s.drop_last());
    }
}

/// A positive count of `kind` has a witness.
pub proof fn lemma_count_positive(s: Seq<Entity>, kind: EntityKind)
    requires
        count_kind(s, kind) > 0,
    ensures
        exists|i: int| 0 <= i < s.len() && (#[trigger] s[i]).kind == kind,
    decreases s.len(),
{
    if s.last().kind != kind {
        lemma_count_positive(s.drop_last(), kind);
        let i = choose|i: int| 0 <= i < s.drop_last().len() && (#[trigger] s.drop_last()[i]).kind == kind;
        assert(s[i] == s.drop_last()[i]);
    } else {
        assert(s[s.len() - 1].kind == kind);
    }
}

/// In a store with at most one player, a player found at `i` is the only one.
pub proof fn lemma_single_player(s: Seq<Entity>, i: int)
    requires
        0 <= i < s.len(),
        s[i].kind == EntityKind::Player,
        count_kind(s, EntityKind::Player) <= 1,
    ensures
        forall|j: int| 0 <= j < s.len() && #[trigger] s[j].kind == EntityKind::Player ==> j == i,
{
    assert forall|j: int| 0 <= j < s.len() && #[trigger] s[j].kind == EntityKind::Player implies j
        == i by {
        if j != i {
            lemma_count_remove(s, i, EntityKind::Player);
            let t = s.remove(i);
            let j2 = if j < i {
                j
            } else {
                j - 1
            };
            assert(t[j2] == s[j]);
            lemma_count_remove(t, j2, EntityKind::Player);
        }
    }
}

/// Replacing an element by one of the same kind keeps every count.
pub proof fn lemma_count_update(s: Seq<Entity>, i: int, e: Entity, kind: EntityKind)
    requires
        0 <= i < s.len(),
        e.kind == s[i].kind,
    ensures
        count_kind(s.update(i, e), kind) == count_kind(s, kind),
    decreases s.len(),
{
    if i < s.len() - 1 {
        lemma_count_update(s.drop_last(), i, e, kind);
        assert(s.update(i, e).drop_last() =~= s.drop_last().update(i, e));
    } else {
        assert(s.update(i, e).drop_last() =~= s.drop_last());
    }
}

/// Appending an element raises the count of its kind by one.
pub proof fn lemma_count_push(s: Seq<Entity>, e: Entity, kind: EntityKind)
    ensures
        count_kind(s.push(e), kind) == count_kind(s, kind) + (if e.kind == kind {
            1nat
        } else {
            0nat
        }),
{
    assert(s.push(e).drop_last() =~= s);
}

} // verus!

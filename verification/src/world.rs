use vstd::prelude::*;

use crate::entity::Entity;

verus! {

/// One arena slot: the generation most recently issued at this slot, and
/// whether an entity is currently alive there.
#[derive(Clone, Copy, PartialEq, Eq, Debug, Structural)]
pub struct Slot {
    /// The generation of the most recent identifier issued at this slot.
    pub generation: u32,
    /// Whether an entity currently occupies this slot.
    pub live: bool,
}

/// The number of live slots in a sequence of slots.
pub open spec fn live_slots(s: Seq<Slot>) -> nat
    decreases s.len(),
{
    if s.len() == 0 {
        0
    } else {
        live_slots(s.drop_last()) + if s.last().live {
            1nat
        } else {
            0
        }
    }
}

proof fn lemma_live_slots_push(s: Seq<Slot>, v: Slot)
    ensures
        live_slots(s.push(v)) == live_slots(s) + if v.live {
            1nat
        } else {
            0
        },
{
    assert(s.push(v).drop_last() =~= s);
    assert(s.push(v).last() == v);
}

proof fn lemma_live_slots_update(s: Seq<Slot>, i: int, v: Slot)
    requires
        0 <= i < s.len(),
    ensures
        live_slots(s.update(i, v)) + if s[i].live {
            1nat
        } else {
            0
        } == live_slots(s) + if v.live {
            1nat
        } else {
            0
        },
    decreases s.len(),
{
    let t = s.update(i, v);
    if i == s.len() - 1 {
        assert(t.drop_last() =~= s.drop_last());
        assert(t.last() == v);
    } else {
        assert(t.drop_last() =~= s.drop_last().update(i, v));
        lemma_live_slots_update(s.drop_last(), i, v);
        assert(t.last() == s.last());
    }
}

/// A minimal generational arena: the external collaborator that placeholder
/// allocation reconciles against. Each slot remembers the most recent
/// generation issued at it; a freshly spawned entity at a reused slot is
/// always given a generation strictly greater than every generation
/// previously issued there. That monotonicity is the load-bearing guarantee
/// the mapper's placeholder allocation relies on.
pub struct World {
    slots: Vec<Slot>,
}

impl World {
    /// The arena's slots, one per index ever used.
    pub closed spec fn slots_seq(&self) -> Seq<Slot> {
        self.slots@
    }

    /// How many slot indices the arena has ever issued.
    pub open spec fn slot_count(&self) -> nat {
        self.slots_seq().len()
    }

    /// The generation most recently issued at slot `i`.
    pub open spec fn gen_at(&self, i: int) -> u32 {
        self.slots_seq()[i].generation
    }

    /// Whether slot `i` currently holds a live entity.
    pub open spec fn live_at(&self, i: int) -> bool {
        0 <= i < self.slot_count() && self.slots_seq()[i].live
    }

    /// Whether `id` is the most recent identifier issued at its slot.
    pub open spec fn contains(&self, id: Entity) -> bool {
        id.index < self.slot_count() && self.gen_at(id.index as int) == id.generation
    }

    /// Whether `id` denotes a currently live entity.
    pub open spec fn is_live(&self, id: Entity) -> bool {
        self.contains(id) && self.live_at(id.index as int)
    }

    /// The number of live entities in the arena.
    pub open spec fn live_count(&self) -> nat {
        live_slots(self.slots_seq())
    }

    /// Creates an empty arena with no slots.
    pub fn new() -> (w: World)
        ensures
            w.slot_count() == 0,
            w.live_count() == 0,
    {
        World { slots: Vec::new() }
    }

    /// Creates a new live, empty entity and returns its identifier.
    ///
    /// A reused slot yields a generation strictly greater than the one
    /// stored there; a fresh slot starts at generation zero.
    pub fn spawn_empty(&mut self) -> (id: Entity)
        requires
            old(self).slot_count() < u32::MAX,
        ensures
            spawn_post(*old(self), *final(self), id),
    {
        let n = self.slots.len();
        let mut i: usize = 0;
        while i < n
            invariant
                *self == *old(self),
                n == self.slots.len(),
                n < u32::MAX,
                i <= n,
                forall|j: int|
                    0 <= j < i ==> self.slots@[j].live || self.slots@[j].generation == u32::MAX,
            decreases n - i,
        {
            let slot = self.slots[i];
            if !slot.live && slot.generation < u32::MAX {
                let g = slot.generation + 1;
                self.slots.set(i, Slot { generation: g, live: true });
                proof {
                    lemma_live_slots_update(
                        old(self).slots_seq(),
                        i as int,
                        Slot { generation: g, live: true },
                    );
                }
                return Entity { index: i as u32, generation: g };
            }
            i += 1;
        }
        self.slots.push(Slot { generation: 0, live: true });
        proof {
            lemma_live_slots_push(old(self).slots_seq(), Slot { generation: 0, live: true });
        }
        Entity { index: n as u32, generation: 0 }
    }

    /// Marks `id`'s slot as not live. Returns whether `id` was live
    /// immediately before the call; on `false` the arena is unchanged.
    pub fn despawn(&mut self, id: Entity) -> (ok: bool)
        ensures
            despawn_post(*old(self), *final(self), id, ok),
    {
        let i = id.index as usize;
        if i < self.slots.len() && self.slots[i].live && self.slots[i].generation == id.generation {
            self.slots.set(i, Slot { generation: id.generation, live: false });
            proof {
                lemma_live_slots_update(
                    old(self).slots_seq(),
                    i as int,
                    Slot { generation: id.generation, live: false },
                );
            }
            true
        } else {
            false
        }
    }

    /// Advances the generation stored at `id`'s slot by `count` and leaves
    /// the slot not live, provided `id` is the most recent identifier known
    /// at that slot. Returns `false`, changing nothing, if the slot's
    /// identity has diverged.
    pub fn try_reserve_generations(&mut self, id: Entity, count: u32) -> (ok: bool)
        requires
            id.generation + count <= u32::MAX,
        ensures
            reserve_post(*old(self), *final(self), id, count, ok),
    {
        let i = id.index as usize;
        if i < self.slots.len() && self.slots[i].generation == id.generation {
            self.slots.set(i, Slot { generation: id.generation + count, live: false });
            proof {
                lemma_live_slots_update(
                    old(self).slots_seq(),
                    i as int,
                    Slot { generation: (id.generation + count) as u32, live: false },
                );
            }
            true
        } else {
            false
        }
    }

    /// Returns the number of live entities in the arena.
    pub fn entity_count(&self) -> (n: usize)
        ensures
            n == self.live_count(),
    {
        let mut c: usize = 0;
        let mut i: usize = 0;
        while i < self.slots.len()
            invariant
                i <= self.slots@.len(),
                c == live_slots(self.slots@.take(i as int)),
                c <= i,
            decreases self.slots@.len() - i,
        {
            proof {
                assert(self.slots@.take(i + 1).drop_last() =~= self.slots@.take(i as int));
                assert(self.slots@.take(i + 1).last() == self.slots@[i as int]);
            }
            if self.slots[i].live {
                c = c + 1;
            }
            i += 1;
        }
        proof {
            assert(self.slots@.take(self.slots@.len() as int) =~= self.slots@);
        }
        c
    }

    /// Returns whether `id` denotes a currently live entity.
    pub fn is_alive(&self, id: Entity) -> (b: bool)
        ensures
            b == self.is_live(id),
    {
        let i = id.index as usize;
        i < self.slots.len() && self.slots[i].live && self.slots[i].generation == id.generation
    }
}

impl Default for World {
    /// Creates an empty arena with no slots.
    fn default() -> (w: World)
        ensures
            w.slot_count() == 0,
            w.live_count() == 0,
    {
        World::new()
    }
}

/// How one `spawn_empty` call relates the arena before it, the arena after
/// it, and the identifier it returned: the identifier is live and current
/// afterwards, it either reuses a dead slot at a strictly greater generation
/// or opens a fresh slot at generation zero, every other slot is untouched,
/// and the live count grows by one.
pub open spec fn spawn_post(pre: World, post: World, id: Entity) -> bool {
    &&& post.is_live(id)
    &&& {
        ||| {
            &&& id.index == pre.slot_count()
            &&& id.generation == 0
            &&& post.slot_count() == pre.slot_count() + 1
        }
        ||| {
            &&& id.index < pre.slot_count()
            &&& !pre.live_at(id.index as int)
            &&& id.generation == pre.gen_at(id.index as int) + 1
            &&& post.slot_count() == pre.slot_count()
        }
    }
    &&& forall|j: int|
        0 <= j < pre.slot_count() && j != id.index ==> post.slots_seq()[j] == pre.slots_seq()[j]
    &&& post.live_count() == pre.live_count() + 1
}

/// How one `despawn` call relates the arenas before and after it and its
/// result: on success exactly `id`'s slot is made dead at an unchanged
/// generation; on failure nothing changes.
pub open spec fn despawn_post(pre: World, post: World, id: Entity, ok: bool) -> bool {
    &&& ok == pre.is_live(id)
    &&& if ok {
        &&& post.slots_seq() == pre.slots_seq().update(
            id.index as int,
            Slot { generation: id.generation, live: false },
        )
        &&& post.live_count() + 1 == pre.live_count()
    } else {
        post == pre
    }
}

/// How one `try_reserve_generations` call relates the arenas before and
/// after it and its result: on success exactly `id`'s slot is left dead with
/// its stored generation advanced by `count`; on failure nothing changes.
pub open spec fn reserve_post(pre: World, post: World, id: Entity, count: u32, ok: bool) -> bool {
    &&& ok == pre.contains(id)
    &&& if ok {
        &&& post.slots_seq() == pre.slots_seq().update(
            id.index as int,
            Slot { generation: (id.generation + count) as u32, live: false },
        )
        &&& post.live_count() + if pre.live_at(id.index as int) {
            1nat
        } else {
            0
        } == pre.live_count()
    } else {
        post == pre
    }
}

} // verus!

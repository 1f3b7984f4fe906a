use vstd::prelude::*;

use crate::entity::Entity;
use crate::map_entities::EntityMapper;
use crate::map_entities::MapEntitiesError;
use crate::map_entities::alloc_post;
use crate::map_entities::close_post;
use crate::map_entities::lookup;
use crate::map_entities::open_post;
use crate::map_entities::placeholder;
use crate::world::World;
use crate::world::despawn_post;
use crate::world::reserve_post;
use crate::world::spawn_post;

verus! {

/// Idempotent lookup: a foreign identifier that maps to local value `l`
/// is returned by every strict lookup. The lookup is a function of the
/// table contents and the key alone, and `get` never mutates, so repeated
/// calls keep returning `l`.
pub proof fn lemma_lookup_idempotent(m: Map<Entity, Entity>, f: Entity, l: Entity)
    requires
        m.contains_pair(f, l),
    ensures
        lookup(m, f) == Ok::<Entity, MapEntitiesError>(l),
{
}

/// Allocating idempotence within a session: calling `get_or_alloc` twice
/// on the same unmapped identifier returns the same value both times, and
/// the table's size increases by exactly one, not two.
pub proof fn lemma_alloc_idempotent(
    m0: EntityMapper,
    m1: EntityMapper,
    m2: EntityMapper,
    f: Entity,
    r1: Entity,
    r2: Entity,
)
    requires
        !m0@.dom().contains(f),
        m0@.dom().finite(),
        alloc_post(m0, m1, f, r1),
        alloc_post(m1, m2, f, r2),
    ensures
        r2 == r1,
        m2@ == m1@,
        m1@.dom().len() == m0@.dom().len() + 1,
        m2@.dom().len() == m0@.dom().len() + 1,
{
    assert(m1@.dom() =~= m0@.dom().insert(f));
}

/// Placeholder disjointness: the `k` identifiers a session with base
/// `base` mints are pairwise distinct, all share the base's slot index,
/// and their generations form the contiguous ascending run that starts at
/// the base's generation.
pub proof fn lemma_placeholder_disjoint(base: Entity, k: u32)
    requires
        base.generation + k <= u32::MAX,
    ensures
        forall|i: u32, j: u32|
            i < k && j < k && i != j ==> placeholder(base, i) != placeholder(base, j),
        forall|j: u32| j < k ==> (#[trigger] placeholder(base, j)).index == base.index,
        forall|j: u32| j < k ==> (#[trigger] placeholder(base, j)).generation == base.generation + j,
{
}

/// Stored generations never recede under a spawn: the touched slot moves
/// strictly upwards and every other slot is unchanged.
pub proof fn lemma_spawn_monotonic(pre: World, post: World, id: Entity)
    requires
        spawn_post(pre, post, id),
    ensures
        post.slot_count() >= pre.slot_count(),
        forall|j: int| 0 <= j < pre.slot_count() ==> post.gen_at(j) >= pre.gen_at(j),
{
}

/// Stored generations never recede under a despawn, which touches only
/// liveness.
pub proof fn lemma_despawn_monotonic(pre: World, post: World, id: Entity, ok: bool)
    requires
        despawn_post(pre, post, id, ok),
    ensures
        post.slot_count() == pre.slot_count(),
        forall|j: int| 0 <= j < pre.slot_count() ==> post.gen_at(j) >= pre.gen_at(j),
{
}

/// Stored generations never recede under a generation reservation.
pub proof fn lemma_reserve_monotonic(pre: World, post: World, id: Entity, count: u32, ok: bool)
    requires
        id.generation + count <= u32::MAX,
        reserve_post(pre, post, id, count, ok),
    ensures
        post.slot_count() == pre.slot_count(),
        forall|j: int| 0 <= j < pre.slot_count() ==> post.gen_at(j) >= pre.gen_at(j),
{
}

/// No live collision: consider a session that minted `k > 0` placeholders
/// from base `base` and was closed, so the base slot's stored generation
/// reached `base.generation + k`. In any arena state whose stored
/// generations have not receded since — and arena operations never let
/// them recede — a spawn returns an identifier that is none of the `k`
/// minted placeholders, and whose generation, if it shares their slot,
/// lies strictly above the whole minted run.
pub proof fn lemma_no_live_collision(base: Entity, k: u32, w: World, post: World, id: Entity)
    requires
        k > 0,
        base.generation + k <= u32::MAX,
        base.index < w.slot_count(),
        w.gen_at(base.index as int) >= base.generation + k,
        spawn_post(w, post, id),
    ensures
        forall|j: u32| j < k ==> id != placeholder(base, j),
        id.index == base.index ==> id.generation >= base.generation + k,
{
}

/// Zero-allocation cleanup: a session that mints no placeholder leaves
/// the arena's live entity count unchanged once it closes — the temporary
/// base entity's spawn and despawn cancel out.
pub proof fn lemma_zero_alloc_cleanup(
    table: Map<Entity, Entity>,
    w0: World,
    w1: World,
    m: EntityMapper,
    w2: World,
)
    requires
        open_post(table, w0, w1, m),
        close_post(m.base(), 0, w1, w2),
    ensures
        w2.live_count() == w0.live_count(),
{
}

/// Missing-key failure: a strict lookup of a key never inserted fails
/// with `EntityNotFound` carrying that exact key, and removing such a key
/// changes nothing.
pub proof fn lemma_missing_key(m: Map<Entity, Entity>, f: Entity)
    requires
        !m.dom().contains(f),
    ensures
        lookup(m, f) == Err::<Entity, MapEntitiesError>(MapEntitiesError::EntityNotFound(f)),
        m.remove(f) == m,
{
    assert(m.remove(f) =~= m);
}

} // verus!

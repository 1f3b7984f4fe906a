use vstd::prelude::*;

use crate::entity::Entity;
use crate::table::Table;
use crate::table::lists_values;
use crate::table::table_contents;
use crate::table::table_get;
use crate::table::table_insert;
use crate::table::table_is_empty;
use crate::table::table_iter;
use crate::table::table_keys;
use crate::table::table_len;
use crate::table::table_new;
use crate::table::table_remove;
use crate::table::table_values;
use crate::world::World;
use crate::world::spawn_post;

verus! {

/// The errors that might be returned while remapping entity references.
#[derive(Clone, Copy, PartialEq, Eq, Structural, Debug)]
pub enum MapEntitiesError {
    /// A strict lookup found no entry for this identifier in the table.
    EntityNotFound(Entity),
}

impl MapEntitiesError {
    /// A human-readable description of the error.
    pub fn message(&self) -> (r: &'static str)
        ensures
            r@ == "the given entity does not exist in the map"@,
    {
        match self {
            MapEntitiesError::EntityNotFound(_) => "the given entity does not exist in the map",
        }
    }
}

/// What a strict lookup of `e` against table contents `m` returns: the
/// mapped identifier, or `EntityNotFound` carrying exactly `e`.
pub open spec fn lookup(m: Map<Entity, Entity>, e: Entity) -> Result<Entity, MapEntitiesError> {
    if m.dom().contains(e) {
        Ok(m[e])
    } else {
        Err(MapEntitiesError::EntityNotFound(e))
    }
}

/// A mapping from one set of entities to another.
///
/// Identifiers are valid only for the arena they are sourced from, so
/// identifiers copied from another identifier space must be rewritten
/// through a table like this one. The table is pure data: it knows nothing
/// of liveness and outlives any one mapper session.
pub struct EntityMap {
    map: Table,
}

impl View for EntityMap {
    type V = Map<Entity, Entity>;

    closed spec fn view(&self) -> Map<Entity, Entity> {
        table_contents(self.map)
    }
}

impl EntityMap {
    /// Creates an empty map.
    pub fn new() -> (m: EntityMap)
        ensures
            m@ == (Map::<Entity, Entity>::empty()),
    {
        EntityMap { map: table_new() }
    }

    /// Inserts an entities pair into the map.
    ///
    /// Returns the value previously mapped to `from`, if any; on a
    /// duplicate key the old value is overwritten.
    pub fn insert(&mut self, from: Entity, to: Entity) -> (prev: Option<Entity>)
        ensures
            final(self)@ == old(self)@.insert(from, to),
            prev == if old(self)@.dom().contains(from) {
                Some(old(self)@[from])
            } else {
                None::<Entity>
            },
    {
        table_insert(&mut self.map, from, to)
    }

    /// Removes `entity` from the map, returning the value it mapped to if
    /// it was previously a key. An absent key leaves the map unchanged.
    pub fn remove(&mut self, entity: Entity) -> (prev: Option<Entity>)
        ensures
            final(self)@ == old(self)@.remove(entity),
            !old(self)@.dom().contains(entity) ==> final(self)@ == old(self)@,
            prev == if old(self)@.dom().contains(entity) {
                Some(old(self)@[entity])
            } else {
                None::<Entity>
            },
    {
        let prev = table_remove(&mut self.map, entity);
        proof {
            if !old(self)@.dom().contains(entity) {
                assert(old(self)@.remove(entity) =~= old(self)@);
            }
        }
        prev
    }

    /// Returns the corresponding mapped entity, or fails with
    /// `EntityNotFound` carrying the looked-up identifier. Never mutates.
    pub fn get(&self, entity: Entity) -> (r: Result<Entity, MapEntitiesError>)
        ensures
            r == lookup(self@, entity),
    {
        match table_get(&self.map, entity) {
            Some(e) => Ok(e),
            None => Err(MapEntitiesError::EntityNotFound(entity)),
        }
    }

    /// In-place get-or-insert: returns the value mapped to `entity`,
    /// first inserting `fallback` if `entity` is not yet a key. This
    /// bypasses the mapper's placeholder-allocation policy.
    pub fn entry(&mut self, entity: Entity, fallback: Entity) -> (r: Entity)
        ensures
            final(self)@ == if old(self)@.dom().contains(entity) {
                old(self)@
            } else {
                old(self)@.insert(entity, fallback)
            },
            final(self)@.dom().contains(entity),
            r == final(self)@[entity],
    {
        match table_get(&self.map, entity) {
            Some(e) => e,
            None => {
                table_insert(&mut self.map, entity, fallback);
                fallback
            },
        }
    }

    /// All keys, each exactly once, in arbitrary order.
    pub fn keys(&self) -> (r: Vec<Entity>)
        ensures
            r@.no_duplicates(),
            r@.to_set() == self@.dom(),
    {
        table_keys(&self.map)
    }

    /// The value of every entry, one per key, in arbitrary order.
    pub fn values(&self) -> (r: Vec<Entity>)
        ensures
            r@.len() == self@.dom().len(),
            lists_values(r@, self@),
    {
        table_values(&self.map)
    }

    /// Returns the number of elements in the map.
    pub fn len(&self) -> (n: usize)
        ensures
            n == self@.dom().len(),
    {
        table_len(&self.map)
    }

    /// Returns true if the map contains no elements.
    pub fn is_empty(&self) -> (b: bool)
        ensures
            b == self@.dom().is_empty(),
    {
        table_is_empty(&self.map)
    }

    /// Every (key, value) pair, each entry exactly once, in arbitrary
    /// order.
    pub fn iter(&self) -> (r: Vec<(Entity, Entity)>)
        ensures
            r@.len() == self@.dom().len(),
            forall|i: int| 0 <= i < r@.len() ==> self@.contains_pair(#[trigger] r@[i].0, r@[i].1),
            forall|i: int, j: int| 0 <= i < j < r@.len() ==> r@[i].0 != r@[j].0,
    {
        table_iter(&self.map)
    }
}

impl EntityMap {
    /// Calls the provided closure with a mapper session created from this
    /// map and the given arena, then closes the session against the arena
    /// before handing back the closure's result, so that the session's
    /// finalization runs on every path through the closure.
    ///
    /// The closure must accept any freshly opened session, and must leave
    /// the session and arena in a state the close accepts: above all it
    /// must not disturb the base entity's slot.
    pub fn with_mapper<R, F: FnOnce(&mut World, &mut EntityMapper) -> R>(
        &mut self,
        world: &mut World,
        f: F,
    ) -> (r: R)
        requires
            old(world).slot_count() < u32::MAX,
            forall|a: &mut World, b: &mut EntityMapper|
                open_post(old(self)@, *old(world), mut_ref_current(a), mut_ref_current(b))
                    ==> #[trigger] call_requires(f, (a, b)),
            forall|a: &mut World, b: &mut EntityMapper, res: R|
                open_post(old(self)@, *old(world), mut_ref_current(a), mut_ref_current(b))
                    && #[trigger] call_ensures(f, (a, b), res) ==> save_pre(
                    mut_ref_future(b),
                    mut_ref_future(a),
                ),
        ensures
            exists|a: &mut World, b: &mut EntityMapper|
                {
                    &&& open_post(old(self)@, *old(world), mut_ref_current(a), mut_ref_current(b))
                    &&& #[trigger] call_ensures(f, (a, b), r)
                    &&& final(self)@ == mut_ref_future(b)@
                    &&& close_post(
                        mut_ref_future(b).base(),
                        mut_ref_future(b).minted(),
                        mut_ref_future(a),
                        *final(world),
                    )
                },
    {
        let mut table = EntityMap::new();
        core::mem::swap(self, &mut table);
        let mut mapper = EntityMapper::new(table, world);
        let wa: &mut World = &mut *world;
        let ba: &mut EntityMapper = &mut mapper;
        let r = f(wa, ba);
        let mut table_back = mapper.save(world);
        core::mem::swap(self, &mut table_back);
        r
    }
}

impl Default for EntityMap {
    /// Creates an empty map.
    fn default() -> (m: EntityMap)
        ensures
            m@ == (Map::<Entity, Entity>::empty()),
    {
        EntityMap::new()
    }
}

/// The `j`th placeholder identifier a session with base `base` mints: the
/// base's slot index, `j` generations past the base generation.
pub open spec fn placeholder(base: Entity, j: u32) -> Entity {
    Entity { index: base.index, generation: (base.generation + j) as u32 }
}

/// A wrapper for `EntityMap`, augmenting it with the ability to allocate
/// new entity references in a destination arena. These newly allocated
/// references are guaranteed to never point to any living entity in that
/// arena.
///
/// References are allocated by returning increasing generations starting
/// from an internally initialized base entity. After the session is done,
/// `save` despawns the base entity and reserves the requisite number of
/// generations at its slot.
pub struct EntityMapper {
    /// The wrapped map, held for the session's lifetime.
    map: EntityMap,
    /// A base entity used to allocate new references.
    dead_start: Entity,
    /// The number of generations this mapper has allocated thus far.
    generations: u32,
}

impl View for EntityMapper {
    type V = Map<Entity, Entity>;

    closed spec fn view(&self) -> Map<Entity, Entity> {
        self.map@
    }
}

/// How opening a session relates the table it wraps, the arenas before and
/// after the open, and the session: the session wraps the table unchanged,
/// has minted nothing, and its base is a freshly spawned live entity.
pub open spec fn open_post(table: Map<Entity, Entity>, pre: World, post: World, m: EntityMapper) -> bool {
    m@ == table && m.minted() == 0 && spawn_post(pre, post, m.base())
}

/// How one `get_or_alloc` call relates the session before and after it, the
/// identifier looked up, and the identifier returned: an already-mapped key
/// returns its existing mapping and changes nothing; an unmapped key is
/// bound to the next placeholder.
pub open spec fn alloc_post(pre: EntityMapper, post: EntityMapper, f: Entity, r: Entity) -> bool {
    &&& post.base() == pre.base()
    &&& if pre@.dom().contains(f) {
        r == pre@[f] && post@ == pre@ && post.minted() == pre.minted()
    } else {
        &&& r == placeholder(pre.base(), pre.minted())
        &&& post@ == pre@.insert(f, r)
        &&& post.minted() == pre.minted() + 1
    }
}

/// What closing a session requires of the arena it is closed against: the
/// base is still the most recent identifier at its slot, the minted run of
/// generations fits the generation counter, and — when nothing was minted —
/// the base entity is still alive so it can be despawned.
pub open spec fn save_pre(m: EntityMapper, w: World) -> bool {
    &&& m.base().generation + m.minted() <= u32::MAX
    &&& w.contains(m.base())
    &&& m.minted() == 0 ==> w.is_live(m.base())
}

/// How closing a session relates the arenas before and after the close:
/// only the base's slot changes; it is left dead, with its stored
/// generation covering every minted placeholder.
pub open spec fn close_post(base: Entity, minted: u32, pre: World, post: World) -> bool {
    &&& post.slot_count() == pre.slot_count()
    &&& forall|j: int|
        0 <= j < pre.slot_count() && j != base.index ==> post.slots_seq()[j]
            == pre.slots_seq()[j]
    &&& !post.live_at(base.index as int)
    &&& post.gen_at(base.index as int) == base.generation + minted
    &&& post.live_count() + (if pre.live_at(base.index as int) {
        1nat
    } else {
        0
    }) == pre.live_count()
}

impl EntityMapper {
    /// The base identifier minted placeholders share their slot index with.
    pub closed spec fn base(&self) -> Entity {
        self.dead_start
    }

    /// How many placeholder identifiers this session has minted.
    pub closed spec fn minted(&self) -> u32 {
        self.generations
    }

    /// Creates a new mapper session over `map`, spawning a temporary base
    /// entity in the provided arena.
    pub fn new(map: EntityMap, world: &mut World) -> (m: EntityMapper)
        requires
            old(world).slot_count() < u32::MAX,
        ensures
            open_post(map@, *old(world), *final(world), m),
    {
        let dead_start = world.spawn_empty();
        EntityMapper { map, dead_start, generations: 0 }
    }

    /// Returns the corresponding mapped entity, or fails with
    /// `EntityNotFound`. Pure lookup: does not allocate, does not mutate.
    pub fn get(&self, entity: Entity) -> (r: Result<Entity, MapEntitiesError>)
        ensures
            r == lookup(self@, entity),
    {
        self.map.get(entity)
    }

    /// Returns the corresponding mapped entity, or allocates a new dead
    /// placeholder if it is absent. Repeated calls with the same identifier
    /// during one session always return the same local identifier.
    pub fn get_or_alloc(&mut self, entity: Entity) -> (r: Entity)
        requires
            old(self).base().generation + old(self).minted() < u32::MAX,
        ensures
            alloc_post(*old(self), *final(self), entity, r),
            final(self)@.dom().contains(entity),
            r == final(self)@[entity],
    {
        if let Ok(mapped) = self.map.get(entity) {
            return mapped;
        }
        let new = Entity {
            generation: self.dead_start.generation + self.generations,
            index: self.dead_start.index,
        };
        self.generations = self.generations + 1;
        self.map.insert(entity, new);
        new
    }

    /// Gets a reference to the underlying map.
    pub fn get_map(&self) -> (r: &EntityMap)
        ensures
            r@ == self@,
    {
        &self.map
    }

    /// Gets a mutable reference to the underlying map, for inspection or
    /// bulk edits without allocation.
    pub fn get_map_mut(&mut self) -> (r: &mut EntityMap)
        ensures
            (*r)@ == old(self)@,
            final(self)@ == (*final(r))@,
            final(self).base() == old(self).base(),
            final(self).minted() == old(self).minted(),
    {
        &mut self.map
    }

    /// Closes the session against the arena, handing the wrapped map back.
    ///
    /// If nothing was minted, the temporary base entity is simply
    /// despawned. Otherwise the base's slot is left dead with its stored
    /// generation advanced past every minted placeholder, so no future
    /// live entity can ever be issued one of their identifiers. Consumes
    /// the session: no placeholder can be minted after the close.
    pub fn save(self, world: &mut World) -> (map: EntityMap)
        requires
            save_pre(self, *old(world)),
        ensures
            map@ == self@,
            close_post(self.base(), self.minted(), *old(world), *final(world)),
    {
        if self.generations == 0 {
            let ok = world.despawn(self.dead_start);
            assert(ok);
            self.map
        } else {
            let ok = world.try_reserve_generations(self.dead_start, self.generations);
            assert(ok);
            self.map
        }
    }
}

/// The interface a foreign-reference-carrying value implements to rewrite
/// the identifiers it owns through a mapper session.
///
/// Implementors should look up any and all entity references stored within
/// and update them to the mapped values: with `EntityMapper::get` where a
/// missing mapping must fail the whole operation, or with
/// `EntityMapper::get_or_alloc` where a safe non-colliding placeholder is
/// acceptable.
pub trait MapEntities {
    /// Updates all entity references stored inside using `entity_mapper`.
    fn map_entities(&mut self, entity_mapper: &mut EntityMapper) -> Result<(), MapEntitiesError>;
}

} // verus!

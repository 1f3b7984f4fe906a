use vstd::prelude::*;

use crate::entity::Entity;

verus! {

/// The backing store of an `EntityMap`: the hash map the wider engine uses,
/// keyed by plain index/generation pairs. Verus treats the type as opaque;
/// `table_contents` names what it holds, and the functions below state over
/// that name what each call does.
#[verifier::external_body]
pub struct Table {
    inner: bevy_utils::HashMap<(u32, u32), (u32, u32)>,
}

/// The mathematical contents of a `Table`: which foreign identifier is
/// mapped to which local identifier.
pub uninterp spec fn table_contents(t: Table) -> Map<Entity, Entity>;

/// Whether `r` lists the value of every entry of `m`, one per key, in some
/// order: there is an enumeration of the keys that `r` follows.
pub open spec fn lists_values(r: Seq<Entity>, m: Map<Entity, Entity>) -> bool {
    exists|ks: Seq<Entity>|
        ks.no_duplicates() && ks.to_set() == m.dom() && r == ks.map_values(|k: Entity| m[k])
}

/// Relies on hashbrown's `HashMap::default` (through the engine's alias):
/// a newly created map holds no entries.
#[verifier::external_body]
pub(crate) fn table_new() -> (fresh: Table)
    ensures
        table_contents(fresh) == (Map::<Entity, Entity>::empty()),
{
    Table { inner: bevy_utils::HashMap::default() }
}

/// Relies on hashbrown's `HashMap::insert`: maps the key to the value and
/// returns the value previously at that key, if any.
#[verifier::external_body]
pub(crate) fn table_insert(t: &mut Table, k: Entity, v: Entity) -> (prev: Option<Entity>)
    ensures
        table_contents(*final(t)) == table_contents(*old(t)).insert(k, v),
        prev == if table_contents(*old(t)).dom().contains(k) {
            Some(table_contents(*old(t))[k])
        } else {
            None::<Entity>
        },
{
    t.inner.insert((k.index, k.generation), (v.index, v.generation)).map(
        |p: (u32, u32)| Entity { index: p.0, generation: p.1 },
    )
}

/// Relies on hashbrown's `HashMap::remove`: removes the key and returns the
/// value that was at it, if any.
#[verifier::external_body]
pub(crate) fn table_remove(t: &mut Table, k: Entity) -> (prev: Option<Entity>)
    ensures
        table_contents(*final(t)) == table_contents(*old(t)).remove(k),
        prev == if table_contents(*old(t)).dom().contains(k) {
            Some(table_contents(*old(t))[k])
        } else {
            None::<Entity>
        },
{
    t.inner.remove(&(k.index, k.generation)).map(
        |p: (u32, u32)| Entity { index: p.0, generation: p.1 },
    )
}

/// Relies on hashbrown's `HashMap::get`: returns the value mapped to the
/// key, if any, and changes nothing.
#[verifier::external_body]
pub(crate) fn table_get(t: &Table, k: Entity) -> (r: Option<Entity>)
    ensures
        r == if table_contents(*t).dom().contains(k) {
            Some(table_contents(*t)[k])
        } else {
            None::<Entity>
        },
{
    t.inner.get(&(k.index, k.generation)).map(
        |p: &(u32, u32)| Entity { index: p.0, generation: p.1 },
    )
}

/// Relies on hashbrown's `HashMap::len`: the number of entries, which is
/// finite.
#[verifier::external_body]
pub(crate) fn table_len(t: &Table) -> (n: usize)
    ensures
        n == table_contents(*t).dom().len(),
{
    t.inner.len()
}

/// Relies on hashbrown's `HashMap::keys`: every key, each exactly once, in
/// unspecified order.
#[verifier::external_body]
pub(crate) fn table_keys(t: &Table) -> (r: Vec<Entity>)
    ensures
        r@.no_duplicates(),
        r@.to_set() == table_contents(*t).dom(),
{
    t.inner.keys().map(|p: &(u32, u32)| Entity { index: p.0, generation: p.1 }).collect()
}

/// Relies on hashbrown's `HashMap::values`: the value of every entry, one
/// per key, in unspecified order.
#[verifier::external_body]
pub(crate) fn table_values(t: &Table) -> (r: Vec<Entity>)
    ensures
        r@.len() == table_contents(*t).dom().len(),
        lists_values(r@, table_contents(*t)),
{
    t.inner.values().map(|p: &(u32, u32)| Entity { index: p.0, generation: p.1 }).collect()
}

/// Relies on hashbrown's `HashMap::is_empty`: whether the map holds no
/// entries.
#[verifier::external_body]
pub(crate) fn table_is_empty(t: &Table) -> (b: bool)
    ensures
        b == table_contents(*t).dom().is_empty(),
{
    t.inner.is_empty()
}

/// Relies on hashbrown's `HashMap::iter`: every entry exactly once, in
/// unspecified order.
#[verifier::external_body]
pub(crate) fn table_iter(t: &Table) -> (r: Vec<(Entity, Entity)>)
    ensures
        r@.len() == table_contents(*t).dom().len(),
        forall|i: int|
            0 <= i < r@.len() ==> table_contents(*t).contains_pair(#[trigger] r@[i].0, r@[i].1),
        forall|i: int, j: int| 0 <= i < j < r@.len() ==> r@[i].0 != r@[j].0,
{
    t.inner.iter().map(
        |e: (&(u32, u32), &(u32, u32))| (
            Entity { index: e.0.0, generation: e.0.1 },
            Entity { index: e.1.0, generation: e.1.1 },
        ),
    ).collect()
}

} // verus!

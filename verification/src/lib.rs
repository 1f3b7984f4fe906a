//! Mapping of entity identifiers between identifier spaces.
//!
//! Entity identifiers are slot-plus-generation handles into one specific
//! generational arena; copied verbatim into another arena they collide or
//! dangle. This crate provides a table mapping foreign identifiers to local
//! ones, and a session object that mints placeholder identifiers for foreign
//! entities with no local counterpart yet, guaranteed never to alias a live
//! local entity.

mod entity;
mod laws;
mod map_entities;
mod table;
mod world;

pub use entity::Entity;
pub use laws::lemma_alloc_idempotent;
pub use laws::lemma_despawn_monotonic;
pub use laws::lemma_lookup_idempotent;
pub use laws::lemma_missing_key;
pub use laws::lemma_no_live_collision;
pub use laws::lemma_placeholder_disjoint;
pub use laws::lemma_reserve_monotonic;
pub use laws::lemma_spawn_monotonic;
pub use laws::lemma_zero_alloc_cleanup;
pub use map_entities::EntityMap;
pub use map_entities::EntityMapper;
pub use map_entities::MapEntities;
pub use map_entities::MapEntitiesError;
pub use map_entities::alloc_post;
pub use map_entities::close_post;
pub use map_entities::lookup;
pub use map_entities::open_post;
pub use map_entities::placeholder;
pub use map_entities::save_pre;
pub use table::lists_values;
pub use table::table_contents;
pub use world::Slot;
pub use world::World;
pub use world::despawn_post;
pub use world::live_slots;
pub use world::reserve_post;
pub use world::spawn_post;

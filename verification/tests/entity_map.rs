use entity_map::Entity;
use entity_map::EntityMap;
use entity_map::EntityMapper;
use entity_map::MapEntities;
use entity_map::MapEntitiesError;
use entity_map::World;

fn e(index: u32, generation: u32) -> Entity {
    Entity { index, generation }
}

#[test]
fn insert_then_get_repeatably() {
    let mut map = EntityMap::new();
    let f = e(4, 2);
    let l = e(9, 0);
    assert_eq!(map.insert(f, l), None);
    assert_eq!(map.get(f), Ok(l));
    assert_eq!(map.get(f), Ok(l));
    assert_eq!(map.get(f), Ok(l));
    assert_eq!(map.len(), 1);
}

#[test]
fn insert_overwrites_and_returns_previous() {
    let mut map = EntityMap::new();
    let f = e(1, 1);
    assert_eq!(map.insert(f, e(2, 2)), None);
    assert_eq!(map.insert(f, e(3, 3)), Some(e(2, 2)));
    assert_eq!(map.get(f), Ok(e(3, 3)));
    assert_eq!(map.len(), 1);
}

#[test]
fn remove_returns_mapped_value() {
    let mut map = EntityMap::new();
    let f = e(5, 0);
    map.insert(f, e(6, 1));
    assert_eq!(map.remove(f), Some(e(6, 1)));
    assert!(map.is_empty());
    assert_eq!(map.get(f), Err(MapEntitiesError::EntityNotFound(f)));
}

#[test]
fn missing_key_fails_with_that_exact_key() {
    let mut map = EntityMap::new();
    map.insert(e(0, 0), e(1, 0));
    let absent = e(8, 8);
    assert_eq!(map.get(absent), Err(MapEntitiesError::EntityNotFound(absent)));
    assert_eq!(map.remove(absent), None);
    assert_eq!(map.len(), 1);
}

#[test]
fn entry_gets_or_inserts_in_place() {
    let mut map = EntityMap::new();
    let f = e(2, 0);
    assert_eq!(map.entry(f, e(7, 7)), e(7, 7));
    assert_eq!(map.entry(f, e(8, 8)), e(7, 7));
    assert_eq!(map.len(), 1);
}

#[test]
fn keys_values_iter_enumerate_the_table() {
    let mut map = EntityMap::new();
    map.insert(e(1, 0), e(10, 0));
    map.insert(e(2, 0), e(20, 0));
    let mut keys = map.keys();
    keys.sort();
    assert_eq!(keys, vec![e(1, 0), e(2, 0)]);
    let mut values = map.values();
    values.sort();
    assert_eq!(values, vec![e(10, 0), e(20, 0)]);
    let mut pairs = map.iter();
    pairs.sort();
    assert_eq!(pairs, vec![(e(1, 0), e(10, 0)), (e(2, 0), e(20, 0))]);
    assert_eq!(map.len(), 2);
    assert!(!map.is_empty());
}

#[test]
fn error_message_names_the_failure() {
    let err = MapEntitiesError::EntityNotFound(e(3, 1));
    assert_eq!(err.message(), "the given entity does not exist in the map");
}

#[test]
fn alloc_is_idempotent_within_a_session() {
    let mut world = World::new();
    let map = EntityMap::new();
    let mut mapper = EntityMapper::new(map, &mut world);
    let f = e(42, 5);
    let first = mapper.get_or_alloc(f);
    let second = mapper.get_or_alloc(f);
    assert_eq!(first, second);
    let map = mapper.save(&mut world);
    assert_eq!(map.len(), 1);
    assert_eq!(map.get(f), Ok(first));
}

#[test]
fn placeholders_share_index_with_contiguous_generations() {
    let mut world = World::new();
    let map = EntityMap::new();
    let mut mapper = EntityMapper::new(map, &mut world);
    let p0 = mapper.get_or_alloc(e(100, 0));
    let p1 = mapper.get_or_alloc(e(101, 0));
    let p2 = mapper.get_or_alloc(e(102, 0));
    assert_eq!(p0.index, p1.index);
    assert_eq!(p1.index, p2.index);
    assert_eq!(p1.generation, p0.generation + 1);
    assert_eq!(p2.generation, p0.generation + 2);
    assert_ne!(p0, p1);
    assert_ne!(p0, p2);
    assert_ne!(p1, p2);
    mapper.save(&mut world);
}

#[test]
fn closed_session_placeholders_never_collide_with_spawns() {
    let mut world = World::new();
    let map = EntityMap::new();
    let mut mapper = EntityMapper::new(map, &mut world);
    let p0 = mapper.get_or_alloc(e(50, 0));
    let p1 = mapper.get_or_alloc(e(51, 0));
    let p2 = mapper.get_or_alloc(e(52, 0));
    mapper.save(&mut world);
    for _ in 0..10 {
        let id = world.spawn_empty();
        assert_ne!(id, p0);
        assert_ne!(id, p1);
        assert_ne!(id, p2);
        if id.index == p0.index {
            assert!(id.generation > p2.generation);
        }
    }
}

#[test]
fn zero_allocation_session_leaves_entity_count_unchanged() {
    let mut world = World::new();
    world.spawn_empty();
    world.spawn_empty();
    let before = world.entity_count();
    let map = EntityMap::new();
    let mapper = EntityMapper::new(map, &mut world);
    mapper.save(&mut world);
    assert_eq!(world.entity_count(), before);
}

#[test]
fn scenario_allocate_twice_then_spawn() {
    let mut world = World::new();
    let map = EntityMap::new();
    assert!(map.is_empty());
    let mut mapper = EntityMapper::new(map, &mut world);
    let foreign_a = e(7, 3);
    let foreign_b = e(9, 1);
    let p0 = mapper.get_or_alloc(foreign_a);
    assert_eq!(mapper.get_or_alloc(foreign_a), p0);
    let p1 = mapper.get_or_alloc(foreign_b);
    assert_eq!(p1.index, p0.index);
    assert_eq!(p1.generation, p0.generation + 1);
    mapper.save(&mut world);
    for _ in 0..5 {
        let id = world.spawn_empty();
        assert_ne!(id, p0);
        assert_ne!(id, p1);
        if id.index == p0.index {
            assert!(id.generation > p1.generation);
        }
    }
}

#[test]
fn despawn_reports_liveness() {
    let mut world = World::new();
    let id = world.spawn_empty();
    assert!(world.is_alive(id));
    assert!(world.despawn(id));
    assert!(!world.is_alive(id));
    assert!(!world.despawn(id));
    assert_eq!(world.entity_count(), 0);
}

struct Spring {
    a: Entity,
    b: Entity,
}

impl MapEntities for Spring {
    fn map_entities(&mut self, entity_mapper: &mut EntityMapper) -> Result<(), MapEntitiesError> {
        self.a = entity_mapper.get(self.a)?;
        self.b = entity_mapper.get_or_alloc(self.b);
        Ok(())
    }
}

#[test]
fn with_mapper_remaps_a_component() {
    let mut world = World::new();
    let local_a = world.spawn_empty();
    let mut map = EntityMap::new();
    map.insert(e(1, 0), local_a);
    let mut spring = Spring { a: e(1, 0), b: e(2, 0) };
    let result = map.with_mapper(&mut world, |_world, mapper| spring.map_entities(mapper));
    assert_eq!(result, Ok(()));
    assert_eq!(spring.a, local_a);
    assert_eq!(map.len(), 2);
    assert_eq!(map.get(e(2, 0)), Ok(spring.b));
    assert!(!world.is_alive(spring.b));
}

#[test]
fn with_mapper_propagates_strict_lookup_failure() {
    let mut world = World::new();
    let mut map = EntityMap::new();
    let mut spring = Spring { a: e(1, 0), b: e(2, 0) };
    let result = map.with_mapper(&mut world, |_world, mapper| spring.map_entities(mapper));
    assert_eq!(result, Err(MapEntitiesError::EntityNotFound(e(1, 0))));
}

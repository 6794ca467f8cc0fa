//! Host-side state the syscall layer acts on: game entities, the tile
//! world, and the user-space memory allocator.

use vstd::prelude::*;

use std::collections::HashMap;

verus! {

/// A game entity: identity, kind, position, and named properties.
#[derive(Debug, Clone)]
pub struct Entity {
    pub id: u16,
    pub entity_type: u16,
    pub x: i16,
    pub y: i16,
    pub z: i16,
    pub properties: HashMap<String, u16>,
}

/// The game world: entities by identifier, a 256 by 256 tile map, quest
/// flags, the player's position, stats and inventory, and the next
/// entity identifier to hand out.
pub struct GameWorld {
    pub entities: HashMap<u16, Entity>,
    pub tiles: Vec<Vec<u16>>,
    pub quest_flags: HashMap<u16, bool>,
    pub player_x: i16,
    pub player_y: i16,
    pub player_stats: HashMap<u16, u16>,
    pub inventory: Vec<u16>,
    pub next_entity_id: u16,
}

impl GameWorld {
    /// The tile map is exactly 256 rows of 256 columns.
    pub open spec fn wf(&self) -> bool {
        self.tiles@.len() == 256 && forall|y: int| 0 <= y < 256 ==> self.tiles@[y]@.len() == 256
    }

    /// A fresh world: no entities, all tiles zero, no quest flags, the
    /// player at the centre (128, 128) with no stats and an empty
    /// inventory, entity identifiers starting at 1.
    pub fn new() -> (r: GameWorld)
        ensures
            r.wf(),
            r.entities@ == Map::<u16, Entity>::empty(),
            forall|y: int, x: int| 0 <= y < 256 && 0 <= x < 256 ==> r.tiles@[y]@[x] == 0,
            r.quest_flags@ == Map::<u16, bool>::empty(),
            r.player_x == 128,
            r.player_y == 128,
            r.player_stats@ == Map::<u16, u16>::empty(),
            r.inventory@ == Seq::<u16>::empty(),
            r.next_entity_id == 1,
    {
        let mut tiles: Vec<Vec<u16>> = Vec::new();
        let mut y: usize = 0;
        while y < 256
            invariant
                y <= 256,
                tiles@.len() == y,
                forall|j: int| 0 <= j < y ==> tiles@[j]@.len() == 256,
                forall|j: int, x: int| 0 <= j < y && 0 <= x < 256 ==> tiles@[j]@[x] == 0,
            decreases 256 - y,
        {
            let mut row: Vec<u16> = Vec::new();
            let mut x: usize = 0;
            while x < 256
                invariant
                    x <= 256,
                    row@.len() == x,
                    forall|i: int| 0 <= i < x ==> row@[i] == 0,
                decreases 256 - x,
            {
                row.push(0);
                x += 1;
            }
            tiles.push(row);
            y += 1;
        }
        GameWorld {
            entities: HashMap::new(),
            tiles,
            quest_flags: HashMap::new(),
            player_x: 128,
            player_y: 128,
            player_stats: HashMap::new(),
            inventory: Vec::new(),
            next_entity_id: 1,
        }
    }

    /// Creates an entity of `entity_type` at `(x, y)` under the next
    /// free identifier, which is returned; the identifier counter moves
    /// on by one.
    pub fn create_entity(&mut self, entity_type: u16, x: i16, y: i16) -> (r: u16)
        requires
            old(self).next_entity_id < 0xFFFF,
        ensures
            r == old(self).next_entity_id,
            final(self).next_entity_id == old(self).next_entity_id + 1,
            final(self).entities@.contains_key(r),
            ({
                let e = final(self).entities@[r];
                e.id == r && e.entity_type == entity_type && e.x == x && e.y == y && e.z == 0
                    && e.properties@ == Map::<String, u16>::empty()
            }),
            final(self).entities@.remove(r) == old(self).entities@.remove(r),
            final(self).tiles == old(self).tiles,
            final(self).quest_flags == old(self).quest_flags,
            final(self).player_x == old(self).player_x,
            final(self).player_y == old(self).player_y,
            final(self).player_stats == old(self).player_stats,
            final(self).inventory == old(self).inventory,
    {
        let id = self.next_entity_id;
        self.next_entity_id += 1;
        let entity = Entity { id, entity_type, x, y, z: 0, properties: HashMap::new() };
        self.entities.insert(id, entity);
        proof {
            assert(self.entities@.remove(id) =~= old(self).entities@.remove(id));
        }
        id
    }

    /// Removes the entity under `id`; true exactly when one was there.
    pub fn destroy_entity(&mut self, id: u16) -> (r: bool)
        ensures
            r == old(self).entities@.contains_key(id),
            final(self).entities@ == old(self).entities@.remove(id),
            final(self).tiles == old(self).tiles,
            final(self).quest_flags == old(self).quest_flags,
            final(self).player_x == old(self).player_x,
            final(self).player_y == old(self).player_y,
            final(self).player_stats == old(self).player_stats,
            final(self).inventory == old(self).inventory,
            final(self).next_entity_id == old(self).next_entity_id,
    {
        self.entities.remove(&id).is_some()
    }

    /// The entity under `id`, if any.
    pub fn get_entity(&self, id: u16) -> (r: Option<&Entity>)
        ensures
            match r {
                Some(e) => self.entities@.contains_key(id) && *e == self.entities@[id],
                None => !self.entities@.contains_key(id),
            },
    {
        self.entities.get(&id)
    }

    /// The tile at `(x, y)`; coordinates off the 256 by 256 map read
    /// zero.
    pub fn get_tile(&self, x: usize, y: usize) -> (r: u16)
        requires
            self.wf(),
        ensures
            r == if x < 256 && y < 256 {
                self.tiles@[y as int]@[x as int]
            } else {
                0u16
            },
    {
        if x < 256 && y < 256 {
            self.tiles[y][x]
        } else {
            0
        }
    }

    /// Writes the tile at `(x, y)`; coordinates off the map are
    /// ignored.
    pub fn set_tile(&mut self, x: usize, y: usize, tile: u16)
        requires
            old(self).wf(),
        ensures
            final(self).wf(),
            x < 256 && y < 256 ==> {
                &&& final(self).tiles@[y as int]@ == old(self).tiles@[y as int]@.update(
                    x as int,
                    tile,
                )
                &&& forall|j: int| 0 <= j < 256 && j != y ==> final(self).tiles@[j] == old(
                    self,
                ).tiles@[j]
            },
            !(x < 256 && y < 256) ==> final(self).tiles == old(self).tiles,
            final(self).entities == old(self).entities,
            final(self).quest_flags == old(self).quest_flags,
            final(self).player_x == old(self).player_x,
            final(self).player_y == old(self).player_y,
            final(self).player_stats == old(self).player_stats,
            final(self).inventory == old(self).inventory,
            final(self).next_entity_id == old(self).next_entity_id,
    {
        if x < 256 && y < 256 {
            self.tiles[y][x] = tile;
        }
    }
}

/// One recorded reality modification.
#[derive(Debug, Clone)]
pub struct RealityMod {
    pub id: u16,
    pub mod_type: u16,
    pub target: u16,
    pub value: u16,
    pub active: bool,
}

/// A spatial portal joining two points of the world.
#[derive(Debug, Clone)]
pub struct Portal {
    pub id: u16,
    pub x1: i16,
    pub y1: i16,
    pub x2: i16,
    pub y2: i16,
}

/// A bump allocator over the user-space heap: each allocation takes the
/// next addresses in line, and freeing only forgets the booking (the
/// space is not reused).
pub struct MemoryAllocator {
    heap_start: u16,
    heap_end: u16,
    allocations: HashMap<u16, u16>,
    next_addr: u16,
}

impl MemoryAllocator {
    /// The lowest heap address managed.
    pub closed spec fn spec_start(&self) -> u16 {
        self.heap_start
    }

    /// One past the highest heap address managed.
    pub closed spec fn spec_end(&self) -> u16 {
        self.heap_end
    }

    /// The next address a fresh allocation would take.
    pub closed spec fn spec_next(&self) -> u16 {
        self.next_addr
    }

    /// The live allocations, address to size.
    pub closed spec fn spec_allocations(&self) -> Map<u16, u16> {
        self.allocations@
    }

    /// The bump pointer stays inside the managed range.
    pub open spec fn wf(&self) -> bool {
        self.spec_start() <= self.spec_next() <= self.spec_end()
    }

    /// A fresh allocator over `[heap_start, heap_end)` with nothing
    /// allocated.
    pub fn new(heap_start: u16, heap_end: u16) -> (r: MemoryAllocator)
        requires
            heap_start <= heap_end,
        ensures
            r.wf(),
            r.spec_start() == heap_start,
            r.spec_end() == heap_end,
            r.spec_next() == heap_start,
            r.spec_allocations() == Map::<u16, u16>::empty(),
    {
        MemoryAllocator { heap_start, heap_end, allocations: HashMap::new(), next_addr: heap_start }
    }

    /// Takes `size` bytes from the front of the free space, returning
    /// the address and booking it; `None` when the heap has no room
    /// left for the request.
    pub fn allocate(&mut self, size: u16) -> (r: Option<u16>)
        requires
            old(self).wf(),
        ensures
            final(self).wf(),
            final(self).spec_start() == old(self).spec_start(),
            final(self).spec_end() == old(self).spec_end(),
            if old(self).spec_next() + size <= old(self).spec_end() {
                &&& r == Some(old(self).spec_next())
                &&& final(self).spec_next() == old(self).spec_next() + size
                &&& final(self).spec_allocations() == old(self).spec_allocations().insert(
                    old(self).spec_next(),
                    size,
                )
            } else {
                &&& r is None
                &&& final(self).spec_next() == old(self).spec_next()
                &&& final(self).spec_allocations() == old(self).spec_allocations()
            },
    {
        if (self.next_addr as u32) + (size as u32) > (self.heap_end as u32) {
            return None;
        }
        let addr = self.next_addr;
        self.allocations.insert(addr, size);
        self.next_addr += size;
        Some(addr)
    }

    /// Forgets the allocation booked at `addr`; true exactly when one
    /// was booked there.
    pub fn free(&mut self, addr: u16) -> (r: bool)
        ensures
            r == old(self).spec_allocations().contains_key(addr),
            final(self).spec_allocations() == old(self).spec_allocations().remove(addr),
            final(self).spec_start() == old(self).spec_start(),
            final(self).spec_end() == old(self).spec_end(),
            final(self).spec_next() == old(self).spec_next(),
    {
        self.allocations.remove(&addr).is_some()
    }

    /// The used, free and total byte counts of the heap.
    pub fn get_stats(&self) -> (r: (u16, u16, u16))
        requires
            self.wf(),
        ensures
            r.0 == self.spec_next() - self.spec_start(),
            r.1 == self.spec_end() - self.spec_next(),
            r.2 == self.spec_end() - self.spec_start(),
    {
        let used = self.next_addr - self.heap_start;
        let total = self.heap_end - self.heap_start;
        let free = total - used;
        (used, free, total)
    }
}

} // verus!

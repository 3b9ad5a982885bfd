use rand::rngs::ThreadRng;
use vstd::prelude::*;

verus! {

/// Number of tiles along the x axis.
pub const WORLD_WIDTH: usize = 100;

/// Number of tiles along the y axis.
pub const WORLD_HEIGHT: usize = 100;

/// Number of tiles in the whole map (`WORLD_WIDTH * WORLD_HEIGHT`).
pub const WORLD_SIZE: usize = 10000;

/// The terrain map: one value per tile, stored row by row
/// (tile `(x, y)` at index `x + y * WORLD_WIDTH`).
#[derive(Clone, Copy)]
pub struct WorldMap {
    pub vals: [usize; 10000],
}

/// Flat index of tile `(x, y)`.
pub open spec fn tile_index(x: int, y: int) -> int {
    x + y * WORLD_WIDTH
}

/// What a lookup at flat index `idx` yields: the stored value when the index
/// lies inside the map, nothing otherwise.
pub open spec fn val_at(vals: Seq<usize>, idx: int) -> Option<usize> {
    if 0 <= idx < WORLD_SIZE {
        Some(vals[idx])
    } else {
        None
    }
}

/// The speed factor of the tile at flat index `idx`: its value plus one, or
/// one outside the map.
pub open spec fn terrain_factor_at(vals: Seq<usize>, idx: int) -> int {
    match val_at(vals, idx) {
        Some(v) => v + 1,
        None => 1,
    }
}

impl WorldMap {
    /// The value of tile `(x, y)`, or `None` when its flat index falls
    /// outside the map. Only the flat index is checked: an `x` past the row
    /// end reads into the following row.
    pub fn get_val_at_coord(self, x: i32, y: i32) -> (r: Option<usize>)
        requires
            i32::MIN <= y * WORLD_WIDTH <= i32::MAX,
            i32::MIN <= tile_index(x as int, y as int) <= i32::MAX,
        ensures
            r == val_at(self.vals@, tile_index(x as int, y as int)),
    {
        let idx: i32 = x + (y * 100i32);
        if idx < 0 || idx >= 10000i32 {
            None
        } else {
            Some(self.vals[idx as usize])
        }
    }

    /// Stores `value` at tile `(x, y)`.
    pub fn set_val_at_coord(&mut self, x: usize, y: usize, value: usize)
        requires
            tile_index(x as int, y as int) < WORLD_SIZE,
        ensures
            final(self).vals@ == old(self).vals@.update(tile_index(x as int, y as int), value),
    {
        let idx: usize = x + y * 100usize;
        self.vals[idx] = value;
    }

    /// The speed factor under tile `(x, y)`: the tile's value plus one, or
    /// one where the lookup finds nothing.
    pub fn terrain_factor(self, x: i32, y: i32) -> (r: usize)
        requires
            i32::MIN <= y * WORLD_WIDTH <= i32::MAX,
            i32::MIN <= tile_index(x as int, y as int) <= i32::MAX,
            val_at(self.vals@, tile_index(x as int, y as int)) != Some(usize::MAX),
        ensures
            r == terrain_factor_at(self.vals@, tile_index(x as int, y as int)),
    {
        let v: usize = match self.get_val_at_coord(x, y) {
            Some(val) => val,
            None => 0,
        };
        v + 1
    }
}

/// The speed factor of a tile inside the map is its stored value plus one,
/// and one outside the map; after a tile is written, its speed factor is the
/// written value plus one.
pub proof fn lemma_terrain_factor_reads_tile(
    vals: Seq<usize>,
    x: usize,
    y: usize,
    value: usize,
    idx: int,
)
    requires
        vals.len() == WORLD_SIZE,
        tile_index(x as int, y as int) < WORLD_SIZE,
    ensures
        0 <= idx < WORLD_SIZE ==> terrain_factor_at(vals, idx) == vals[idx] + 1,
        !(0 <= idx < WORLD_SIZE) ==> terrain_factor_at(vals, idx) == 1,
        terrain_factor_at(
            vals.update(x + y * WORLD_WIDTH, value),
            x + y * WORLD_WIDTH,
        ) == value + 1,
{
}

/// Reading a tile right after writing it gives the written value, and every
/// other index reads as before.
pub proof fn lemma_get_after_set(vals: Seq<usize>, x: usize, y: usize, value: usize, other: int)
    requires
        vals.len() == WORLD_SIZE,
        tile_index(x as int, y as int) < WORLD_SIZE,
    ensures
        val_at(vals.update(tile_index(x as int, y as int), value), tile_index(x as int, y as int))
            == Some(value),
        other != tile_index(x as int, y as int) ==> val_at(
            vals.update(tile_index(x as int, y as int), value),
            other,
        ) == val_at(vals, other),
{
}

/// The random generator that `rand` keeps for each thread; opaque here.
#[verifier::external_type_specification]
#[verifier::external_body]
pub struct ExThreadRng(rand::rngs::ThreadRng);

/// Calls `rand::rng()`, the handle to this thread's lazily seeded generator.
/// Nothing is claimed of the handle. `rand` panics here only when the
/// operating system's entropy source cannot seed the generator, which no
/// argument decides.
#[verifier::external_body]
fn thread_rng() -> ThreadRng {
    rand::rng()
}

/// Calls `rand::Rng::random_range` on `low..high`. `rand` asserts that the
/// range is not empty and draws from `[low, high)`; which value comes out is
/// left open.
#[verifier::external_body]
fn random_range(rng: &mut ThreadRng, low: usize, high: usize) -> (r: usize)
    requires
        low < high,
    ensures
        low <= r < high,
{
    rand::Rng::random_range(rng, low..high)
}

/// A random tile for the delivery target, drawn from this thread's generator:
/// its column below `WORLD_WIDTH`, its row below `WORLD_HEIGHT`.
pub fn random_target_tile() -> (r: (usize, usize))
    ensures
        r.0 < WORLD_WIDTH,
        r.1 < WORLD_HEIGHT,
{
    let mut rng = thread_rng();
    let x = random_range(&mut rng, 0, WORLD_WIDTH);
    let y = random_range(&mut rng, 0, WORLD_HEIGHT);
    (x, y)
}

} // verus!

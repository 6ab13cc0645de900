//! The tile map: terrain and unit occupancy per cell, in row-major order.

use vstd::prelude::*;

verus! {

/// What a map cell is made of.
#[derive(Clone, Copy, PartialEq, Eq, Structural, Debug)]
pub enum Terrain {
    Ground,
    Water,
}

/// One map cell's terrain.
#[derive(Clone, Copy, PartialEq, Eq, Structural, Debug)]
pub struct Tile {
    pub terrain: Terrain,
}

impl Default for Tile {
    /// A fresh tile is plain ground.
    fn default() -> (t: Tile)
        ensures
            t == (Tile { terrain: Terrain::Ground }),
    {
        Tile { terrain: Terrain::Ground }
    }
}

/// The kinds of unit that can occupy a cell.
#[derive(Clone, Copy, PartialEq, Eq, Structural, Debug)]
pub enum UnitKind {
    Tank,
}

/// A unit standing on the map.
#[derive(Clone, Copy, PartialEq, Eq, Structural, Debug)]
pub struct Unit {
    pub kind: UnitKind,
}

/// Out of 65536 draws, how many land on water when terrain is rolled.
/// Close to 14 in every 100 cells.
pub const WATER_DRAWS: u16 = 9175;

/// The terrain that a uniform draw from the full `u16` range stands for.
pub open spec fn spec_terrain_of_draw(draw: u16) -> Terrain {
    if draw < WATER_DRAWS {
        Terrain::Water
    } else {
        Terrain::Ground
    }
}

/// Maps a uniform random draw to a cell's terrain: the low fraction of the
/// range gives water, the rest ground.
pub fn terrain_of_draw(draw: u16) -> (t: Terrain)
    ensures
        t == spec_terrain_of_draw(draw),
{
    if draw < WATER_DRAWS {
        Terrain::Water
    } else {
        Terrain::Ground
    }
}

/// Relies on rand::random: draws a value through the thread-local generator,
/// uniformly for the integer types used here. Nothing is promised of the
/// result; callers hold for every outcome.
pub assume_specification<T>[ rand::random::<T> ]() -> (r: T)
    where
        rand::distributions::Standard: rand::distributions::Distribution<T>,
;

/// The row-major cell index of column `x`, row `y` on a map `w` cells wide.
pub open spec fn spec_flat_index(x: u8, y: u8, w: u8) -> int {
    (y as int) * (w as int) + (x as int)
}

/// A cell inside the bounds has its flat index inside the tile store, and
/// every such store fits comfortably in `usize`.
pub proof fn lemma_flat_index_in_range(x: u8, y: u8, w: u8, h: u8)
    requires
        x < w,
        y < h,
    ensures
        0 <= spec_flat_index(x, y, w) < (w as int) * (h as int),
        (w as int) * (h as int) <= 65025,
{
    assert((y as int) * (w as int) + (x as int) < (w as int) * (h as int)
        && (w as int) * (h as int) <= 65025) by (nonlinear_arith)
        requires
            x < w,
            y < h,
            w <= 255,
            h <= 255,
    ;
}

/// The map: fixed bounds, one terrain tile per cell, and at most one
/// occupying unit per cell, both stored row-major.
#[derive(Clone, Debug)]
pub struct TileMap {
    pub width: u8,
    pub height: u8,
    pub tiles: Vec<Terrain>,
    pub units: Vec<Option<Unit>>,
}

impl TileMap {
    /// Well-formed: positive bounds, and one slot per cell in both stores.
    pub open spec fn wf(&self) -> bool {
        &&& self.width > 0
        &&& self.height > 0
        &&& self.tiles@.len() == (self.width as int) * (self.height as int)
        &&& self.units@.len() == (self.width as int) * (self.height as int)
    }

    /// The terrain under a cell, as the tile store gives it.
    pub open spec fn spec_terrain_at(&self, x: u8, y: u8) -> Terrain {
        self.tiles@[spec_flat_index(x, y, self.width)]
    }

    /// The unit occupying a cell, if any.
    pub open spec fn spec_unit_at(&self, x: u8, y: u8) -> Option<Unit> {
        self.units@[spec_flat_index(x, y, self.width)]
    }

    /// An empty map of the given bounds: no tiles rolled yet, every
    /// occupancy slot vacant.
    pub fn new(width: u8, height: u8) -> (m: TileMap)
        requires
            width > 0,
            height > 0,
        ensures
            m.width == width,
            m.height == height,
            m.tiles@.len() == 0,
            m.units@.len() == (width as int) * (height as int),
            forall|i: int| 0 <= i < m.units@.len() ==> m.units@[i] is None,
    {
        proof {
            lemma_flat_index_in_range(0, 0, width, height);
        }
        let cells: usize = (width as usize) * (height as usize);
        let mut units: Vec<Option<Unit>> = Vec::new();
        let mut filled: usize = 0;
        while filled < cells
            invariant
                filled <= cells,
                units@.len() == filled,
                forall|i: int| 0 <= i < units@.len() ==> units@[i] is None,
            decreases cells - filled,
        {
            units.push(None);
            filled = filled + 1;
        }
        TileMap { width, height, tiles: Vec::new(), units }
    }

    /// A freshly generated session map: every cell's terrain rolled
    /// independently at random, one tank placed at the origin cell, and no
    /// other cell occupied.
    pub fn generate(width: u8, height: u8) -> (m: TileMap)
        requires
            width > 0,
            height > 0,
        ensures
            m.wf(),
            m.width == width,
            m.height == height,
            m.units@[0] == Some(Unit { kind: UnitKind::Tank }),
            forall|i: int| 1 <= i < m.units@.len() ==> m.units@[i] is None,
    {
        let mut m = TileMap::new(width, height);
        proof {
            lemma_flat_index_in_range(0, 0, width, height);
        }
        let cells: usize = (width as usize) * (height as usize);
        let mut rolled: usize = 0;
        while rolled < cells
            invariant
                rolled <= cells,
                m.tiles@.len() == rolled,
                m.width == width,
                m.height == height,
                m.units@.len() == cells,
                forall|i: int| 0 <= i < m.units@.len() ==> m.units@[i] is None,
            decreases cells - rolled,
        {
            let draw: u16 = rand::random();
            let terrain = terrain_of_draw(draw);
            m.tiles.push(terrain);
            rolled = rolled + 1;
        }
        m.units[0] = Some(Unit { kind: UnitKind::Tank });
        m
    }

    /// The terrain at a cell; the cell must lie on the map.
    pub fn terrain_at(&self, x: u8, y: u8) -> (t: Terrain)
        requires
            self.wf(),
            x < self.width,
            y < self.height,
        ensures
            t == self.spec_terrain_at(x, y),
    {
        proof {
            lemma_flat_index_in_range(x, y, self.width, self.height);
        }
        let index: usize = (y as usize) * (self.width as usize) + (x as usize);
        self.tiles[index]
    }

    /// The unit occupying a cell, if any; the cell must lie on the map.
    pub fn unit_at(&self, x: u8, y: u8) -> (u: Option<Unit>)
        requires
            self.wf(),
            x < self.width,
            y < self.height,
        ensures
            u == self.spec_unit_at(x, y),
    {
        proof {
            lemma_flat_index_in_range(x, y, self.width, self.height);
        }
        let index: usize = (y as usize) * (self.width as usize) + (x as usize);
        self.units[index]
    }
}

} // verus!

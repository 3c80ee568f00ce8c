//! Sprite-sheet atlases: a grid image sliced into equal tiles, addressed by a
//! linear index, and a registry that hands out integer handles to built
//! atlases.

use vstd::prelude::*;

verus! {

/// Why an atlas could not be built.
#[derive(Clone, Copy, PartialEq, Eq, Debug)]
pub enum AtlasError {
    /// The grid had zero columns or zero rows, which would make a zero-tile
    /// atlas; such an atlas is rejected at construction time.
    EmptyGrid,
    /// The tile count `columns * rows` does not fit in a machine word.
    TooManyTiles,
}

/// An image subdivided into a uniform grid of `columns x rows` equal tiles.
/// Immutable once built; a built atlas always holds at least one tile.
#[derive(Clone, Copy, PartialEq, Eq, Debug)]
pub struct Atlas {
    /// Width of one tile, in pixels.
    pub tile_width: u32,
    /// Height of one tile, in pixels.
    pub tile_height: u32,
    /// Number of tile columns in the grid; always positive.
    pub columns: usize,
    /// Number of tile rows in the grid; always positive.
    pub rows: usize,
}

impl Atlas {
    /// A built atlas has a positive grid whose tile count fits in a machine word.
    pub open spec fn wf(self) -> bool {
        0 < self.columns && 0 < self.rows && self.columns * self.rows <= usize::MAX
    }

    /// Total number of tiles in the grid.
    pub open spec fn total_tiles_spec(self) -> int {
        self.columns * self.rows
    }

    /// Build an atlas over a `columns x rows` grid of `tile_width x tile_height`
    /// tiles. Fails on an empty grid — zero columns or zero rows never yields a
    /// zero-tile atlas — and on a grid whose tile count overflows a machine word.
    pub fn from_grid(tile_width: u32, tile_height: u32, columns: usize, rows: usize) -> (r: Result<
        Atlas,
        AtlasError,
    >)
        ensures
            (columns == 0 || rows == 0) <==> r == Result::<Atlas, AtlasError>::Err(
                AtlasError::EmptyGrid,
            ),
            (columns > 0 && rows > 0 && columns * rows > usize::MAX) <==> r == Result::<
                Atlas,
                AtlasError,
            >::Err(AtlasError::TooManyTiles),
            r matches Ok(a) ==> a == (Atlas { tile_width, tile_height, columns, rows }) && a.wf(),
            (columns > 0 && rows > 0 && columns * rows <= usize::MAX) <==> r is Ok,
    {
        if columns == 0 || rows == 0 {
            return Err(AtlasError::EmptyGrid);
        }
        match columns.checked_mul(rows) {
            Some(_) => Ok(Atlas { tile_width, tile_height, columns, rows }),
            None => Err(AtlasError::TooManyTiles),
        }
    }

    /// Total number of tiles in the grid, always positive for a built atlas.
    pub fn total_tiles(&self) -> (n: usize)
        requires
            self.wf(),
        ensures
            n == self.total_tiles_spec(),
            0 < n,
    {
        proof {
            assert(0 < self.columns * self.rows) by (nonlinear_arith)
                requires
                    0 < self.columns,
                    0 < self.rows,
            ;
        }
        self.columns * self.rows
    }
}

/// A registry that owns built atlases and addresses them by the integer
/// handle under which each was added.
pub struct AtlasRegistry {
    /// The atlases added so far; the handle of each is its position here.
    pub atlases: Vec<Atlas>,
}

impl AtlasRegistry {
    /// Every atlas in the registry is well formed.
    pub open spec fn wf(self) -> bool {
        forall|i: int| 0 <= i < self.atlases@.len() ==> (#[trigger] self.atlases@[i]).wf()
    }

    /// An empty registry.
    pub fn new() -> (r: AtlasRegistry)
        ensures
            r.wf(),
            r.atlases@.len() == 0,
    {
        AtlasRegistry { atlases: Vec::new() }
    }

    /// Add a built atlas and return its handle: the registry never forgets or
    /// reorders atlases, so handles stay valid.
    pub fn add(&mut self, atlas: Atlas) -> (handle: usize)
        requires
            old(self).wf(),
            atlas.wf(),
        ensures
            final(self).wf(),
            final(self).atlases@ == old(self).atlases@.push(atlas),
            handle == old(self).atlases@.len(),
    {
        let handle = self.atlases.len();
        self.atlases.push(atlas);
        handle
    }

    /// Look an atlas up by handle; a handle that was never issued resolves to
    /// nothing.
    pub fn get(&self, handle: usize) -> (r: Option<&Atlas>)
        ensures
            handle < self.atlases@.len() ==> r == Some(&self.atlases@[handle as int]),
            handle >= self.atlases@.len() ==> r is None,
    {
        if handle < self.atlases.len() {
            Some(&self.atlases[handle])
        } else {
            None
        }
    }
}

} // verus!

//! The solid grid of a level, as the level loader hands it over.

use vstd::prelude::*;

verus! {

/// The edge of a tile, in pixels.
pub const TILE_SIZE: u32 = 16;

/// One layer of a level: `grid` holds rows of `width` cells each, row by
/// row; a cell above zero is solid.
pub struct Tilemap {
    pub width: u32,
    pub height: u32,
    pub grid: Vec<u32>,
}

/// The number of cells of `grid` that lie in complete rows of `width` cells.
pub open spec fn complete(grid: Seq<u32>, width: nat) -> nat
    recommends
        width > 0,
{
    (grid.len() - grid.len() % width) as nat
}

/// Column and row of the solid cells among the first `n` cells of `grid`, in
/// the order of the grid.
pub open spec fn solid_among(grid: Seq<u32>, width: nat, n: nat) -> Seq<(usize, usize)>
    recommends
        width > 0,
        n <= grid.len(),
    decreases n,
{
    if n == 0 {
        Seq::empty()
    } else {
        let i = (n - 1) as nat;
        let before = solid_among(grid, width, i);
        if grid[i as int] > 0 {
            before.push(((i % width) as usize, (i / width) as usize))
        } else {
            before
        }
    }
}

/// Column and row of the cell with index `i` in a grid of `width` columns.
pub open spec fn cell_of(i: int, width: nat) -> (usize, usize) {
    ((i % width as int) as usize, (i / width as int) as usize)
}

/// Solid cells. The listed cells are exactly the solid ones: a cell is
/// listed if and only if it is the cell of an index among the first `n` at
/// which the grid is above zero.
pub proof fn law_solid_cells(grid: Seq<u32>, width: nat, n: nat)
    requires
        width > 0,
        n <= grid.len(),
    ensures
        forall|cell: (usize, usize)|
            solid_among(grid, width, n).contains(cell) <==> exists|i: int|
                0 <= i < n && grid[i] > 0 && cell == #[trigger] cell_of(i, width),
    decreases n,
{
    if n > 0 {
        let last = (n - 1) as nat;
        let before = solid_among(grid, width, last);
        let all = solid_among(grid, width, n);
        law_solid_cells(grid, width, last);
        assert forall|cell: (usize, usize)| all.contains(cell) implies exists|i: int|
            0 <= i < n && grid[i] > 0 && cell == #[trigger] cell_of(i, width) by {
            let k = choose|k: int| 0 <= k < all.len() && all[k] == cell;
            if k < before.len() {
                assert(before[k] == cell);
                assert(before.contains(cell));
                let i = choose|i: int|
                    0 <= i < last && grid[i] > 0 && cell == #[trigger] cell_of(i, width);
                assert(0 <= i < n && grid[i] > 0 && cell == cell_of(i, width));
            } else {
                assert(cell == cell_of(last as int, width));
            }
        }
        assert forall|cell: (usize, usize)|
            (exists|i: int| 0 <= i < n && grid[i] > 0 && cell == #[trigger] cell_of(i, width))
            implies all.contains(cell) by {
            let i = choose|i: int| 0 <= i < n && grid[i] > 0 && cell == #[trigger] cell_of(i, width);
            if i < last {
                assert(before.contains(cell));
                let k = choose|k: int| 0 <= k < before.len() && before[k] == cell;
                assert(all[k] == cell);
            } else {
                assert(all[all.len() - 1] == cell);
            }
        }
    } else {
        assert forall|cell: (usize, usize)| !solid_among(grid, width, n).contains(cell) by {}
    }
}

impl Tilemap {
    /// Column and row of every solid cell that lies in a complete row, row by
    /// row and, within a row, column by column. Each such cell becomes a
    /// static platform of the level.
    pub fn solid_cells(&self) -> (cells: Vec<(usize, usize)>)
        requires
            self.width > 0,
        ensures
            cells@ == solid_among(
                self.grid@,
                self.width as nat,
                complete(self.grid@, self.width as nat),
            ),
    {
        let width = self.width as usize;
        let len = self.grid.len();
        assert(len % width <= len) by (nonlinear_arith)
            requires
                width > 0,
        ;
        let end = len - len % width;
        let mut cells: Vec<(usize, usize)> = Vec::new();
        let mut i: usize = 0;
        while i < end
            invariant
                i <= end <= self.grid.len(),
                width == self.width,
                width > 0,
                cells@ == solid_among(self.grid@, width as nat, i as nat),
            decreases end - i,
        {
            if self.grid[i] > 0 {
                cells.push((i % width, i / width));
            }
            i += 1;
        }
        cells
    }
}

} // verus!

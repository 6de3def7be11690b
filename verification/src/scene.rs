//! What the window shows: the size of its surface and the tiles laid out on it.

use vstd::prelude::*;

verus! {

/// A size in pixels.
#[derive(Clone, Copy, Debug, PartialEq, Eq, Structural)]
pub struct Extent {
    pub width: u32,
    pub height: u32,
}

/// One tile of the grid: its column, its row and its texture.
#[derive(Clone, Copy, Debug, PartialEq, Eq, Structural)]
pub struct Tile {
    pub x: u32,
    pub y: u32,
    pub tex_id: u32,
}

impl Extent {
    /// Whether a surface of this size has pixels to draw to.
    pub open spec fn drawable(self) -> bool {
        self.width > 0 && self.height > 0
    }

    /// Whether a surface can take this size: a size without pixels is ignored.
    pub fn is_drawable(&self) -> (drawable: bool)
        ensures
            drawable == self.drawable(),
    {
        self.width > 0 && self.height > 0
    }
}

/// The place of the tile in column `x` of row `y` in a grid's storage: rows one
/// after the other.
pub open spec fn tile_index(per_row: int, x: int, y: int) -> int {
    y * per_row + x
}

/// The tiles of a square grid, row by row, all with the first texture.
pub fn tile_grid(per_row: u32) -> (tiles: Vec<Tile>)
    ensures
        tiles@.len() == per_row * per_row,
        forall|x: int, y: int|
            0 <= x < per_row && 0 <= y < per_row ==> #[trigger] tiles@[tile_index(
                per_row as int,
                x,
                y,
            )] == (Tile { x: x as u32, y: y as u32, tex_id: 0 }),
{
    let mut tiles: Vec<Tile> = Vec::new();
    let ghost n = per_row as int;
    let mut y: u32 = 0;
    while y < per_row
        invariant
            y <= per_row,
            n == per_row,
            tiles@.len() == tile_index(n, 0, y as int),
            forall|x1: int, y1: int|
                0 <= x1 < n && 0 <= y1 < y ==> #[trigger] tiles@[tile_index(n, x1, y1)] == (Tile {
                    x: x1 as u32,
                    y: y1 as u32,
                    tex_id: 0,
                }),
        decreases per_row - y,
    {
        let mut x: u32 = 0;
        while x < per_row
            invariant
                y < per_row,
                x <= per_row,
                n == per_row,
                tiles@.len() == tile_index(n, x as int, y as int),
                forall|x1: int, y1: int|
                    0 <= x1 < n && (0 <= y1 < y || (y1 == y && x1 < x)) ==> #[trigger] tiles@[tile_index(
                        n,
                        x1,
                        y1,
                    )] == (Tile { x: x1 as u32, y: y1 as u32, tex_id: 0 }),
            decreases per_row - x,
        {
            tiles.push(Tile { x, y, tex_id: 0 });
            proof {
                assert forall|x1: int, y1: int|
                    0 <= x1 < n && (0 <= y1 < y || (y1 == y && x1 < x + 1)) implies #[trigger] tiles@[tile_index(
                        n,
                        x1,
                        y1,
                    )] == (Tile { x: x1 as u32, y: y1 as u32, tex_id: 0 }) by {
                    if y1 < y {
                        assert(y1 * n + n <= y * n) by (nonlinear_arith)
                            requires
                                y1 < y,
                                n >= 0,
                        ;
                        assert(y1 * n >= 0) by (nonlinear_arith)
                            requires
                                y1 >= 0,
                                n >= 0,
                        ;
                    } else if x1 < x {
                        assert(y * n >= 0) by (nonlinear_arith)
                            requires
                                y >= 0,
                                n >= 0,
                        ;
                    }
                }
            }
            x = x + 1;
        }
        proof {
            assert(tile_index(n, n, y as int) == tile_index(n, 0, y as int + 1))
                by (nonlinear_arith);
        }
        y = y + 1;
    }
    tiles
}

} // verus!

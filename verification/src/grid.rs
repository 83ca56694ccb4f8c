//! The dense, row-major store of tiles.

use vstd::prelude::*;

use crate::error::Error;
use crate::point::Point;

verus! {

/// A grid as a mathematical value: its size, and the tile of each of its
/// cells.
#[verifier::ext_equal]
pub struct GridView {
    pub width: u16,
    pub height: u16,
    pub tiles: Map<Point<u16>, u16>,
}

impl GridView {
    /// Whether `position` names a cell of the grid.
    pub open spec fn in_bounds(self, position: Point<u16>) -> bool {
        position.x < self.width && position.y < self.height
    }

    /// Whether `position` lies on the outermost ring of cells.
    pub open spec fn at_edge(self, position: Point<u16>) -> bool {
        position.x == 0 || position.x == self.width - 1 || position.y == 0 || position.y
            == self.height - 1
    }

    /// The grid has a tile for each of its cells and for nothing else.
    pub open spec fn wf(self) -> bool {
        &&& self.width > 0
        &&& self.height > 0
        &&& forall|position: Point<u16>| #[trigger]
            self.tiles.contains_key(position) <==> self.in_bounds(position)
    }

    /// This grid with `tile` written to the cell at `position`.
    pub open spec fn with_tile(self, position: Point<u16>, tile: u16) -> GridView {
        GridView { tiles: self.tiles.insert(position, tile), ..self }
    }
}

/// The place of a cell in row-major order: the rows lie one after another,
/// each `width` cells long.
pub open spec fn cell_index(width: u16, position: Point<u16>) -> int {
    position.y * width + position.x
}

/// Every cell of a grid has its own place in row-major order, and the
/// places fill the range below `width * height`.
pub proof fn lemma_cell_index(width: u16, height: u16, p: Point<u16>, q: Point<u16>)
    requires
        p.x < width,
        p.y < height,
        q.x < width,
        q.y < height,
    ensures
        0 <= cell_index(width, p) < width * height,
        0 <= cell_index(width, q) < width * height,
        cell_index(width, p) == cell_index(width, q) ==> p == q,
{
    assert(p.y * width <= (height - 1) * width) by (nonlinear_arith)
        requires
            p.y <= height - 1,
            width >= 0,
    ;
    assert(q.y * width <= (height - 1) * width) by (nonlinear_arith)
        requires
            q.y <= height - 1,
            width >= 0,
    ;
    assert((height - 1) * width == height * width - width) by (nonlinear_arith);
    assert(width * height == height * width) by (nonlinear_arith);
    if p.y < q.y {
        assert((p.y + 1) * width <= q.y * width) by (nonlinear_arith)
            requires
                p.y + 1 <= q.y,
                width >= 0,
        ;
        assert((p.y + 1) * width == p.y * width + width) by (nonlinear_arith);
    }
    if q.y < p.y {
        assert((q.y + 1) * width <= p.y * width) by (nonlinear_arith)
            requires
                q.y + 1 <= p.y,
                width >= 0,
        ;
        assert((q.y + 1) * width == q.y * width + width) by (nonlinear_arith);
    }
}

/// A grid of tiles, stored row by row.
pub struct Grid {
    width: u16,
    height: u16,
    tiles: Vec<u16>,
}

impl View for Grid {
    type V = GridView;

    closed spec fn view(&self) -> GridView {
        GridView {
            width: self.width,
            height: self.height,
            tiles: Map::new(
                |position: Point<u16>| position.x < self.width && position.y < self.height,
                |position: Point<u16>| self.tiles@[cell_index(self.width, position)],
            ),
        }
    }
}

impl Grid {
    /// The store holds exactly one tile for each cell.
    pub closed spec fn wf(&self) -> bool {
        &&& self.width > 0
        &&& self.height > 0
        &&& self.tiles@.len() == self.width * self.height
    }

    /// A well-formed grid has a well-formed view.
    pub proof fn lemma_view_wf(&self)
        requires
            self.wf(),
        ensures
            self@.wf(),
    {
    }

    /// A grid of the given size with `tile` in every cell.
    pub fn new(width: u16, height: u16, tile: u16) -> (grid: Self)
        requires
            width > 0,
            height > 0,
        ensures
            grid.wf(),
            grid@.wf(),
            grid@.width == width,
            grid@.height == height,
            forall|position: Point<u16>|
                grid@.in_bounds(position) ==> #[trigger] grid@.tiles[position] == tile,
    {
        assert(width * height <= 65535 * 65535) by (nonlinear_arith)
            requires
                width <= 65535,
                height <= 65535,
        ;
        let tile_count: usize = width as usize * height as usize;
        let mut tiles: Vec<u16> = Vec::new();
        let mut filled: usize = 0;
        while filled < tile_count
            invariant
                filled <= tile_count,
                tiles@.len() == filled,
                forall|i: int| 0 <= i < filled ==> tiles@[i] == tile,
            decreases tile_count - filled,
        {
            tiles.push(tile);
            filled += 1;
        }
        let grid = Grid { width, height, tiles };
        assert forall|position: Point<u16>| grid@.in_bounds(position) implies #[trigger]
            grid@.tiles[position] == tile by {
            lemma_cell_index(width, height, position, position);
        }
        grid
    }

    /// The number of columns.
    pub fn width(&self) -> (width: u16)
        ensures
            width == self@.width,
    {
        self.width
    }

    /// The number of rows.
    pub fn height(&self) -> (height: u16)
        ensures
            height == self@.height,
    {
        self.height
    }

    /// Whether `position` names a cell of the grid.
    pub fn in_bounds(&self, position: Point<u16>) -> (inside: bool)
        ensures
            inside == self@.in_bounds(position),
    {
        position.x < self.width && position.y < self.height
    }

    /// The place of the cell at `position` in row-major order.
    pub fn index(&self, position: Point<u16>) -> (index: usize)
        requires
            self.wf(),
            self@.in_bounds(position),
        ensures
            index == cell_index(self@.width, position),
            index < self@.width * self@.height,
    {
        proof {
            lemma_cell_index(self.width, self.height, position, position);
            assert(self.width * self.height <= 65535 * 65535) by (nonlinear_arith)
                requires
                    self.width <= 65535,
                    self.height <= 65535,
            ;
            assert(position.y * self.width <= 65535 * 65535) by (nonlinear_arith)
                requires
                    self.width <= 65535,
                    position.y <= 65535,
            ;
        }
        position.y as usize * self.width as usize + position.x as usize
    }

    /// Whether `position` lies on the outermost ring of cells.
    pub fn at_edge(&self, position: Point<u16>) -> (edge: bool)
        requires
            self.wf(),
        ensures
            edge == self@.at_edge(position),
    {
        position.x == 0 || position.x == self.width - 1 || position.y == 0 || position.y
            == self.height - 1
    }

    /// The tile of the cell at `position`; a position outside the grid is
    /// refused.
    pub fn get_tile(&self, position: Point<u16>) -> (tile: Result<u16, Error>)
        requires
            self.wf(),
        ensures
            self@.in_bounds(position) ==> tile == Ok::<u16, Error>(self@.tiles[position]),
            !self@.in_bounds(position) ==> tile == Err::<u16, Error>(
                Error::InvalidPosition(position),
            ),
    {
        if !self.in_bounds(position) {
            return Err(Error::InvalidPosition(position));
        }
        let index = self.index(position);
        Ok(self.tiles[index])
    }

    /// Writes `tile` to the cell at `position` and leaves every other cell
    /// as it is.
    pub fn set_tile(&mut self, position: Point<u16>, tile: u16)
        requires
            old(self).wf(),
            old(self)@.in_bounds(position),
        ensures
            final(self).wf(),
            final(self)@ == old(self)@.with_tile(position, tile),
    {
        let index = self.index(position);
        self.tiles[index] = tile;
        proof {
            assert forall|other: Point<u16>| self@.in_bounds(other) implies #[trigger]
                self@.tiles[other] == old(self)@.with_tile(position, tile).tiles[other] by {
                lemma_cell_index(self.width, self.height, position, other);
            }
            assert(self@.tiles =~= old(self)@.with_tile(position, tile).tiles);
        }
    }
}

} // verus!

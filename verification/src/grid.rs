//! A fixed-size 2D grid of tile slots.
//!
//! Each slot optionally holds a [`Tile`]: a texture atlas index together with
//! a tint. The grid is stored row-major in a single vector; the
//! well-formedness predicate [`TileGrid::wf`] ties the vector's length to the
//! declared width and height.

use vstd::prelude::*;

verus! {

/// The tint a tile is drawn with.
#[derive(Clone, Copy, PartialEq, Eq, Structural, Debug)]
pub enum TileTint {
    Black,
    White,
}

/// One tile: an index into the texture atlas, and a tint.
#[derive(Clone, Copy, PartialEq, Eq, Structural, Debug)]
pub struct Tile {
    pub texture_index: u32,
    pub tint: TileTint,
}

/// A placed tile: a grid coordinate together with the tile that fills it.
#[derive(Clone, Copy, PartialEq, Eq, Structural, Debug)]
pub struct PlacedTile {
    pub x: u32,
    pub y: u32,
    pub tile: Tile,
}

/// A fixed-size grid of tile slots, each optionally holding a tile.
pub struct TileGrid {
    width: u32,
    height: u32,
    slots: Vec<Option<Tile>>,
}

/// Positions `(x1, y1)` and `(x2, y2)` with `x` bounded by `w` map to the
/// same row-major index only if they are the same position.
proof fn lemma_row_major_injective(x1: int, y1: int, x2: int, y2: int, w: int)
    by (nonlinear_arith)
    requires
        0 <= x1 < w,
        0 <= x2 < w,
        0 <= y1,
        0 <= y2,
        y1 * w + x1 == y2 * w + x2,
    ensures
        x1 == x2,
        y1 == y2,
{
}

/// A row-major index of an in-bounds position lies within the grid's area.
proof fn lemma_row_major_bounds(x: int, y: int, w: int, h: int)
    by (nonlinear_arith)
    requires
        0 <= x < w,
        0 <= y < h,
    ensures
        0 <= y * w + x < w * h,
{
}

impl TileGrid {
    /// The declared width, as seen by specifications.
    pub closed spec fn spec_width(self) -> u32 {
        self.width
    }

    /// The declared height, as seen by specifications.
    pub closed spec fn spec_height(self) -> u32 {
        self.height
    }

    /// Well-formedness: the slot vector covers exactly width * height cells.
    pub closed spec fn wf(self) -> bool {
        self.slots@.len() == self.width * self.height
    }

    /// The slot at position `(x, y)`, row-major.
    pub closed spec fn tile_at(self, x: int, y: int) -> Option<Tile>
        recommends
            0 <= x < self.spec_width(),
            0 <= y < self.spec_height(),
    {
        self.slots@[y * self.spec_width() + x]
    }

    /// Whether `(x, y)` lies within this grid's bounds.
    pub open spec fn in_bounds(self, x: int, y: int) -> bool {
        0 <= x < self.spec_width() && 0 <= y < self.spec_height()
    }

    /// Creates a grid of the given dimensions with every slot empty.
    pub fn new(width: u32, height: u32) -> (g: TileGrid)
        requires
            width * height <= usize::MAX,
        ensures
            g.wf(),
            g.spec_width() == width,
            g.spec_height() == height,
            forall|x: int, y: int|
                g.in_bounds(x, y) ==> #[trigger] g.tile_at(x, y) is None,
    {
        let total: usize = (width as usize) * (height as usize);
        let mut slots: Vec<Option<Tile>> = Vec::new();
        while slots.len() < total
            invariant
                slots@.len() <= total,
                forall|i: int| 0 <= i < slots@.len() ==> #[trigger] slots@[i] is None,
            decreases total - slots@.len(),
        {
            slots.push(None);
        }
        let g = TileGrid { width, height, slots };
        proof {
            assert forall|x: int, y: int| g.in_bounds(x, y) implies #[trigger] g.tile_at(
                x,
                y,
            ) is None by {
                lemma_row_major_bounds(x, y, width as int, height as int);
            }
        }
        g
    }

    /// Returns the grid's width.
    pub fn width(&self) -> (r: u32)
        ensures
            r == self.spec_width(),
    {
        self.width
    }

    /// Returns the grid's height.
    pub fn height(&self) -> (r: u32)
        ensures
            r == self.spec_height(),
    {
        self.height
    }

    /// Reads the slot at `(x, y)`.
    pub fn get_tile(&self, x: u32, y: u32) -> (r: Option<Tile>)
        requires
            self.wf(),
            self.in_bounds(x as int, y as int),
        ensures
            r == self.tile_at(x as int, y as int),
    {
        proof {
            lemma_row_major_bounds(
                x as int,
                y as int,
                self.width as int,
                self.height as int,
            );
        }
        let n: usize = self.slots.len();
        let idx: usize = (y as usize) * (self.width as usize) + (x as usize);
        assert(idx < n);
        self.slots[idx]
    }

    /// Places `tile` at `(x, y)`, replacing whatever the slot held; every
    /// other slot is unchanged.
    pub fn set_tile(&mut self, x: u32, y: u32, tile: Tile)
        requires
            old(self).wf(),
            old(self).in_bounds(x as int, y as int),
        ensures
            final(self).wf(),
            final(self).spec_width() == old(self).spec_width(),
            final(self).spec_height() == old(self).spec_height(),
            final(self).tile_at(x as int, y as int) == Some(tile),
            forall|i: int, j: int|
                old(self).in_bounds(i, j) && (i != x || j != y)
                    ==> #[trigger] final(self).tile_at(i, j) == old(self).tile_at(i, j),
    {
        proof {
            lemma_row_major_bounds(
                x as int,
                y as int,
                self.width as int,
                self.height as int,
            );
        }
        let n: usize = self.slots.len();
        let idx: usize = (y as usize) * (self.width as usize) + (x as usize);
        assert(idx < n);
        self.slots.set(idx, Some(tile));
        proof {
            let w = self.width as int;
            assert forall|i: int, j: int|
                old(self).in_bounds(i, j) && (i != x || j != y) implies #[trigger] self.tile_at(
                i,
                j,
            ) == old(self).tile_at(i, j) by {
                lemma_row_major_bounds(i, j, w, self.height as int);
                if j * w + i == y * w + x {
                    lemma_row_major_injective(i, j, x as int, y as int, w);
                }
            }
        }
    }

    /// Places `tile` in every slot of the rectangle whose lower-left corner
    /// is `(x0, y0)` and whose extent is `rect_w` by `rect_h`; every slot
    /// outside the rectangle is unchanged.
    pub fn fill_rect(&mut self, x0: u32, y0: u32, rect_w: u32, rect_h: u32, tile: Tile)
        requires
            old(self).wf(),
            x0 + rect_w <= old(self).spec_width(),
            y0 + rect_h <= old(self).spec_height(),
        ensures
            final(self).wf(),
            final(self).spec_width() == old(self).spec_width(),
            final(self).spec_height() == old(self).spec_height(),
            forall|i: int, j: int|
                in_rect(x0 as int, y0 as int, rect_w as int, rect_h as int, i, j)
                    ==> #[trigger] final(self).tile_at(i, j) == Some(tile),
            forall|i: int, j: int|
                old(self).in_bounds(i, j) && !in_rect(
                    x0 as int,
                    y0 as int,
                    rect_w as int,
                    rect_h as int,
                    i,
                    j,
                ) ==> #[trigger] final(self).tile_at(i, j) == old(self).tile_at(i, j),
    {
        let mut y: u32 = y0;
        while y < y0 + rect_h
            invariant
                self.wf(),
                self.spec_width() == old(self).spec_width(),
                self.spec_height() == old(self).spec_height(),
                x0 + rect_w <= self.spec_width(),
                y0 + rect_h <= self.spec_height(),
                y0 <= y <= y0 + rect_h,
                forall|i: int, j: int|
                    in_rect(x0 as int, y0 as int, rect_w as int, (y - y0) as int, i, j)
                        ==> #[trigger] self.tile_at(i, j) == Some(tile),
                forall|i: int, j: int|
                    old(self).in_bounds(i, j) && !in_rect(
                        x0 as int,
                        y0 as int,
                        rect_w as int,
                        rect_h as int,
                        i,
                        j,
                    ) ==> #[trigger] self.tile_at(i, j) == old(self).tile_at(i, j),
            decreases y0 + rect_h - y,
        {
            let mut x: u32 = x0;
            while x < x0 + rect_w
                invariant
                    self.wf(),
                    self.spec_width() == old(self).spec_width(),
                    self.spec_height() == old(self).spec_height(),
                    x0 + rect_w <= self.spec_width(),
                    y0 + rect_h <= self.spec_height(),
                    y0 <= y < y0 + rect_h,
                    x0 <= x <= x0 + rect_w,
                    forall|i: int, j: int|
                        in_rect(x0 as int, y0 as int, rect_w as int, (y - y0) as int, i, j)
                            ==> #[trigger] self.tile_at(i, j) == Some(tile),
                    forall|i: int|
                        x0 <= i < x ==> #[trigger] self.tile_at(i, y as int) == Some(tile),
                    forall|i: int, j: int|
                        old(self).in_bounds(i, j) && !in_rect(
                            x0 as int,
                            y0 as int,
                            rect_w as int,
                            rect_h as int,
                            i,
                            j,
                        ) ==> #[trigger] self.tile_at(i, j) == old(self).tile_at(i, j),
                decreases x0 + rect_w - x,
            {
                self.set_tile(x, y, tile);
                x = x + 1;
            }
            y = y + 1;
        }
    }

    /// Lists every occupied slot as a placed tile. Each entry records a
    /// slot's coordinate and its tile, every occupied slot is listed, and no
    /// two entries share a coordinate.
    pub fn occupied_tiles(&self) -> (r: Vec<PlacedTile>)
        requires
            self.wf(),
        ensures
            forall|k: int|
                0 <= k < r@.len() ==> self.in_bounds(
                    #[trigger] r@[k].x as int,
                    r@[k].y as int,
                ) && self.tile_at(r@[k].x as int, r@[k].y as int) == Some(r@[k].tile),
            forall|k1: int, k2: int|
                0 <= k1 < k2 < r@.len() ==> (#[trigger] r@[k1]).x != (#[trigger] r@[k2]).x
                    || r@[k1].y != r@[k2].y,
            forall|i: int, j: int|
                self.in_bounds(i, j) && (#[trigger] self.tile_at(i, j)) is Some
                    ==> exists|k: int|
                        0 <= k < r@.len() && (#[trigger] r@[k]).x == i && r@[k].y == j
                            && Some(r@[k].tile) == self.tile_at(i, j),
    {
        let mut r: Vec<PlacedTile> = Vec::new();
        let mut y: u32 = 0;
        while y < self.height
            invariant
                self.wf(),
                y <= self.spec_height(),
                forall|k: int|
                    0 <= k < r@.len() ==> self.in_bounds(
                        #[trigger] r@[k].x as int,
                        r@[k].y as int,
                    ) && self.tile_at(r@[k].x as int, r@[k].y as int) == Some(r@[k].tile),
                forall|k: int| 0 <= k < r@.len() ==> (#[trigger] r@[k]).y < y,
                forall|k1: int, k2: int|
                    0 <= k1 < k2 < r@.len() ==> (#[trigger] r@[k1]).x != (#[trigger] r@[k2]).x
                        || r@[k1].y != r@[k2].y,
                forall|i: int, j: int|
                    0 <= i < self.spec_width() && 0 <= j < y && (#[trigger] self.tile_at(
                        i,
                        j,
                    )) is Some ==> exists|k: int|
                        0 <= k < r@.len() && (#[trigger] r@[k]).x == i && r@[k].y == j
                            && Some(r@[k].tile) == self.tile_at(i, j),
            decreases self.spec_height() - y,
        {
            let mut x: u32 = 0;
            while x < self.width
                invariant
                    self.wf(),
                    y < self.spec_height(),
                    x <= self.spec_width(),
                    forall|k: int|
                        0 <= k < r@.len() ==> self.in_bounds(
                            #[trigger] r@[k].x as int,
                            r@[k].y as int,
                        ) && self.tile_at(r@[k].x as int, r@[k].y as int) == Some(r@[k].tile),
                    forall|k: int|
                        0 <= k < r@.len() ==> (#[trigger] r@[k]).y < y || (r@[k].y == y
                            && r@[k].x < x),
                    forall|k1: int, k2: int|
                        0 <= k1 < k2 < r@.len() ==> (#[trigger] r@[k1]).x != (#[trigger] r@[k2]).x
                            || r@[k1].y != r@[k2].y,
                    forall|i: int, j: int|
                        0 <= i < self.spec_width() && 0 <= j < y && (#[trigger] self.tile_at(
                            i,
                            j,
                        )) is Some ==> exists|k: int|
                            0 <= k < r@.len() && (#[trigger] r@[k]).x == i && r@[k].y == j
                                && Some(r@[k].tile) == self.tile_at(i, j),
                    forall|i: int|
                        0 <= i < x && (#[trigger] self.tile_at(i, y as int)) is Some
                            ==> exists|k: int|
                                0 <= k < r@.len() && (#[trigger] r@[k]).x == i && r@[k].y == y
                                    && Some(r@[k].tile) == self.tile_at(i, y as int),
                decreases self.spec_width() - x,
            {
                let ghost r_prev = r@;
                match self.get_tile(x, y) {
                    Some(tile) => {
                        r.push(PlacedTile { x, y, tile });
                        proof {
                            assert forall|i: int, j: int|
                                0 <= i < self.spec_width() && 0 <= j < y
                                    && (#[trigger] self.tile_at(i, j)) is Some implies exists|k: int|
                                0 <= k < r@.len() && (#[trigger] r@[k]).x == i && r@[k].y == j
                                    && Some(r@[k].tile) == self.tile_at(i, j) by {
                                let k0 = choose|k: int|
                                    0 <= k < r_prev.len() && (#[trigger] r_prev[k]).x == i
                                        && r_prev[k].y == j && Some(r_prev[k].tile)
                                        == self.tile_at(i, j);
                                assert(r@[k0] == r_prev[k0]);
                            }
                            assert forall|i: int|
                                0 <= i < x + 1 && (#[trigger] self.tile_at(i, y as int)) is Some
                                    implies exists|k: int|
                                0 <= k < r@.len() && (#[trigger] r@[k]).x == i && r@[k].y == y
                                    && Some(r@[k].tile) == self.tile_at(i, y as int) by {
                                if i == x {
                                    assert(r@[r@.len() - 1].x == i && r@[r@.len() - 1].y == y
                                        && Some(r@[r@.len() - 1].tile) == self.tile_at(
                                        i,
                                        y as int,
                                    ));
                                } else {
                                    let k0 = choose|k: int|
                                        0 <= k < r_prev.len() && (#[trigger] r_prev[k]).x == i
                                            && r_prev[k].y == y && Some(r_prev[k].tile)
                                            == self.tile_at(i, y as int);
                                    assert(r@[k0] == r_prev[k0]);
                                }
                            }
                        }
                    },
                    None => {},
                }
                x = x + 1;
            }
            y = y + 1;
        }
        r
    }
}

impl View for TileGrid {
    type V = Map<(int, int), Option<Tile>>;

    /// A grid is viewed as the map from each in-bounds coordinate to its slot.
    open spec fn view(&self) -> Map<(int, int), Option<Tile>> {
        Map::new(
            |p: (int, int)| self.in_bounds(p.0, p.1),
            |p: (int, int)| self.tile_at(p.0, p.1),
        )
    }
}

/// Whether `(x, y)` lies in the rectangle at `(x0, y0)` of extent `w` by `h`.
pub open spec fn in_rect(x0: int, y0: int, w: int, h: int, x: int, y: int) -> bool {
    x0 <= x < x0 + w && y0 <= y < y0 + h
}

} // verus!

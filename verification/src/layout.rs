//! The calendar scene layout.
//!
//! A month view is drawn on a fixed grid: a uniform background fill over the
//! whole grid, a header row of seven weekday tiles, and a uniform body fill
//! over the day-cell region. Each weekday's header tile stands in the column
//! given by its ordinal and carries the matching texture atlas index, so
//! Monday maps to texture 0 through Sunday to texture 6.

use vstd::prelude::*;

use crate::grid::{Tile, TileGrid, TileTint};
use crate::weekday::Weekday;

verus! {

/// Number of weekdays, and the width in tiles of the header and body regions.
pub const WEEKDAY_COUNT: u32 = 7;

/// Grid width in tiles: seven weekday-label columns, a spacer column, seven
/// day-cell columns, and a trailing spacer column.
pub const GRID_WIDTH: u32 = 7 + 1 + 7 + 1;

/// Grid height in tiles: a header row and six week rows above and below.
pub const GRID_HEIGHT: u32 = 1 + 6 + 6;

/// The row holding the seven weekday-label tiles.
pub const HEADER_ROW: u32 = 11;

/// First row of the day-cell body region.
pub const BODY_FIRST_ROW: u32 = 6;

/// Number of rows in the day-cell body region.
pub const BODY_ROW_COUNT: u32 = 5;

/// Texture atlas index of the uniform fill tile.
pub const FILL_TEXTURE: u32 = 7;

/// The tile filling the background: the fill texture, tinted black.
pub open spec fn background_fill_tile() -> Tile {
    Tile { texture_index: FILL_TEXTURE, tint: TileTint::Black }
}

/// The tile filling the day-cell body region: the fill texture, untinted.
pub open spec fn body_fill_tile() -> Tile {
    Tile { texture_index: FILL_TEXTURE, tint: TileTint::White }
}

/// The weekday-label tile of header column `x`: its texture atlas index
/// equals its column, untinted.
pub open spec fn header_tile(x: int) -> Tile {
    Tile { texture_index: x as u32, tint: TileTint::White }
}

/// Whether `(x, y)` lies within the calendar grid.
pub open spec fn in_grid(x: int, y: int) -> bool {
    0 <= x < GRID_WIDTH && 0 <= y < GRID_HEIGHT
}

/// Whether `(x, y)` is one of the seven weekday-header cells.
pub open spec fn in_header(x: int, y: int) -> bool {
    y == HEADER_ROW && 0 <= x < WEEKDAY_COUNT
}

/// Whether `(x, y)` lies in the day-cell body region.
pub open spec fn in_body(x: int, y: int) -> bool {
    0 <= x < WEEKDAY_COUNT && BODY_FIRST_ROW <= y < BODY_FIRST_ROW + BODY_ROW_COUNT
}

/// The tile the finished layout holds at `(x, y)`: a weekday label on the
/// header cells, the body fill on the day-cell region, and the background
/// fill everywhere else.
pub open spec fn expected_tile(x: int, y: int) -> Tile {
    if in_header(x, y) {
        header_tile(x)
    } else if in_body(x, y) {
        body_fill_tile()
    } else {
        background_fill_tile()
    }
}

/// A finished calendar grid: well-formed, of the declared dimensions, with
/// every cell holding exactly the expected tile.
pub open spec fn is_calendar_layout(g: TileGrid) -> bool {
    &&& g.wf()
    &&& g.spec_width() == GRID_WIDTH
    &&& g.spec_height() == GRID_HEIGHT
    &&& forall|x: int, y: int|
        in_grid(x, y) ==> #[trigger] g.tile_at(x, y) == Some(expected_tile(x, y))
}

/// Builds the calendar scene's tile grid: a background fill over the whole
/// grid, one weekday-label tile per weekday on the header row, and a body
/// fill over the day-cell region.
pub fn build_calendar_grid() -> (g: TileGrid)
    ensures
        is_calendar_layout(g),
{
    let mut g = TileGrid::new(GRID_WIDTH, GRID_HEIGHT);
    g.fill_rect(
        0,
        0,
        GRID_WIDTH,
        GRID_HEIGHT,
        Tile { texture_index: FILL_TEXTURE, tint: TileTint::Black },
    );
    let week = Weekday::week_from_monday();
    let mut i: usize = 0;
    while i < 7
        invariant
            g.wf(),
            g.spec_width() == GRID_WIDTH,
            g.spec_height() == GRID_HEIGHT,
            week@.len() == 7,
            forall|k: int| 0 <= k < 7 ==> #[trigger] week@[k].ordinal_spec() == k + 1,
            i <= 7,
            forall|x: int, y: int|
                in_grid(x, y) && y == HEADER_ROW && 0 <= x < i ==> #[trigger] g.tile_at(x, y)
                    == Some(header_tile(x)),
            forall|x: int, y: int|
                in_grid(x, y) && !(y == HEADER_ROW && 0 <= x < i) ==> #[trigger] g.tile_at(x, y)
                    == Some(background_fill_tile()),
        decreases 7 - i,
    {
        let day = week[i];
        let col: u32 = day.ordinal() - 1;
        g.set_tile(col, HEADER_ROW, Tile { texture_index: col, tint: TileTint::White });
        i = i + 1;
    }
    g.fill_rect(
        0,
        BODY_FIRST_ROW,
        WEEKDAY_COUNT,
        BODY_ROW_COUNT,
        Tile { texture_index: FILL_TEXTURE, tint: TileTint::White },
    );
    g
}

/// The grid is 16 tiles wide and 13 tiles tall.
pub proof fn lemma_grid_dimensions()
    ensures
        GRID_WIDTH == 16,
        GRID_HEIGHT == 13,
{
}

/// Each weekday's header tile stands at column `ordinal - 1` of the header
/// row and carries texture atlas index `(ordinal - 1) % 7`.
pub proof fn lemma_header_tile_of_weekday(g: TileGrid, w: Weekday)
    requires
        is_calendar_layout(g),
    ensures
        g.tile_at(w.ordinal_spec() - 1, HEADER_ROW as int) == Some(
            header_tile(w.ordinal_spec() - 1),
        ),
        header_tile(w.ordinal_spec() - 1).texture_index == (w.ordinal_spec() - 1) % 7,
{
    assert(1 <= w.ordinal_spec() <= 7);
    assert(g.tile_at(w.ordinal_spec() - 1, HEADER_ROW as int) == Some(
        expected_tile(w.ordinal_spec() - 1, HEADER_ROW as int),
    ));
}

/// The day-cell body region does not overlap the header cells.
pub proof fn lemma_body_region_avoids_header(x: int, y: int)
    ensures
        !(in_header(x, y) && in_body(x, y)),
{
}

/// On a finished calendar grid, no header cell holds the background fill or
/// the body fill: the fills do not overlap the header row's weekday tiles.
pub proof fn lemma_fills_avoid_header(g: TileGrid, x: int, y: int)
    requires
        is_calendar_layout(g),
        in_header(x, y),
    ensures
        g.tile_at(x, y) != Some(background_fill_tile()),
        g.tile_at(x, y) != Some(body_fill_tile()),
{
    assert(g.tile_at(x, y) == Some(expected_tile(x, y)));
}

/// The layout is deterministic: any two finished calendar grids are
/// identical, cell for cell.
pub proof fn lemma_layout_deterministic(g1: TileGrid, g2: TileGrid)
    requires
        is_calendar_layout(g1),
        is_calendar_layout(g2),
    ensures
        g1@ == g2@,
{
    assert forall|p: (int, int)| g1@.dom().contains(p) implies g1@[p] == g2@[p] by {
        assert(g1.tile_at(p.0, p.1) == Some(expected_tile(p.0, p.1)));
        assert(g2.tile_at(p.0, p.1) == Some(expected_tile(p.0, p.1)));
    }
    assert(g1@ =~= g2@);
}

} // verus!

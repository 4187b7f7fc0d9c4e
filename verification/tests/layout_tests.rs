use calendar_tiles::grid::{Tile, TileTint};
use calendar_tiles::layout::{
    build_calendar_grid, BODY_FIRST_ROW, BODY_ROW_COUNT, FILL_TEXTURE, GRID_HEIGHT, GRID_WIDTH,
    HEADER_ROW, WEEKDAY_COUNT,
};
use calendar_tiles::weekday::Weekday;

fn background() -> Tile {
    Tile { texture_index: FILL_TEXTURE, tint: TileTint::Black }
}

fn body_fill() -> Tile {
    Tile { texture_index: FILL_TEXTURE, tint: TileTint::White }
}

fn in_header(x: u32, y: u32) -> bool {
    y == HEADER_ROW && x < WEEKDAY_COUNT
}

fn in_body(x: u32, y: u32) -> bool {
    x < WEEKDAY_COUNT && (BODY_FIRST_ROW..BODY_FIRST_ROW + BODY_ROW_COUNT).contains(&y)
}

#[test]
fn grid_dimensions_are_16_by_13() {
    let g = build_calendar_grid();
    assert_eq!(g.width(), 16);
    assert_eq!(g.height(), 13);
    assert_eq!(GRID_WIDTH, 16);
    assert_eq!(GRID_HEIGHT, 13);
}

#[test]
fn header_row_holds_weekday_textures() {
    let g = build_calendar_grid();
    for x in 0..WEEKDAY_COUNT {
        assert_eq!(
            g.get_tile(x, HEADER_ROW),
            Some(Tile { texture_index: x, tint: TileTint::White })
        );
    }
}

#[test]
fn header_texture_is_ordinal_minus_one_mod_seven() {
    let g = build_calendar_grid();
    for day in Weekday::week_from_monday() {
        let col = day.ordinal() - 1;
        let tile = g.get_tile(col, HEADER_ROW).unwrap();
        assert_eq!(tile.texture_index, (day.ordinal() - 1) % 7);
        assert_eq!(tile.tint, TileTint::White);
    }
}

#[test]
fn body_region_holds_untinted_fill() {
    let g = build_calendar_grid();
    for y in BODY_FIRST_ROW..BODY_FIRST_ROW + BODY_ROW_COUNT {
        for x in 0..WEEKDAY_COUNT {
            assert_eq!(g.get_tile(x, y), Some(body_fill()));
        }
    }
}

#[test]
fn every_other_cell_holds_background_fill() {
    let g = build_calendar_grid();
    for y in 0..GRID_HEIGHT {
        for x in 0..GRID_WIDTH {
            if !in_header(x, y) && !in_body(x, y) {
                assert_eq!(g.get_tile(x, y), Some(background()));
            }
        }
    }
}

#[test]
fn fills_do_not_overlap_header_cells() {
    let g = build_calendar_grid();
    for x in 0..WEEKDAY_COUNT {
        let tile = g.get_tile(x, HEADER_ROW).unwrap();
        assert_ne!(tile, background());
        assert_ne!(tile, body_fill());
    }
}

#[test]
fn no_two_tiles_share_a_coordinate() {
    let g = build_calendar_grid();
    let placed = g.occupied_tiles();
    assert_eq!(placed.len(), (GRID_WIDTH * GRID_HEIGHT) as usize);
    let mut seen = vec![false; placed.len()];
    for p in &placed {
        let slot: usize = (p.y * GRID_WIDTH + p.x) as usize;
        assert!(!seen[slot]);
        seen[slot] = true;
    }
}

#[test]
fn rerunning_setup_gives_an_identical_grid() {
    let g1 = build_calendar_grid();
    let g2 = build_calendar_grid();
    assert_eq!(g1.width(), g2.width());
    assert_eq!(g1.height(), g2.height());
    for y in 0..g1.height() {
        for x in 0..g1.width() {
            assert_eq!(g1.get_tile(x, y), g2.get_tile(x, y));
        }
    }
}

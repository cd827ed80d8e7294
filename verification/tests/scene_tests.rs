use citywalk::frames::{frame, frame_count, frame_width};
use citywalk::scene::{
    advance_frame, advance_scroll, render_scene, walker_left_column, Cell, Color,
};
use citywalk::scenery::{generate_buildings, render_skyline, BuildingStyle};

fn pattern_width() -> usize {
    generate_buildings()
        .iter()
        .map(|b| b.width as usize + 2)
        .sum()
}

fn background() -> Cell {
    Cell {
        glyph: ' ',
        fg: Color::White,
        bg: Color::Rgb(15, 20, 60),
    }
}

#[test]
fn catalog_shape() {
    assert_eq!(frame_count(), 6);
    assert_eq!(frame_width(), 12);
    for i in 0..frame_count() {
        let f = frame(i);
        assert_eq!(f.len(), 10);
    }
    let f0 = frame(0);
    let row0: String = f0[0].iter().collect();
    assert_eq!(row0, "    _O_     ");
    assert_eq!(f0[0][5], 'O');
    // rows are not padded to a uniform width
    let f2 = frame(2);
    assert_eq!(f2[9].len(), 10);
}

#[test]
fn frame_cycling_is_a_closed_cycle() {
    let n = frame_count();
    for start in 0..n {
        let mut i = start;
        for _ in 0..n {
            i = advance_frame(i, n);
        }
        assert_eq!(i, start);
    }
    assert_eq!(advance_frame(0, 1), 0);
    assert_eq!(advance_frame(4, 6), 5);
    assert_eq!(advance_frame(5, 6), 0);
}

#[test]
fn scroll_advances_by_one_and_wraps() {
    assert_eq!(advance_scroll(5), 6);
    assert_eq!(advance_scroll(0), 1);
    assert_eq!(advance_scroll(usize::MAX), 0);
}

#[test]
fn building_list_is_the_fixed_pattern() {
    let bs = generate_buildings();
    assert_eq!(bs.len(), 16);
    assert_eq!(bs[0].width, 8);
    assert_eq!(bs[0].height, 6);
    assert!(matches!(bs[0].style, BuildingStyle::Windowed));
    assert_eq!(bs[2].width, 6);
    assert_eq!(bs[2].height, 9);
    assert!(matches!(bs[2].style, BuildingStyle::Tower));
    assert_eq!(pattern_width(), 139);
}

#[test]
fn skyline_grid_has_requested_shape() {
    let grid = render_skyline(80, 12, 0);
    assert_eq!(grid.len(), 12);
    for row in &grid {
        assert_eq!(row.chars().count(), 80);
    }
    // empty window sizes give empty grids
    assert_eq!(render_skyline(0, 5, 0).len(), 5);
    assert!(render_skyline(0, 5, 0).iter().all(|r| r.is_empty()));
    assert!(render_skyline(40, 0, 7).is_empty());
}

#[test]
fn first_building_bottom_row_and_windows() {
    // first building: width 8, height 6, Windowed, at pattern column 0
    let grid = render_skyline(30, 10, 0);
    let bottom: Vec<char> = grid[9].chars().collect();
    assert_eq!(bottom[0], '│');
    assert_eq!(bottom[7], '│');
    // interior cells one row up, odd row from bottom and odd column: windows
    let row8: Vec<char> = grid[8].chars().collect();
    assert_eq!(row8[1], '▪');
    assert_eq!(row8[3], '▪');
    assert_eq!(row8[2], '█');
    // roofline of the first building (height 6 -> row 4)
    let row4: Vec<char> = grid[4].chars().collect();
    assert_eq!(row4[3], '▄');
    // the two-column gap after the first building stays sky
    assert_eq!(bottom[8], ' ');
    assert_eq!(bottom[9], ' ');
}

#[test]
fn tower_has_spire_and_texture() {
    // third building: width 6, height 9, Tower, starts at pattern column 16
    let grid = render_skyline(40, 12, 0);
    let roof: Vec<char> = grid[3].chars().collect();
    assert_eq!(roof[16 + 3], '▲');
    assert_eq!(roof[16 + 0], '▄');
    // texture rows: rows with row_from_bottom % 3 == 1 and odd local column
    let row10: Vec<char> = grid[10].chars().collect();
    assert_eq!(row10[16 + 1], '░');
    assert_eq!(row10[16 + 2], '█');
}

#[test]
fn buildings_taller_than_sky_are_clipped_from_the_top() {
    // sky of 3 rows: the 9-row tower shows only its bottom 3 rows, with
    // its roofline glyph on the top visible row, and nothing is written
    // outside the grid
    let grid = render_skyline(40, 3, 0);
    assert_eq!(grid.len(), 3);
    for row in &grid {
        assert_eq!(row.chars().count(), 40);
    }
    let top: Vec<char> = grid[0].chars().collect();
    assert_eq!(top[16 + 3], '▲');
    assert_eq!(top[16 + 0], '▄');
    // a building shorter than the sky leaves the rows above it empty:
    // second building (width 4, height 3) spans pattern columns 10..14
    let tall = render_skyline(40, 10, 0);
    let above: Vec<char> = tall[6].chars().collect();
    assert_eq!(above[10], ' ');
    assert_eq!(above[11], ' ');
    let roofline: Vec<char> = tall[7].chars().collect();
    assert_eq!(roofline[10], '▄');
}

#[test]
fn skyline_is_periodic_in_the_pattern_width() {
    let tpw = pattern_width();
    for &so in &[0usize, 5, 138, 1000] {
        let a = render_skyline(80, 12, so);
        let b = render_skyline(80, 12, so + tpw);
        assert_eq!(a, b);
    }
    // and byte-for-byte at exactly one pattern width
    let at_zero = render_skyline(60, 8, 0);
    let at_tpw = render_skyline(60, 8, tpw);
    for (x, y) in at_zero.iter().zip(at_tpw.iter()) {
        assert_eq!(x.as_bytes(), y.as_bytes());
    }
}

#[test]
fn skyline_does_not_tile_beyond_one_pattern_width() {
    // columns at or past the repeat width stay empty sky
    let tpw = pattern_width();
    let grid = render_skyline(200, 10, 0);
    for row in &grid {
        let chars: Vec<char> = row.chars().collect();
        for col in tpw..200 {
            assert_eq!(chars[col], ' ');
        }
    }
}

#[test]
fn scene_rendering_is_deterministic() {
    let a = render_scene(2, 37, 40, 24);
    let b = render_scene(2, 37, 40, 24);
    assert_eq!(a, b);
}

#[test]
fn degenerate_sizes_stay_at_the_background_fill() {
    let grid = render_scene(0, 0, 10, 2);
    assert_eq!(grid.len(), 2);
    for row in &grid {
        assert_eq!(row.len(), 10);
        for cell in row {
            assert_eq!(*cell, background());
        }
    }
    let narrow = render_scene(3, 99, 19, 30);
    assert!(narrow.iter().all(|r| r.iter().all(|c| *c == background())));
    let short = render_scene(3, 99, 30, 3);
    assert!(short.iter().all(|r| r.iter().all(|c| *c == background())));
}

#[test]
fn figure_is_centred_and_clamped() {
    assert_eq!(walker_left_column(30), 9);
    assert_eq!(walker_left_column(20), 4);
    assert_eq!(walker_left_column(40), 14);
    assert_eq!(walker_left_column(12), 0);
    assert_eq!(walker_left_column(11), 0);
    assert_eq!(walker_left_column(0), 0);
}

#[test]
fn scene_composites_all_layers() {
    // 40x24: sky rows 0..11, figure rows 11..21, ground rows 21..23, help row 23
    let grid = render_scene(0, 0, 40, 24);
    assert_eq!(grid.len(), 24);
    for row in &grid {
        assert_eq!(row.len(), 40);
    }
    // sky row 10 is the bottom of an 11-row sky: first building's edge
    assert_eq!(grid[10][0].glyph, '│');
    assert_eq!(grid[10][0].fg, Color::Rgb(50, 55, 80));
    assert_eq!(grid[10][0].bg, Color::Rgb(50, 55, 80));
    // a window glyph carries the accent colour
    assert_eq!(grid[9][1].glyph, '▪');
    assert_eq!(grid[9][1].fg, Color::Rgb(220, 200, 100));
    // untouched sky stays background
    assert_eq!(grid[0][30], background());
    // the figure's head row: frame 0 row 0 is "    _O_     " at columns 14..26
    assert_eq!(grid[11][19].glyph, 'O');
    assert_eq!(grid[11][19].fg, Color::Rgb(240, 240, 240));
    assert_eq!(grid[11][19].bg, Color::Rgb(15, 20, 60));
    // a space in the frame leaves the cell below untouched
    assert_eq!(grid[11][14], background());
    // ground texture row: every fourth column shows the texture glyph
    assert_eq!(
        grid[21][0],
        Cell { glyph: '░', fg: Color::Rgb(180, 165, 120), bg: Color::Rgb(210, 195, 150) }
    );
    assert_eq!(
        grid[21][1],
        Cell { glyph: ' ', fg: Color::White, bg: Color::Rgb(210, 195, 150) }
    );
    assert_eq!(grid[21][4].glyph, '░');
    // solid lower ground row
    assert_eq!(
        grid[22][7],
        Cell { glyph: ' ', fg: Color::White, bg: Color::Rgb(180, 165, 120) }
    );
    // help text centred on the last row
    let help: String = grid[23][11..28].iter().map(|c| c.glyph).collect();
    assert_eq!(help, "Press 'q' to quit");
    assert_eq!(grid[23][11].fg, Color::Rgb(100, 100, 130));
    assert_eq!(grid[23][10], background());
    assert_eq!(grid[23][28], background());
}

#[test]
fn ground_texture_crawls_with_the_scroll() {
    let grid = render_scene(0, 1, 40, 24);
    // (col + scroll) % 4 == 0 now holds at columns 3, 7, ...
    assert_eq!(grid[21][3].glyph, '░');
    assert_eq!(grid[21][0].glyph, ' ');
}

#[test]
fn figure_keeps_the_building_background_behind_it() {
    // 40x10: scene height 7 is less than the frame height, so the sky is
    // one row tall, the figure starts at row 0 and overlaps the skyline
    let grid = render_scene(0, 0, 40, 10);
    // under the figure's glyph at (0, 18) sits the tower's roofline
    assert_eq!(grid[0][18].glyph, '_');
    assert_eq!(grid[0][18].fg, Color::Rgb(240, 240, 240));
    assert_eq!(grid[0][18].bg, Color::Rgb(50, 55, 80));
    // outside the figure the one-row skyline shows rooflines
    assert_eq!(grid[0][2].glyph, '▄');
    assert_eq!(grid[0][2].bg, Color::Rgb(50, 55, 80));
}

#[test]
fn scene_at_scroll_plus_pattern_width_matches() {
    let tpw = pattern_width();
    let a = render_scene(1, 0, 60, 20);
    let b = render_scene(1, tpw, 60, 20);
    // the skyline region repeats; the ground texture also repeats since
    // the pattern width need not be a multiple of four only the sky rows
    // are compared
    for row in 0..7 {
        assert_eq!(a[row], b[row]);
    }
}

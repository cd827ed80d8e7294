//! The scene compositor: merges the scrolling skyline, the walking
//! figure, the ground strip and the help line into one grid of coloured
//! cells the size of the screen, as a pure function of the frame index,
//! the scroll offset and the screen dimensions.

use vstd::prelude::*;
use crate::frames;
use crate::scenery;

verus! {

use crate::frames::{spec_frame, spec_frame_count, spec_frame_width};
use crate::scenery::{spec_buildings, spec_skyline_char};

/// A terminal colour: the default white, or a 24-bit RGB value.
#[derive(Clone, Copy, PartialEq, Eq, Structural, Debug)]
pub enum Color {
    White,
    Rgb(u8, u8, u8),
}

/// One screen position: a glyph with its foreground and background colour.
#[derive(Clone, Copy, PartialEq, Eq, Structural, Debug)]
pub struct Cell {
    pub glyph: char,
    pub fg: Color,
    pub bg: Color,
}

/// The night-sky background colour.
pub open spec fn spec_bg_color() -> Color {
    Color::Rgb(15, 20, 60)
}

/// The base colour of building fill and edges.
pub open spec fn spec_building_color() -> Color {
    Color::Rgb(50, 55, 80)
}

/// The accent colour of windows and tower texture.
pub open spec fn spec_window_color() -> Color {
    Color::Rgb(220, 200, 100)
}

/// The base ground colour.
pub open spec fn spec_ground_color() -> Color {
    Color::Rgb(210, 195, 150)
}

/// The darker ground colour used for texture and the lower ground row.
pub open spec fn spec_ground_dark_color() -> Color {
    Color::Rgb(180, 165, 120)
}

/// The colour of the walking figure.
pub open spec fn spec_walker_color() -> Color {
    Color::Rgb(240, 240, 240)
}

/// The colour of the help line.
pub open spec fn spec_help_color() -> Color {
    Color::Rgb(100, 100, 130)
}

/// The cell every screen position starts from: a space on the night sky.
pub open spec fn spec_background_cell() -> Cell {
    Cell { glyph: ' ', fg: Color::White, bg: spec_bg_color() }
}

/// Rows reserved at the bottom of the screen: two ground rows, one help row.
pub open spec fn spec_scene_height(h: int) -> int {
    h - 3
}

/// Rows left for the skyline above the figure, at least one.
pub open spec fn spec_sky_height(frame_len: int, h: int) -> int {
    if spec_scene_height(h) - frame_len >= 1 {
        spec_scene_height(h) - frame_len
    } else {
        1
    }
}

/// The figure's leftmost screen column: the frame centred in the screen
/// width, clamped so it is never negative.
pub open spec fn spec_walker_left(w: int) -> int {
    if w / 2 >= spec_frame_width() / 2 {
        w / 2 - spec_frame_width() / 2
    } else {
        0
    }
}

/// The figure's topmost screen row: its bottom row sits at the top of
/// the ground region.
pub open spec fn spec_walker_top(frame_len: int, h: int) -> int {
    if spec_scene_height(h) >= frame_len {
        spec_scene_height(h) - frame_len
    } else {
        0
    }
}

/// The help line shown on the last screen row.
pub open spec fn spec_help_text() -> Seq<char> {
    "Press 'q' to quit"@
}

/// The help line's leftmost column: centred, clamped at zero.
pub open spec fn spec_help_left(w: int) -> int {
    if w >= spec_help_text().len() {
        (w - spec_help_text().len()) / 2
    } else {
        0
    }
}

/// The foreground colour a skyline glyph is drawn with: accent for
/// windows and tower texture, base colour otherwise.
pub open spec fn spec_sky_fg(ch: char) -> Color {
    if ch == '▪' || ch == '░' {
        spec_window_color()
    } else {
        spec_building_color()
    }
}

/// The screen after the skyline is laid over the background: non-space
/// skyline glyphs carry their own colours, everything else stays
/// background.
pub open spec fn spec_sky_layer(frame_len: int, so: int, h: int, row: int, col: int) -> Cell {
    let sh = spec_sky_height(frame_len, h);
    if row < sh {
        let ch = spec_skyline_char(spec_buildings(), so, sh, row, col);
        if ch != ' ' {
            Cell { glyph: ch, fg: spec_sky_fg(ch), bg: spec_building_color() }
        } else {
            spec_background_cell()
        }
    } else {
        spec_background_cell()
    }
}

/// The screen after the figure is laid over the skyline: non-space frame
/// glyphs take the walker colour but keep the background already there.
pub open spec fn spec_walker_layer(
    frame: Seq<Seq<char>>,
    so: int,
    w: int,
    h: int,
    row: int,
    col: int,
) -> Cell {
    let below = spec_sky_layer(frame.len() as int, so, h, row, col);
    let wx = spec_walker_left(w);
    let wy = spec_walker_top(frame.len() as int, h);
    if wy <= row && row - wy < frame.len() && wx <= col && col - wx < frame[row - wy].len()
        && frame[row - wy][col - wx] != ' ' {
        Cell { glyph: frame[row - wy][col - wx], fg: spec_walker_color(), bg: below.bg }
    } else {
        below
    }
}

/// The screen after the two ground rows are drawn: the upper row shows a
/// crawling texture glyph every fourth column (shifted by the scroll
/// offset), the lower row is solid; both keep the foreground already
/// there where they draw only a space.
pub open spec fn spec_ground_layer(
    frame: Seq<Seq<char>>,
    so: int,
    w: int,
    h: int,
    row: int,
    col: int,
) -> Cell {
    let below = spec_walker_layer(frame, so, w, h, row, col);
    if row == spec_scene_height(h) {
        if (col + so) % 4 == 0 {
            Cell { glyph: '░', fg: spec_ground_dark_color(), bg: spec_ground_color() }
        } else {
            Cell { glyph: ' ', fg: below.fg, bg: spec_ground_color() }
        }
    } else if row == spec_scene_height(h) + 1 {
        Cell { glyph: ' ', fg: below.fg, bg: spec_ground_dark_color() }
    } else {
        below
    }
}

/// The full scene: background, skyline, figure, ground and help line in
/// that order. Screens under 20 columns or 4 rows stay at the plain
/// background fill.
pub open spec fn spec_scene_cell(
    frame: Seq<Seq<char>>,
    so: int,
    w: int,
    h: int,
    row: int,
    col: int,
) -> Cell {
    if h < 4 || w < 20 {
        spec_background_cell()
    } else {
        let below = spec_ground_layer(frame, so, w, h, row, col);
        let hx = spec_help_left(w);
        if row == h - 1 && hx <= col && col - hx < spec_help_text().len() {
            Cell { glyph: spec_help_text()[col - hx], fg: spec_help_color(), bg: spec_bg_color() }
        } else {
            below
        }
    }
}

/// The views of a grid's rows.
pub open spec fn rows_view(rows: Seq<Vec<char>>) -> Seq<Seq<char>> {
    rows.map_values(|v: Vec<char>| v@)
}

/// The figure's leftmost screen column for a screen `width` columns
/// wide: half the screen width minus half the frame width, clamped so it
/// is never negative.
pub fn walker_left_column(width: u16) -> (r: usize)
    ensures
        r as int == spec_walker_left(width as int),
{
    let half = (width / 2) as usize;
    let fh = (frames::frame_width() / 2) as usize;
    if half >= fh {
        half - fh
    } else {
        0
    }
}

/// One cell of the composed scene, for a non-degenerate screen, given
/// the current frame's rows and the rendered skyline.
fn scene_cell(
    frame: &Vec<Vec<char>>,
    skyline: &Vec<String>,
    scroll_offset: usize,
    width: u16,
    height: u16,
    row: u16,
    col: u16,
) -> (cell: Cell)
    requires
        height >= 4,
        width >= 20,
        row < height,
        col < width,
        skyline@.len() == spec_sky_height(frame@.len() as int, height as int),
        forall|i: int| 0 <= i < skyline@.len() ==> (#[trigger] skyline@[i])@.len() == width as int,
        forall|i: int, j: int|
            0 <= i < skyline@.len() && 0 <= j < width as int ==> skyline@[i]@[j]
                == spec_skyline_char(spec_buildings(), scroll_offset as int, skyline@.len() as int, i, j),
    ensures
        cell == spec_scene_cell(
            rows_view(frame@),
            scroll_offset as int,
            width as int,
            height as int,
            row as int,
            col as int,
        ),
{
    let fl = frame.len();
    let scene_h = (height - 3) as usize;
    let sky_h = if scene_h > fl {
        scene_h - fl
    } else {
        1
    };
    let r = row as usize;
    let c = col as usize;

    let mut cell = Cell { glyph: ' ', fg: Color::White, bg: Color::Rgb(15, 20, 60) };
    if r < sky_h {
        let ch = skyline[r].as_str().get_char(c);
        if ch != ' ' {
            let fg = if ch == '▪' || ch == '░' {
                Color::Rgb(220, 200, 100)
            } else {
                Color::Rgb(50, 55, 80)
            };
            cell = Cell { glyph: ch, fg: fg, bg: Color::Rgb(50, 55, 80) };
        }
    }
    proof {
        assert(cell == spec_sky_layer(
            frame@.len() as int,
            scroll_offset as int,
            height as int,
            row as int,
            col as int,
        ));
    }

    let wx = walker_left_column(width);
    let wy = if scene_h >= fl {
        scene_h - fl
    } else {
        0
    };
    if r >= wy && r - wy < fl {
        let line = &frame[r - wy];
        if c >= wx && c - wx < line.len() {
            let fc = line[c - wx];
            if fc != ' ' {
                cell = Cell { glyph: fc, fg: Color::Rgb(240, 240, 240), bg: cell.bg };
            }
        }
    }
    proof {
        assert(cell == spec_walker_layer(
            rows_view(frame@),
            scroll_offset as int,
            width as int,
            height as int,
            row as int,
            col as int,
        ));
    }

    if r == scene_h {
        let shifted = (c % 4 + scroll_offset % 4) % 4;
        proof {
            vstd::arithmetic::div_mod::lemma_add_mod_noop(c as int, scroll_offset as int, 4);
        }
        if shifted == 0 {
            cell = Cell {
                glyph: '░',
                fg: Color::Rgb(180, 165, 120),
                bg: Color::Rgb(210, 195, 150),
            };
        } else {
            cell = Cell { glyph: ' ', fg: cell.fg, bg: Color::Rgb(210, 195, 150) };
        }
    } else if r == scene_h + 1 {
        cell = Cell { glyph: ' ', fg: cell.fg, bg: Color::Rgb(180, 165, 120) };
    }
    proof {
        assert(cell == spec_ground_layer(
            rows_view(frame@),
            scroll_offset as int,
            width as int,
            height as int,
            row as int,
            col as int,
        ));
    }

    if row == height - 1 {
        let help = "Press 'q' to quit";
        let l = help.unicode_len();
        let hx = if (width as usize) >= l {
            ((width as usize) - l) / 2
        } else {
            0
        };
        if c >= hx && c - hx < l {
            cell = Cell {
                glyph: help.get_char(c - hx),
                fg: Color::Rgb(100, 100, 130),
                bg: Color::Rgb(15, 20, 60),
            };
        }
    }
    cell
}

/// A grid of `height` rows by `width` columns of background cells.
fn background_grid(width: u16, height: u16) -> (g: Vec<Vec<Cell>>)
    ensures
        g@.len() == height as int,
        forall|r: int| 0 <= r < height as int ==> (#[trigger] g@[r])@.len() == width as int,
        forall|r: int, c: int|
            0 <= r < height as int && 0 <= c < width as int ==> g@[r]@[c]
                == spec_background_cell(),
{
    let mut g: Vec<Vec<Cell>> = Vec::new();
    let mut row: u16 = 0;
    while row < height
        invariant
            row <= height,
            g@.len() == row as int,
            forall|r: int| 0 <= r < row as int ==> (#[trigger] g@[r])@.len() == width as int,
            forall|r: int, c: int|
                0 <= r < row as int && 0 <= c < width as int ==> g@[r]@[c]
                    == spec_background_cell(),
        decreases height - row,
    {
        let mut line: Vec<Cell> = Vec::new();
        let mut col: u16 = 0;
        while col < width
            invariant
                col <= width,
                line@.len() == col as int,
                forall|c: int| 0 <= c < col as int ==> line@[c] == spec_background_cell(),
            decreases width - col,
        {
            line.push(Cell { glyph: ' ', fg: Color::White, bg: Color::Rgb(15, 20, 60) });
            col = col + 1;
        }
        g.push(line);
        row = row + 1;
    }
    g
}

/// Compose the full screen for one tick: skyline, walking figure, ground
/// strip and help line over the night-sky background, as a pure function
/// of the frame index, the scroll offset and the screen size. Degenerate
/// screens (under 20 columns or 4 rows) stay at the background fill.
pub fn render_scene(frame_index: usize, scroll_offset: usize, width: u16, height: u16) -> (g: Vec<
    Vec<Cell>,
>)
    requires
        frame_index < spec_frame_count(),
    ensures
        g@.len() == height as int,
        forall|r: int| 0 <= r < height as int ==> (#[trigger] g@[r])@.len() == width as int,
        forall|r: int, c: int|
            0 <= r < height as int && 0 <= c < width as int ==> g@[r]@[c] == spec_scene_cell(
                spec_frame(frame_index as int),
                scroll_offset as int,
                width as int,
                height as int,
                r,
                c,
            ),
{
    if height < 4 || width < 20 {
        return background_grid(width, height);
    }
    let frame = frames::frame(frame_index);
    proof {
        assert(rows_view(frame@) =~= spec_frame(frame_index as int));
    }
    let fl = frame.len();
    let scene_h = (height - 3) as usize;
    let sky_h = if scene_h > fl {
        scene_h - fl
    } else {
        1
    };
    let skyline = scenery::render_skyline(width, sky_h as u16, scroll_offset);
    let mut g: Vec<Vec<Cell>> = Vec::new();
    let mut row: u16 = 0;
    while row < height
        invariant
            row <= height,
            height >= 4,
            width >= 20,
            frame_index < spec_frame_count(),
            rows_view(frame@) == spec_frame(frame_index as int),
            fl == frame@.len(),
            scene_h == height as int - 3,
            sky_h as int == spec_sky_height(frame@.len() as int, height as int),
            sky_h <= u16::MAX,
            skyline@.len() == sky_h as int,
            forall|i: int| 0 <= i < skyline@.len() ==> (#[trigger] skyline@[i])@.len()
                == width as int,
            forall|i: int, j: int|
                0 <= i < skyline@.len() && 0 <= j < width as int ==> skyline@[i]@[j]
                    == spec_skyline_char(
                    spec_buildings(),
                    scroll_offset as int,
                    skyline@.len() as int,
                    i,
                    j,
                ),
            g@.len() == row as int,
            forall|r: int| 0 <= r < row as int ==> (#[trigger] g@[r])@.len() == width as int,
            forall|r: int, c: int|
                0 <= r < row as int && 0 <= c < width as int ==> g@[r]@[c] == spec_scene_cell(
                    spec_frame(frame_index as int),
                    scroll_offset as int,
                    width as int,
                    height as int,
                    r,
                    c,
                ),
        decreases height - row,
    {
        let mut line: Vec<Cell> = Vec::new();
        let mut col: u16 = 0;
        while col < width
            invariant
                col <= width,
                row < height,
                height >= 4,
                width >= 20,
                rows_view(frame@) == spec_frame(frame_index as int),
                sky_h as int == spec_sky_height(frame@.len() as int, height as int),
                skyline@.len() == sky_h as int,
                forall|i: int| 0 <= i < skyline@.len() ==> (#[trigger] skyline@[i])@.len()
                    == width as int,
                forall|i: int, j: int|
                    0 <= i < skyline@.len() && 0 <= j < width as int ==> skyline@[i]@[j]
                        == spec_skyline_char(
                        spec_buildings(),
                        scroll_offset as int,
                        skyline@.len() as int,
                        i,
                        j,
                    ),
                line@.len() == col as int,
                forall|c: int|
                    0 <= c < col as int ==> line@[c] == spec_scene_cell(
                        spec_frame(frame_index as int),
                        scroll_offset as int,
                        width as int,
                        height as int,
                        row as int,
                        c,
                    ),
            decreases width - col,
        {
            let cell = scene_cell(&frame, &skyline, scroll_offset, width, height, row, col);
            line.push(cell);
            col = col + 1;
        }
        g.push(line);
        row = row + 1;
    }
    g
}

/// The next frame index: one step forward in the walking cycle, wrapping
/// at the catalog length.
pub fn advance_frame(frame_index: usize, catalog_length: usize) -> (r: usize)
    requires
        frame_index < catalog_length,
    ensures
        r as int == (frame_index as int + 1) % catalog_length as int,
{
    (frame_index + 1) % catalog_length
}

/// The next scroll offset: one column further, wrapping at the native
/// unsigned integer width.
pub fn advance_scroll(scroll_offset: usize) -> (r: usize)
    ensures
        r as int == if scroll_offset == usize::MAX {
            0int
        } else {
            scroll_offset as int + 1
        },
{
    scroll_offset.wrapping_add(1)
}

/// One step of the walking cycle, as advance_frame computes it.
pub open spec fn spec_advance_frame(i: int, n: int) -> int {
    (i + 1) % n
}

/// The frame index after `k` steps of the walking cycle from `i`.
pub open spec fn spec_advance_frame_iter(i: int, n: int, k: nat) -> int
    decreases k,
{
    if k == 0 {
        i
    } else {
        spec_advance_frame(spec_advance_frame_iter(i, n, (k - 1) as nat), n)
    }
}

/// After `k` steps the frame index is the start shifted by `k`, modulo
/// the catalog length.
proof fn lemma_advance_frame_iter_mod(i: int, n: int, k: nat)
    requires
        n > 0,
        0 <= i < n,
    ensures
        spec_advance_frame_iter(i, n, k) == (i + k) % n,
    decreases k,
{
    if k == 0 {
        vstd::arithmetic::div_mod::lemma_small_mod(i as nat, n as nat);
    } else {
        lemma_advance_frame_iter_mod(i, n, (k - 1) as nat);
        vstd::arithmetic::div_mod::lemma_mod_bound(i + k - 1, n);
        vstd::arithmetic::div_mod::lemma_add_mod_noop(i + k - 1, 1, n);
        if n == 1 {
            assert(spec_advance_frame_iter(i, n, k) == (i + k) % n);
        } else {
            assert(1int % n == 1) by {
                vstd::arithmetic::div_mod::lemma_small_mod(1nat, n as nat);
            }
        }
    }
}

/// Frame cycling is a closed cycle: advancing the frame index once per
/// tick for a whole catalog length of ticks returns it to where it began.
pub proof fn lemma_frame_cycle(i: int, n: int)
    requires
        n > 0,
        0 <= i < n,
    ensures
        spec_advance_frame_iter(i, n, n as nat) == i,
{
    lemma_advance_frame_iter_mod(i, n, n as nat);
    vstd::arithmetic::div_mod::lemma_mod_add_multiples_vanish(i, n);
    vstd::arithmetic::div_mod::lemma_small_mod(i as nat, n as nat);
}

/// The scene is deterministic: two grids that both match the composed
/// scene for the same inputs are the same grid.
pub proof fn lemma_scene_deterministic(
    g1: Seq<Seq<Cell>>,
    g2: Seq<Seq<Cell>>,
    frame: Seq<Seq<char>>,
    so: int,
    w: int,
    h: int,
)
    requires
        h >= 0,
        w >= 0,
        g1.len() == h,
        g2.len() == h,
        forall|r: int| 0 <= r < h ==> (#[trigger] g1[r]).len() == w,
        forall|r: int| 0 <= r < h ==> (#[trigger] g2[r]).len() == w,
        forall|r: int, c: int|
            0 <= r < h && 0 <= c < w ==> g1[r][c] == spec_scene_cell(frame, so, w, h, r, c),
        forall|r: int, c: int|
            0 <= r < h && 0 <= c < w ==> g2[r][c] == spec_scene_cell(frame, so, w, h, r, c),
    ensures
        g1 == g2,
{
    assert forall|r: int| 0 <= r < h implies #[trigger] g1[r] == g2[r] by {
        assert forall|c: int| 0 <= c < w implies g1[r][c] == g2[r][c] by {
            assert(g1[r][c] == spec_scene_cell(frame, so, w, h, r, c));
            assert(g2[r][c] == spec_scene_cell(frame, so, w, h, r, c));
        }
        assert(g1[r] =~= g2[r]);
    }
    assert(g1 =~= g2);
}

} // verus!

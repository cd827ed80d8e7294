//! The skyline generator: a fixed building list defines one repeat unit of
//! an infinite, horizontally scrolling city skyline, and `render_skyline`
//! draws any window of it into a grid of characters.

use vstd::prelude::*;

verus! {

/// A building defined by its width (in columns) and height (in rows).
#[derive(Clone, Copy, PartialEq, Eq, Structural, Debug)]
pub struct Building {
    pub width: u16,
    pub height: u16,
    pub style: BuildingStyle,
}

#[derive(Clone, Copy, PartialEq, Eq, Structural, Debug)]
pub enum BuildingStyle {
    Plain,
    Windowed,
    Tower,
}

/// Columns of empty sky left after each building before the next one starts.
pub open spec fn spec_gap() -> int {
    2
}

/// The fixed building list that defines one repeat unit of the skyline.
pub open spec fn spec_buildings() -> Seq<Building> {
    seq![
        Building { width: 8, height: 6, style: BuildingStyle::Windowed },
        Building { width: 4, height: 3, style: BuildingStyle::Plain },
        Building { width: 6, height: 9, style: BuildingStyle::Tower },
        Building { width: 10, height: 5, style: BuildingStyle::Windowed },
        Building { width: 3, height: 2, style: BuildingStyle::Plain },
        Building { width: 7, height: 7, style: BuildingStyle::Windowed },
        Building { width: 5, height: 4, style: BuildingStyle::Plain },
        Building { width: 9, height: 10, style: BuildingStyle::Tower },
        Building { width: 6, height: 3, style: BuildingStyle::Plain },
        Building { width: 8, height: 6, style: BuildingStyle::Windowed },
        Building { width: 4, height: 8, style: BuildingStyle::Tower },
        Building { width: 7, height: 4, style: BuildingStyle::Plain },
        Building { width: 5, height: 5, style: BuildingStyle::Windowed },
        Building { width: 11, height: 7, style: BuildingStyle::Tower },
        Building { width: 6, height: 3, style: BuildingStyle::Plain },
        Building { width: 8, height: 5, style: BuildingStyle::Windowed },
    ]
}

/// Total width of one repeat unit: each building's width plus the gap.
pub open spec fn spec_pattern_width(bs: Seq<Building>) -> int
    decreases bs.len(),
{
    if bs.len() == 0 {
        0
    } else {
        bs[0].width + spec_gap() + spec_pattern_width(bs.skip(1))
    }
}

/// The character a single building shows at local column `local`,
/// `rfb` rows above the bottom of the sky area, when the sky area is
/// `sky` rows tall. Rows above the (possibly clipped) building height
/// are empty sky. The roofline row shows the base glyph (with a spire
/// at the centre of a tower's roof), the outermost columns show the
/// edge glyph, and the interior is solid fill except for the style's
/// accent texture.
pub open spec fn spec_building_char(b: Building, local: int, rfb: int, sky: int) -> char {
    let bh = if b.height <= sky { b.height as int } else { sky };
    if rfb < 0 || rfb >= bh {
        ' '
    } else {
        match b.style {
            BuildingStyle::Plain => {
                if rfb == bh - 1 {
                    '▄'
                } else if local == 0 || local == b.width - 1 {
                    '│'
                } else {
                    '█'
                }
            },
            BuildingStyle::Windowed => {
                if rfb == bh - 1 {
                    '▄'
                } else if local == 0 || local == b.width - 1 {
                    '│'
                } else if rfb % 2 == 1 && local % 2 == 1 {
                    '▪'
                } else {
                    '█'
                }
            },
            BuildingStyle::Tower => {
                if rfb == bh - 1 && local == b.width / 2 {
                    '▲'
                } else if rfb == bh - 1 {
                    '▄'
                } else if local == 0 || local == b.width - 1 {
                    '│'
                } else if rfb % 3 == 1 && local % 2 == 1 {
                    '░'
                } else {
                    '█'
                }
            },
        }
    }
}

/// The character the repeat unit shows at pattern column `p`, `rfb` rows
/// above the bottom, for a sky area `sky` rows tall: the covering
/// building's character, or sky space inside a gap or past the pattern.
pub open spec fn spec_pattern_cell(bs: Seq<Building>, p: int, rfb: int, sky: int) -> char
    decreases bs.len(),
{
    if bs.len() == 0 || p < 0 {
        ' '
    } else if p < bs[0].width {
        spec_building_char(bs[0], p, rfb, sky)
    } else if p < bs[0].width + spec_gap() {
        ' '
    } else {
        spec_pattern_cell(bs.skip(1), p - bs[0].width - spec_gap(), rfb, sky)
    }
}

/// The character of the rendered skyline at grid position (`row`, `col`)
/// for scroll offset `so` and a sky area `sky_height` rows tall. Column
/// `col` shows pattern column `(col + so) mod patternWidth`; columns at or
/// beyond one repeat width stay empty (the pattern is not tiled further).
pub open spec fn spec_skyline_char(
    bs: Seq<Building>,
    so: int,
    sky_height: int,
    row: int,
    col: int,
) -> char {
    let tpw = spec_pattern_width(bs);
    if 0 < tpw && 0 <= col < tpw {
        spec_pattern_cell(bs, (col + so % tpw) % tpw, sky_height - 1 - row, sky_height)
    } else {
        ' '
    }
}

/// The pattern width is never negative.
pub proof fn lemma_pattern_width_nonneg(bs: Seq<Building>)
    ensures
        spec_pattern_width(bs) >= 0,
    decreases bs.len(),
{
    if bs.len() > 0 {
        lemma_pattern_width_nonneg(bs.skip(1));
    }
}

/// One unfolding step of the pattern-width sum at position `k`.
proof fn lemma_pattern_width_step(bs: Seq<Building>, k: int)
    requires
        0 <= k < bs.len(),
    ensures
        spec_pattern_width(bs.skip(k)) == bs[k].width + spec_gap() + spec_pattern_width(
            bs.skip(k + 1),
        ),
{
    assert(bs.skip(k).skip(1) =~= bs.skip(k + 1));
    assert(bs.skip(k)[0] == bs[k]);
}

/// The fixed building list's repeat unit is 139 columns wide.
pub proof fn lemma_buildings_pattern_width()
    ensures
        spec_pattern_width(spec_buildings()) == 139,
{
    let bs = spec_buildings();
    assert(bs.skip(0) =~= bs);
    lemma_pattern_width_step(bs, 0);
    lemma_pattern_width_step(bs, 1);
    lemma_pattern_width_step(bs, 2);
    lemma_pattern_width_step(bs, 3);
    lemma_pattern_width_step(bs, 4);
    lemma_pattern_width_step(bs, 5);
    lemma_pattern_width_step(bs, 6);
    lemma_pattern_width_step(bs, 7);
    lemma_pattern_width_step(bs, 8);
    lemma_pattern_width_step(bs, 9);
    lemma_pattern_width_step(bs, 10);
    lemma_pattern_width_step(bs, 11);
    lemma_pattern_width_step(bs, 12);
    lemma_pattern_width_step(bs, 13);
    lemma_pattern_width_step(bs, 14);
    lemma_pattern_width_step(bs, 15);
    assert(bs.skip(16).len() == 0);
}

/// Scrolling by exactly one repeat width leaves every skyline character
/// unchanged: the pattern is periodic in the scroll offset.
pub proof fn lemma_skyline_periodic(
    bs: Seq<Building>,
    so: int,
    sky_height: int,
    row: int,
    col: int,
)
    requires
        so >= 0,
    ensures
        spec_skyline_char(bs, so + spec_pattern_width(bs), sky_height, row, col)
            == spec_skyline_char(bs, so, sky_height, row, col),
{
    let tpw = spec_pattern_width(bs);
    if 0 < tpw {
        vstd::arithmetic::div_mod::lemma_mod_add_multiples_vanish(so, tpw);
    }
}

/// Clipping: a building taller than the sky area shows exactly the
/// characters of the same building truncated to the sky height, so only
/// its bottom `sky` rows ever appear.
pub proof fn lemma_building_clipped(b: Building, local: int, rfb: int, sky: int)
    requires
        0 <= sky <= u16::MAX,
        b.height > sky,
    ensures
        spec_building_char(b, local, rfb, sky) == spec_building_char(
            Building { width: b.width, height: sky as u16, style: b.style },
            local,
            rfb,
            sky,
        ),
{
}

/// The fixed building list that defines one repeat unit of the skyline.
pub fn generate_buildings() -> (r: Vec<Building>)
    ensures
        r@ == spec_buildings(),
{
    let mut v: Vec<Building> = Vec::new();
    v.push(Building { width: 8, height: 6, style: BuildingStyle::Windowed });
    v.push(Building { width: 4, height: 3, style: BuildingStyle::Plain });
    v.push(Building { width: 6, height: 9, style: BuildingStyle::Tower });
    v.push(Building { width: 10, height: 5, style: BuildingStyle::Windowed });
    v.push(Building { width: 3, height: 2, style: BuildingStyle::Plain });
    v.push(Building { width: 7, height: 7, style: BuildingStyle::Windowed });
    v.push(Building { width: 5, height: 4, style: BuildingStyle::Plain });
    v.push(Building { width: 9, height: 10, style: BuildingStyle::Tower });
    v.push(Building { width: 6, height: 3, style: BuildingStyle::Plain });
    v.push(Building { width: 8, height: 6, style: BuildingStyle::Windowed });
    v.push(Building { width: 4, height: 8, style: BuildingStyle::Tower });
    v.push(Building { width: 7, height: 4, style: BuildingStyle::Plain });
    v.push(Building { width: 5, height: 5, style: BuildingStyle::Windowed });
    v.push(Building { width: 11, height: 7, style: BuildingStyle::Tower });
    v.push(Building { width: 6, height: 3, style: BuildingStyle::Plain });
    v.push(Building { width: 8, height: 5, style: BuildingStyle::Windowed });
    proof {
        assert(v@ =~= spec_buildings());
    }
    v
}

/// Total width in columns of one repeat unit of the given building list.
fn pattern_width(bs: &Vec<Building>) -> (t: usize)
    requires
        spec_pattern_width(bs@) <= usize::MAX,
    ensures
        t as int == spec_pattern_width(bs@),
{
    let mut total: usize = 0;
    let mut k: usize = 0;
    proof {
        assert(bs@.skip(0) =~= bs@);
    }
    while k < bs.len()
        invariant
            k <= bs@.len(),
            spec_pattern_width(bs@) <= usize::MAX,
            total + spec_pattern_width(bs@.skip(k as int)) == spec_pattern_width(bs@),
        decreases bs@.len() - k,
    {
        proof {
            lemma_pattern_width_step(bs@, k as int);
            lemma_pattern_width_nonneg(bs@.skip(k as int + 1));
        }
        total = total + bs[k].width as usize + 2;
        k = k + 1;
    }
    proof {
        assert(bs@.skip(bs@.len() as int).len() == 0);
    }
    total
}

/// The character of one building at local column `local`, `rfb` rows
/// above the bottom of a sky area `sky` rows tall.
fn building_char(b: &Building, local: usize, rfb: usize, sky: usize) -> (c: char)
    requires
        local < b.width,
    ensures
        c == spec_building_char(*b, local as int, rfb as int, sky as int),
{
    let bh: usize = if (b.height as usize) <= sky {
        b.height as usize
    } else {
        sky
    };
    if rfb >= bh {
        return ' ';
    }
    let bw: usize = b.width as usize;
    match b.style {
        BuildingStyle::Plain => {
            if rfb == bh - 1 {
                '▄'
            } else if local == 0 || local + 1 == bw {
                '│'
            } else {
                '█'
            }
        },
        BuildingStyle::Windowed => {
            if rfb == bh - 1 {
                '▄'
            } else if local == 0 || local + 1 == bw {
                '│'
            } else if rfb % 2 == 1 && local % 2 == 1 {
                '▪'
            } else {
                '█'
            }
        },
        BuildingStyle::Tower => {
            if rfb == bh - 1 && local == bw / 2 {
                '▲'
            } else if rfb == bh - 1 {
                '▄'
            } else if local == 0 || local + 1 == bw {
                '│'
            } else if rfb % 3 == 1 && local % 2 == 1 {
                '░'
            } else {
                '█'
            }
        },
    }
}

/// The character of the repeat unit at pattern column `p`, `rfb` rows
/// above the bottom of a sky area `sky` rows tall.
fn pattern_cell(bs: &Vec<Building>, p: usize, rfb: usize, sky: usize) -> (c: char)
    ensures
        c == spec_pattern_cell(bs@, p as int, rfb as int, sky as int),
{
    let mut k: usize = 0;
    let mut q: usize = p;
    proof {
        assert(bs@.skip(0) =~= bs@);
    }
    while k < bs.len()
        invariant
            k <= bs@.len(),
            spec_pattern_cell(bs@.skip(k as int), q as int, rfb as int, sky as int)
                == spec_pattern_cell(bs@, p as int, rfb as int, sky as int),
        decreases bs@.len() - k,
    {
        proof {
            assert(bs@.skip(k as int)[0] == bs@[k as int]);
            assert(bs@.skip(k as int).skip(1) =~= bs@.skip(k as int + 1));
        }
        let b = &bs[k];
        if q < b.width as usize {
            return building_char(b, q, rfb, sky);
        }
        if q < b.width as usize + 2 {
            return ' ';
        }
        q = q - (b.width as usize + 2);
        k = k + 1;
    }
    proof {
        assert(bs@.skip(bs@.len() as int).len() == 0);
    }
    ' '
}

/// Relies on String::push: appends the given character at the end of the
/// string; vstd specifies String construction but not push.
#[verifier::external_body]
fn push_char(s: &mut String, c: char)
    ensures
        final(s)@ == old(s)@.push(c),
{
    s.push(c)
}

/// Render the skyline into a grid of characters.
///
/// Returns one String per row (top to bottom), each of exactly `width`
/// characters: at (`row`, `col`) the character of the repeating building
/// pattern shifted right by `scroll_offset`, per `spec_skyline_char`.
pub fn render_skyline(width: u16, sky_height: u16, scroll_offset: usize) -> (r: Vec<String>)
    ensures
        r@.len() == sky_height as int,
        forall|i: int| 0 <= i < sky_height as int ==> (#[trigger] r@[i])@.len() == width as int,
        forall|i: int, j: int|
            0 <= i < sky_height as int && 0 <= j < width as int ==> r@[i]@[j]
                == spec_skyline_char(spec_buildings(), scroll_offset as int, sky_height as int, i, j),
{
    let buildings = generate_buildings();
    proof {
        lemma_buildings_pattern_width();
    }
    let tpw = pattern_width(&buildings);
    let s = scroll_offset % tpw;
    let mut rows: Vec<String> = Vec::new();
    let mut row: u16 = 0;
    while row < sky_height
        invariant
            row <= sky_height,
            buildings@ == spec_buildings(),
            tpw as int == spec_pattern_width(spec_buildings()),
            tpw == 139,
            s == scroll_offset as int % tpw as int,
            rows@.len() == row as int,
            forall|i: int| 0 <= i < row as int ==> (#[trigger] rows@[i])@.len() == width as int,
            forall|i: int, j: int|
                0 <= i < row as int && 0 <= j < width as int ==> rows@[i]@[j]
                    == spec_skyline_char(
                    spec_buildings(),
                    scroll_offset as int,
                    sky_height as int,
                    i,
                    j,
                ),
        decreases sky_height - row,
    {
        let mut line = String::new();
        let mut col: u16 = 0;
        while col < width
            invariant
                col <= width,
                row < sky_height,
                buildings@ == spec_buildings(),
                tpw as int == spec_pattern_width(spec_buildings()),
                tpw == 139,
                s == scroll_offset as int % tpw as int,
                line@.len() == col as int,
                forall|j: int|
                    0 <= j < col as int ==> line@[j] == spec_skyline_char(
                        spec_buildings(),
                        scroll_offset as int,
                        sky_height as int,
                        row as int,
                        j,
                    ),
            decreases width - col,
        {
            let ch: char = if (col as usize) < tpw {
                let p = ((col as usize) + s) % tpw;
                pattern_cell(&buildings, p, (sky_height - 1 - row) as usize, sky_height as usize)
            } else {
                ' '
            };
            proof {
                assert(ch == spec_skyline_char(
                    spec_buildings(),
                    scroll_offset as int,
                    sky_height as int,
                    row as int,
                    col as int,
                ));
            }
            push_char(&mut line, ch);
            col = col + 1;
        }
        rows.push(line);
        row = row + 1;
    }
    rows
}

} // verus!

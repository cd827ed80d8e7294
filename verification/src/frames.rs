//! The frame catalog: a fixed ordered cycle of ASCII art poses of the
//! walking stick figure, each a short list of text rows.

use vstd::prelude::*;

verus! {

/// Number of frames in one walking cycle.
pub open spec fn spec_frame_count() -> int {
    6
}

/// Nominal width of a frame in columns, used to centre the figure.
pub open spec fn spec_frame_width() -> int {
    12
}

/// The rows of frame `i` of the walking cycle, top to bottom.
pub open spec fn spec_frame(i: int) -> Seq<Seq<char>> {
    if i == 0 {
        seq![
            "    _O_     "@,
            "   / | \\   "@,
            "  /  |  \\  "@,
            "     |      "@,
            "     |      "@,
            "    / \\    "@,
            "   /   \\   "@,
            "  /     \\  "@,
            " /       |  "@,
            "_/        | "@,
        ]
    } else if i == 1 {
        seq![
            "     O      "@,
            "   / | \\   "@,
            "  /  |  |   "@,
            "     |      "@,
            "     |      "@,
            "    / \\    "@,
            "   /   |    "@,
            "  |    |    "@,
            "  |     \\  "@,
            " _/      \\_ "@,
        ]
    } else if i == 2 {
        seq![
            "     O      "@,
            "    /|\\    "@,
            "   / | \\   "@,
            "     |      "@,
            "     |      "@,
            "     |      "@,
            "    / \\    "@,
            "   |   |    "@,
            "   |   |    "@,
            "  _/   \\_ "@,
        ]
    } else if i == 3 {
        seq![
            "   _O_      "@,
            "  / | \\    "@,
            " /  |  \\   "@,
            "     |      "@,
            "     |      "@,
            "    / \\    "@,
            "   /   \\   "@,
            "  /     \\  "@,
            " |       \\ "@,
            " |        \\_"@,
        ]
    } else if i == 4 {
        seq![
            "     O      "@,
            "   / | \\   "@,
            "  |  |  \\  "@,
            "     |      "@,
            "     |      "@,
            "    / \\    "@,
            "   |   \\   "@,
            "   |    |   "@,
            "  /     |   "@,
            " /      \\_ "@,
        ]
    } else if i == 5 {
        seq![
            "     O      "@,
            "    /|\\    "@,
            "   / | \\   "@,
            "     |      "@,
            "     |      "@,
            "     |      "@,
            "    / \\    "@,
            "   |   |    "@,
            "   |   |    "@,
            "  _/   \\_ "@,
        ]
    } else {
        Seq::empty()
    }
}

/// Number of frames in one walking cycle.
pub fn frame_count() -> (n: usize)
    ensures
        n as int == spec_frame_count(),
{
    6
}

/// Nominal width of a frame in columns, used to centre the figure.
pub fn frame_width() -> (w: u16)
    ensures
        w as int == spec_frame_width(),
{
    12
}

/// The characters of `s`, in order.
fn str_chars(s: &str) -> (v: Vec<char>)
    ensures
        v@ == s@,
{
    let n = s.unicode_len();
    let mut v: Vec<char> = Vec::new();
    let mut i: usize = 0;
    while i < n
        invariant
            i <= n,
            n == s@.len(),
            v@.len() == i as int,
            forall|k: int| 0 <= k < i as int ==> v@[k] == s@[k],
        decreases n - i,
    {
        v.push(s.get_char(i));
        i = i + 1;
    }
    proof {
        assert(v@ =~= s@);
    }
    v
}

/// The rows of frame `i` as string slices.
fn frame_strs(i: usize) -> (r: Vec<&'static str>)
    requires
        i < spec_frame_count(),
    ensures
        r@.len() == spec_frame(i as int).len(),
        forall|k: int| 0 <= k < r@.len() ==> (#[trigger] r@[k])@ == spec_frame(i as int)[k],
{
    let mut v: Vec<&'static str> = Vec::new();
    if i == 0 {
        v.push("    _O_     ");
        v.push("   / | \\   ");
        v.push("  /  |  \\  ");
        v.push("     |      ");
        v.push("     |      ");
        v.push("    / \\    ");
        v.push("   /   \\   ");
        v.push("  /     \\  ");
        v.push(" /       |  ");
        v.push("_/        | ");
    } else if i == 1 {
        v.push("     O      ");
        v.push("   / | \\   ");
        v.push("  /  |  |   ");
        v.push("     |      ");
        v.push("     |      ");
        v.push("    / \\    ");
        v.push("   /   |    ");
        v.push("  |    |    ");
        v.push("  |     \\  ");
        v.push(" _/      \\_ ");
    } else if i == 2 {
        v.push("     O      ");
        v.push("    /|\\    ");
        v.push("   / | \\   ");
        v.push("     |      ");
        v.push("     |      ");
        v.push("     |      ");
        v.push("    / \\    ");
        v.push("   |   |    ");
        v.push("   |   |    ");
        v.push("  _/   \\_ ");
    } else if i == 3 {
        v.push("   _O_      ");
        v.push("  / | \\    ");
        v.push(" /  |  \\   ");
        v.push("     |      ");
        v.push("     |      ");
        v.push("    / \\    ");
        v.push("   /   \\   ");
        v.push("  /     \\  ");
        v.push(" |       \\ ");
        v.push(" |        \\_");
    } else if i == 4 {
        v.push("     O      ");
        v.push("   / | \\   ");
        v.push("  |  |  \\  ");
        v.push("     |      ");
        v.push("     |      ");
        v.push("    / \\    ");
        v.push("   |   \\   ");
        v.push("   |    |   ");
        v.push("  /     |   ");
        v.push(" /      \\_ ");
    } else {
        v.push("     O      ");
        v.push("    /|\\    ");
        v.push("   / | \\   ");
        v.push("     |      ");
        v.push("     |      ");
        v.push("     |      ");
        v.push("    / \\    ");
        v.push("   |   |    ");
        v.push("   |   |    ");
        v.push("  _/   \\_ ");
    }
    v
}

/// The rows of frame `i` of the walking cycle, top to bottom, as
/// character grids.
pub fn frame(i: usize) -> (r: Vec<Vec<char>>)
    requires
        i < spec_frame_count(),
    ensures
        r@.len() == spec_frame(i as int).len(),
        forall|k: int| 0 <= k < r@.len() ==> (#[trigger] r@[k])@ == spec_frame(i as int)[k],
{
    let strs = frame_strs(i);
    let mut out: Vec<Vec<char>> = Vec::new();
    let mut k: usize = 0;
    while k < strs.len()
        invariant
            k <= strs@.len(),
            strs@.len() == spec_frame(i as int).len(),
            forall|m: int| 0 <= m < strs@.len() ==> (#[trigger] strs@[m])@ == spec_frame(i as int)[m],
            out@.len() == k as int,
            forall|m: int| 0 <= m < k as int ==> (#[trigger] out@[m])@ == spec_frame(i as int)[m],
        decreases strs@.len() - k,
    {
        let row = str_chars(strs[k]);
        out.push(row);
        k = k + 1;
    }
    out
}

} // verus!

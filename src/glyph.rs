//! Laid-out glyphs as the font rasterizer reports them, in integers.
use vstd::prelude::*;

verus! {

/// One pixel of a glyph's bounding box and how much of it the glyph covers.
#[derive(Clone, Copy, Debug, PartialEq, Eq, Structural)]
pub struct Coverage {
    /// Column inside the glyph's bounding box.
    pub x: u32,
    /// Row inside the glyph's bounding box.
    pub y: u32,
    /// Coverage scaled to `0..=255` (`coverage * 255`, truncated).
    pub value: u32,
}

/// The visible part of a glyph: its pixel bounding box and coverage samples.
#[derive(Clone, Debug, PartialEq, Eq)]
pub struct GlyphInk {
    /// Left column of the bounding box, relative to the run's origin.
    pub min_x: i32,
    /// Top row of the bounding box, relative to the run's origin.
    pub min_y: i32,
    /// `ceil(min_x + advance width)`: where the glyph's ink run ends.
    pub right_edge: i64,
    /// The samples in the order the rasterizer yields them.
    pub coverage: Vec<Coverage>,
}

/// A glyph placed on the line by the layout engine.
#[derive(Clone, Debug, PartialEq, Eq)]
pub struct LaidOutGlyph {
    /// `ceil(pen x + advance width)`: where the glyph's advance ends.
    pub right_edge: i64,
    /// Absent for glyphs without visible ink, such as a space.
    pub ink: Option<GlyphInk>,
}

/// `v` limited to `lo..=hi`.
pub open spec fn clamp(v: int, lo: int, hi: int) -> int {
    if v < lo {
        lo
    } else if v > hi {
        hi
    } else {
        v
    }
}

/// Width of a run as drawn: the ink right edge of the rightmost glyph that
/// has ink, as an `i32`; zero when no glyph has ink.
pub open spec fn ink_extent(glyphs: Seq<LaidOutGlyph>) -> int
    decreases glyphs.len(),
{
    if glyphs.len() == 0 {
        0
    } else {
        match glyphs.last().ink {
            Some(ink) => clamp(ink.right_edge as int, i32::MIN as int, i32::MAX as int),
            None => ink_extent(glyphs.drop_last()),
        }
    }
}

/// Width of a run as measured: the advance right edge of the last glyph, as
/// a `u32`; zero for no glyphs.
pub open spec fn pen_extent(glyphs: Seq<LaidOutGlyph>) -> int {
    if glyphs.len() == 0 {
        0
    } else {
        clamp(glyphs.last().right_edge as int, 0, u32::MAX as int)
    }
}

/// A run of one inked glyph whose ink and advance end at the same column,
/// between zero and `i32::MAX`, is as wide drawn as it is measured.
pub proof fn lemma_single_glyph_widths_agree(g: LaidOutGlyph)
    requires
        g.ink.is_some(),
        g.ink.unwrap().right_edge == g.right_edge,
        0 <= g.right_edge <= i32::MAX,
    ensures
        ink_extent(seq![g]) == pen_extent(seq![g]),
        ink_extent(seq![g]) == g.right_edge,
{
    assert(seq![g].last() == g);
}

/// The drawn width of a run: scans from the end for the first glyph with ink.
pub fn ink_width(glyphs: &Vec<LaidOutGlyph>) -> (w: i32)
    ensures
        w == ink_extent(glyphs@),
{
    let mut i: usize = glyphs.len();
    assert(glyphs@.take(i as int) =~= glyphs@);
    while i > 0
        invariant
            i <= glyphs@.len(),
            ink_extent(glyphs@) == ink_extent(glyphs@.take(i as int)),
        decreases i,
    {
        let g = &glyphs[i - 1];
        assert(glyphs@.take(i as int).last() == glyphs@[i - 1]);
        assert(glyphs@.take(i as int).drop_last() =~= glyphs@.take(i - 1));
        match &g.ink {
            Some(ink) => {
                return clamp_i32(ink.right_edge);
            },
            None => {},
        }
        i -= 1;
    }
    0
}

/// The measured width of a run: the advance right edge of its last glyph.
pub fn pen_width(glyphs: &Vec<LaidOutGlyph>) -> (w: u32)
    ensures
        w == pen_extent(glyphs@),
{
    if glyphs.len() == 0 {
        0
    } else {
        clamp_u32(glyphs[glyphs.len() - 1].right_edge)
    }
}

fn clamp_i32(v: i64) -> (r: i32)
    ensures
        r == clamp(v as int, i32::MIN as int, i32::MAX as int),
{
    if v < i32::MIN as i64 {
        i32::MIN
    } else if v > i32::MAX as i64 {
        i32::MAX
    } else {
        v as i32
    }
}

fn clamp_u32(v: i64) -> (r: u32)
    ensures
        r == clamp(v as int, 0, u32::MAX as int),
{
    if v < 0 {
        0
    } else if v > u32::MAX as i64 {
        u32::MAX
    } else {
        v as u32
    }
}

} // verus!

use vstd::prelude::*;

use crate::color::Rgba;

verus! {

/// What a font reports for one glyph, in the crate's length unit.
#[derive(Clone, Copy, Debug, PartialEq, Eq, Structural)]
pub struct GlyphMetrics {
    pub advance_width: i64,
    pub top: i64,
}

/// Sum of the advance widths of a run of glyphs.
pub open spec fn total_advance(glyphs: Seq<GlyphMetrics>) -> int
    decreases glyphs.len(),
{
    if glyphs.len() == 0 {
        0
    } else {
        total_advance(glyphs.drop_last()) + glyphs.last().advance_width
    }
}

/// Largest `top` of a run of glyphs, and 0 when every top is below 0.
pub open spec fn max_top(glyphs: Seq<GlyphMetrics>) -> int
    decreases glyphs.len(),
{
    if glyphs.len() == 0 {
        0
    } else {
        let m = max_top(glyphs.drop_last());
        if glyphs.last().top > m {
            glyphs.last().top as int
        } else {
            m
        }
    }
}

/// Every partial sum of advance widths is an `i64`.
pub open spec fn advances_fit(glyphs: Seq<GlyphMetrics>) -> bool {
    forall|k: int|
        0 <= k <= glyphs.len() ==> i64::MIN <= #[trigger] total_advance(glyphs.take(k))
            <= i64::MAX
}

/// The size of a line of text: the advances summed, and the tallest glyph.
pub fn measure_text_dimensions(glyphs: &[GlyphMetrics]) -> (r: (i64, i64))
    requires
        advances_fit(glyphs@),
    ensures
        r.0 == total_advance(glyphs@),
        r.1 == max_top(glyphs@),
{
    let mut w: i64 = 0;
    let mut h: i64 = 0;
    let mut i: usize = 0;
    assert(glyphs@.take(0) =~= Seq::<GlyphMetrics>::empty());
    while i < glyphs.len()
        invariant
            i <= glyphs@.len(),
            advances_fit(glyphs@),
            w == total_advance(glyphs@.take(i as int)),
            h == max_top(glyphs@.take(i as int)),
        decreases glyphs@.len() - i,
    {
        let g = glyphs[i];
        assert(glyphs@.take(i + 1).drop_last() =~= glyphs@.take(i as int));
        assert(i64::MIN <= total_advance(glyphs@.take(i + 1)) <= i64::MAX);
        w = w + g.advance_width;
        if g.top > h {
            h = g.top;
        }
        i = i + 1;
    }
    assert(glyphs@.take(i as int) =~= glyphs@);
    (w, h)
}

/// A labelled rectangle. Its box runs from `pos` over the label's size plus
/// `padding` on each side.
pub struct Button {
    pub text: String,
    pub color: Rgba,
    pub text_color: Rgba,
    pub size: u32,
    pub pos: [i64; 2],
    pub width: i64,
    pub height: i64,
    pub padding: [i64; 2],
}

impl Button {
    /// The far horizontal edge of the box.
    pub open spec fn right(&self) -> int {
        self.pos[0] + self.width + 2 * self.padding[0]
    }

    /// The far vertical edge of the box.
    pub open spec fn bottom(&self) -> int {
        self.pos[1] + self.height + 2 * self.padding[1]
    }

    /// The box is inclusive on its near edges and exclusive on its far edges.
    pub open spec fn contains(&self, x: int, y: int) -> bool {
        self.pos[0] <= x < self.right() && self.pos[1] <= y < self.bottom()
    }

    /// Label size and padding are not negative, so the box is not degenerate.
    pub open spec fn wf(&self) -> bool {
        self.width >= 0 && self.height >= 0 && self.padding[0] >= 0 && self.padding[1] >= 0
    }

    /// `self` and `other` differ in their fill color at most.
    pub open spec fn same_but_color(&self, other: &Button) -> bool {
        &&& self.text@ == other.text@
        &&& self.text_color == other.text_color
        &&& self.size == other.size
        &&& self.pos == other.pos
        &&& self.width == other.width
        &&& self.height == other.height
        &&& self.padding == other.padding
    }

    /// A button whose label is measured from the metrics of its glyphs.
    pub fn new(
        text: &str,
        color: Rgba,
        text_color: Rgba,
        size: u32,
        pos: [i64; 2],
        padding: [i64; 2],
        glyphs: &[GlyphMetrics],
    ) -> (b: Button)
        requires
            advances_fit(glyphs@),
        ensures
            b.text@ == text@,
            b.color == color,
            b.text_color == text_color,
            b.size == size,
            b.pos == pos,
            b.width == total_advance(glyphs@),
            b.height == max_top(glyphs@),
            b.padding == padding,
            padding[0] >= 0 && padding[1] >= 0 && (forall|i: int|
                0 <= i < glyphs@.len() ==> glyphs@[i].advance_width >= 0) ==> b.wf(),
    {
        let (width, height) = measure_text_dimensions(glyphs);
        proof {
            lemma_max_top_nonneg(glyphs@);
            if forall|i: int| 0 <= i < glyphs@.len() ==> glyphs@[i].advance_width >= 0 {
                lemma_total_advance_nonneg(glyphs@);
            }
        }
        Button { text: text.to_owned(), color, text_color, size, pos, width, height, padding }
    }

    /// The label's size, padding left out.
    pub fn size(&self) -> (r: (i64, i64))
        ensures
            r == (self.width, self.height),
    {
        (self.width, self.height)
    }

    /// Whether `(x, y)` lies in the button's box.
    pub fn point_inside(&self, x: i64, y: i64) -> (r: bool)
        ensures
            r == self.contains(x as int, y as int),
    {
        let right = self.pos[0] as i128 + self.width as i128 + 2 * (self.padding[0] as i128);
        let bottom = self.pos[1] as i128 + self.height as i128 + 2 * (self.padding[1] as i128);
        self.pos[0] <= x && (x as i128) < right && self.pos[1] <= y && (y as i128) < bottom
    }

    /// The same button with another fill color.
    pub fn with_color(&self, color: Rgba) -> (b: Button)
        ensures
            b.same_but_color(self),
            b.color == color,
    {
        Button {
            text: self.text.clone(),
            color,
            text_color: self.text_color,
            size: self.size,
            pos: self.pos,
            width: self.width,
            height: self.height,
            padding: self.padding,
        }
    }
}

/// Hit testing takes the near edges in and leaves the far edges out: the near
/// corner of a non-empty box is inside, while any point on a far edge, or
/// just before a near edge, is outside.
pub proof fn lemma_button_box_edges(b: Button, x: int, y: int)
    ensures
        b.right() > b.pos[0] && b.bottom() > b.pos[1] ==> b.contains(
            b.pos[0] as int,
            b.pos[1] as int,
        ),
        !b.contains(b.right(), y),
        !b.contains(x, b.bottom()),
        !b.contains(b.pos[0] - 1, y),
        !b.contains(x, b.pos[1] - 1),
{
}

proof fn lemma_max_top_nonneg(glyphs: Seq<GlyphMetrics>)
    ensures
        max_top(glyphs) >= 0,
    decreases glyphs.len(),
{
    if glyphs.len() > 0 {
        lemma_max_top_nonneg(glyphs.drop_last());
    }
}

proof fn lemma_total_advance_nonneg(glyphs: Seq<GlyphMetrics>)
    requires
        forall|i: int| 0 <= i < glyphs.len() ==> glyphs[i].advance_width >= 0,
    ensures
        total_advance(glyphs) >= 0,
    decreases glyphs.len(),
{
    if glyphs.len() > 0 {
        lemma_total_advance_nonneg(glyphs.drop_last());
    }
}

} // verus!

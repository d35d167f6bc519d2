use vstd::prelude::*;

use crate::ui::Button;

verus! {

/// Empty room between widgets; an unset extent counts as 0.
#[derive(Clone, Copy, Debug, PartialEq, Eq, Structural)]
pub struct Spacing {
    pub x: Option<i64>,
    pub y: Option<i64>,
}

impl Spacing {
    pub open spec fn spec_size(&self) -> (i64, i64) {
        (
            match self.x {
                Some(x) => x,
                None => 0,
            },
            match self.y {
                Some(y) => y,
                None => 0,
            },
        )
    }

    pub fn new() -> (s: Spacing)
        ensures
            s.x is None,
            s.y is None,
    {
        Spacing { x: None, y: None }
    }

    pub fn with_x(self, x: i64) -> (s: Spacing)
        ensures
            s.x == Some(x),
            s.y == self.y,
    {
        let mut s = self;
        s.x = Some(x);
        s
    }

    pub fn with_y(self, y: i64) -> (s: Spacing)
        ensures
            s.x == self.x,
            s.y == Some(y),
    {
        let mut s = self;
        s.y = Some(y);
        s
    }

    pub fn with_position(self, x: i64, y: i64) -> (s: Spacing)
        ensures
            s.x == Some(x),
            s.y == Some(y),
    {
        let mut s = self;
        s.x = Some(x);
        s.y = Some(y);
        s
    }

    pub fn size(&self) -> (r: (i64, i64))
        ensures
            r == self.spec_size(),
    {
        let w = match self.x {
            Some(x) => x,
            None => 0,
        };
        let h = match self.y {
            Some(y) => y,
            None => 0,
        };
        (w, h)
    }
}

/// Anything that takes room in a row or a column.
pub enum Widget {
    TextButton(Button),
    Spacer(Spacing),
}

impl Widget {
    pub open spec fn spec_size(&self) -> (i64, i64) {
        match self {
            Widget::TextButton(b) => (b.width, b.height),
            Widget::Spacer(s) => s.spec_size(),
        }
    }

    pub fn size(&self) -> (r: (i64, i64))
        ensures
            r == self.spec_size(),
    {
        match self {
            Widget::TextButton(b) => b.size(),
            Widget::Spacer(s) => s.size(),
        }
    }
}

/// Total width of a run of widgets.
pub open spec fn sum_widths(ws: Seq<Widget>) -> int
    decreases ws.len(),
{
    if ws.len() == 0 {
        0
    } else {
        sum_widths(ws.drop_last()) + ws.last().spec_size().0
    }
}

/// Total height of a run of widgets.
pub open spec fn sum_heights(ws: Seq<Widget>) -> int
    decreases ws.len(),
{
    if ws.len() == 0 {
        0
    } else {
        sum_heights(ws.drop_last()) + ws.last().spec_size().1
    }
}

/// Every running total of widths is an `i64`.
pub open spec fn widths_fit(ws: Seq<Widget>) -> bool {
    forall|k: int| 0 <= k <= ws.len() ==> i64::MIN <= #[trigger] sum_widths(ws.take(k)) <= i64::MAX
}

/// Every running total of heights is an `i64`.
pub open spec fn heights_fit(ws: Seq<Widget>) -> bool {
    forall|k: int|
        0 <= k <= ws.len() ==> i64::MIN <= #[trigger] sum_heights(ws.take(k)) <= i64::MAX
}

/// Lays widgets out left to right. Entry `i` is the trailing edge of widget
/// `i` (the widths of widgets `0..=i` summed) with that widget's own height.
pub fn arrange_horizontally(widgets: &[Widget]) -> (r: Vec<(i64, i64)>)
    requires
        widths_fit(widgets@),
    ensures
        r@.len() == widgets@.len(),
        forall|i: int|
            0 <= i < r@.len() ==> {
                &&& (#[trigger] r@[i]).0 == sum_widths(widgets@.take(i + 1))
                &&& r@[i].1 == widgets@[i].spec_size().1
            },
{
    let mut x: i64 = 0;
    let mut positions: Vec<(i64, i64)> = Vec::new();
    let mut i: usize = 0;
    assert(widgets@.take(0) =~= Seq::<Widget>::empty());
    while i < widgets.len()
        invariant
            i <= widgets@.len(),
            widths_fit(widgets@),
            x == sum_widths(widgets@.take(i as int)),
            positions@.len() == i,
            forall|j: int|
                0 <= j < i ==> {
                    &&& (#[trigger] positions@[j]).0 == sum_widths(widgets@.take(j + 1))
                    &&& positions@[j].1 == widgets@[j].spec_size().1
                },
        decreases widgets@.len() - i,
    {
        let size = widgets[i].size();
        assert(widgets@.take(i + 1).drop_last() =~= widgets@.take(i as int));
        assert(i64::MIN <= sum_widths(widgets@.take(i + 1)) <= i64::MAX);
        x = x + size.0;
        positions.push((x, size.1));
        i = i + 1;
    }
    positions
}

/// Lays widgets out top to bottom. Entry `i` is widget `i`'s own width with
/// its trailing edge (the heights of widgets `0..=i` summed).
pub fn arrange_vertically(widgets: &[Widget]) -> (r: Vec<(i64, i64)>)
    requires
        heights_fit(widgets@),
    ensures
        r@.len() == widgets@.len(),
        forall|i: int|
            0 <= i < r@.len() ==> {
                &&& (#[trigger] r@[i]).0 == widgets@[i].spec_size().0
                &&& r@[i].1 == sum_heights(widgets@.take(i + 1))
            },
{
    let mut y: i64 = 0;
    let mut positions: Vec<(i64, i64)> = Vec::new();
    let mut i: usize = 0;
    assert(widgets@.take(0) =~= Seq::<Widget>::empty());
    while i < widgets.len()
        invariant
            i <= widgets@.len(),
            heights_fit(widgets@),
            y == sum_heights(widgets@.take(i as int)),
            positions@.len() == i,
            forall|j: int|
                0 <= j < i ==> {
                    &&& (#[trigger] positions@[j]).0 == widgets@[j].spec_size().0
                    &&& positions@[j].1 == sum_heights(widgets@.take(j + 1))
                },
        decreases widgets@.len() - i,
    {
        let size = widgets[i].size();
        assert(widgets@.take(i + 1).drop_last() =~= widgets@.take(i as int));
        assert(i64::MIN <= sum_heights(widgets@.take(i + 1)) <= i64::MAX);
        y = y + size.1;
        positions.push((size.0, y));
        i = i + 1;
    }
    positions
}

} // verus!

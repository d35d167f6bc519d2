use vstd::prelude::*;

use crate::color::{gray, opaque, white, Rgba};
use crate::grid::{cell_index, cleared, in_grid, painted, PixelGrid};
use crate::ui::Button;

verus! {

/// Distance of `p` from `origin` in whole cells, measured without sign, so a
/// point before the origin folds back onto the first cells.
pub open spec fn cell_coord(p: int, origin: int, cell_size: int) -> int {
    let d = p - origin;
    (if d < 0 {
        -d
    } else {
        d
    }) / cell_size
}

/// The cell under the window point `(pointer_x, pointer_y)`, for a canvas
/// whose first cell starts at `origin`. The result may lie off the grid.
pub fn map_window_to_cell(pointer_x: i64, pointer_y: i64, origin: [i64; 2], cell_size: i64) -> (r:
    (u64, u64))
    requires
        cell_size > 0,
    ensures
        r.0 == cell_coord(pointer_x as int, origin[0] as int, cell_size as int),
        r.1 == cell_coord(pointer_y as int, origin[1] as int, cell_size as int),
{
    (axis_to_cell(pointer_x, origin[0], cell_size), axis_to_cell(pointer_y, origin[1], cell_size))
}

fn axis_to_cell(p: i64, origin: i64, cell_size: i64) -> (r: u64)
    requires
        cell_size > 0,
    ensures
        r == cell_coord(p as int, origin as int, cell_size as int),
{
    let mut d: i128 = p as i128 - origin as i128;
    if d < 0 {
        d = -d;
    }
    let c = cell_size as i128;
    assert(d / c <= d) by (nonlinear_arith)
        requires
            d >= 0,
            c >= 1,
    ;
    (d / c) as u64
}

/// Mapping a point to a cell and painting there leaves the grid as it was
/// whenever the cell falls off the grid.
pub proof fn lemma_map_then_paint_off_grid(
    g: PixelGrid,
    pointer_x: i64,
    pointer_y: i64,
    origin: [i64; 2],
    cell_size: i64,
)
    requires
        g.wf(),
        cell_size > 0,
        !in_grid(
            g.spec_side(),
            cell_coord(pointer_x as int, origin[0] as int, cell_size as int),
            cell_coord(pointer_y as int, origin[1] as int, cell_size as int),
        ),
    ensures
        painted(
            g.cells(),
            g.spec_side(),
            cell_coord(pointer_x as int, origin[0] as int, cell_size as int),
            cell_coord(pointer_y as int, origin[1] as int, cell_size as int),
            g.spec_ink(),
        ) == g.cells(),
{
}

/// A point on the canvas maps to a cell on the grid, so painting while on the
/// canvas never meets the fold of points before the origin.
pub proof fn lemma_canvas_point_in_grid(e: Editor, x: i64, y: i64)
    requires
        e.wf(),
        e.canvas_contains(x as int, y as int),
    ensures
        in_grid(
            e.grid.spec_side(),
            cell_coord(x as int, e.origin[0] as int, e.cell_size as int),
            cell_coord(y as int, e.origin[1] as int, e.cell_size as int),
        ),
{
    let side = e.grid.spec_side() as int;
    let c = e.cell_size as int;
    let dx = x - e.origin[0];
    let dy = y - e.origin[1];
    assert(0 <= dx / c < side) by (nonlinear_arith)
        requires
            0 <= dx < side * c,
            c > 0,
    ;
    assert(0 <= dy / c < side) by (nonlinear_arith)
        requires
            0 <= dy < side * c,
            c > 0,
    ;
}

/// Where the pointer is and what it is doing.
#[derive(Clone, Copy, Debug)]
pub struct PointerState {
    pub position: [i64; 2],
    pub is_down: bool,
    pub is_inside_canvas: bool,
}

#[derive(Clone, Copy, Debug, PartialEq, Eq, Structural)]
pub enum PressState {
    Press,
    Release,
}

#[derive(Clone, Copy, Debug, PartialEq, Eq, Structural)]
pub enum MouseButton {
    Left,
    Other,
}

#[derive(Clone, Copy, Debug, PartialEq, Eq, Structural)]
pub struct ButtonEvent {
    pub state: PressState,
    pub button: MouseButton,
}

/// One input event: the pointer moved, a mouse button changed, or both.
#[derive(Clone, Copy, Debug)]
pub struct InputEvent {
    pub cursor: Option<[i64; 2]>,
    pub button: Option<ButtonEvent>,
}

/// The fill of a button under the pointer.
pub open spec fn highlight() -> Rgba {
    opaque(128, 128, 128)
}

/// The fill of a button away from the pointer.
pub open spec fn idle() -> Rgba {
    opaque(255, 255, 255)
}

pub open spec fn is_highlighted(b: Button) -> bool {
    b.color == highlight()
}

/// The label of the button that clears the canvas.
pub open spec fn is_clear_label(s: Seq<char>) -> bool {
    s == seq!['c', 'l', 'e', 'a', 'r']
}

/// Whether the left button is held after `event`, given whether it was.
pub open spec fn down_after(was_down: bool, event: Option<ButtonEvent>) -> bool {
    match event {
        Some(ButtonEvent { state: PressState::Press, button: MouseButton::Left }) => true,
        Some(ButtonEvent { state: PressState::Release, button: MouseButton::Left }) => false,
        _ => was_down,
    }
}

/// The event is the left button going up.
pub open spec fn is_left_release(event: Option<ButtonEvent>) -> bool {
    event == Some(ButtonEvent { state: PressState::Release, button: MouseButton::Left })
}

/// The first highlighted button is the one that clears the canvas.
pub open spec fn clear_activated(buttons: Seq<Button>) -> bool {
    exists|i: int|
        0 <= i < buttons.len() && is_highlighted(#[trigger] buttons[i]) && (forall|j: int|
            0 <= j < i ==> !is_highlighted(#[trigger] buttons[j])) && is_clear_label(buttons[i].text@)
}

fn label_is_clear(s: &str) -> (r: bool)
    ensures
        r == is_clear_label(s@),
{
    if s.unicode_len() != 5 {
        return false;
    }
    let r = s.get_char(0) == 'c' && s.get_char(1) == 'l' && s.get_char(2) == 'e' && s.get_char(3)
        == 'a' && s.get_char(4) == 'r';
    assert(r ==> s@ =~= seq!['c', 'l', 'e', 'a', 'r']);
    r
}

/// The button that a click activates: when the left button is released,
/// having been down, with the pointer off the canvas, the first highlighted
/// button; otherwise none.
pub fn handle_button_activation(
    buttons: &[Button],
    was_down: bool,
    event: Option<ButtonEvent>,
    pointer: &PointerState,
) -> (r: Option<usize>)
    ensures
        match r {
            Some(i) => {
                &&& was_down
                &&& is_left_release(event)
                &&& !pointer.is_inside_canvas
                &&& i < buttons@.len()
                &&& is_highlighted(buttons@[i as int])
                &&& forall|j: int| 0 <= j < i ==> !is_highlighted(#[trigger] buttons@[j])
            },
            None => !(was_down && is_left_release(event) && !pointer.is_inside_canvas && exists|
                j: int,
            | 0 <= j < buttons@.len() && is_highlighted(#[trigger] buttons@[j])),
        },
{
    let released = match event {
        Some(ButtonEvent { state: PressState::Release, button: MouseButton::Left }) => true,
        _ => false,
    };
    if !was_down || !released || pointer.is_inside_canvas {
        return None;
    }
    let hl = gray();
    let mut i: usize = 0;
    while i < buttons.len()
        invariant
            i <= buttons@.len(),
            hl == highlight(),
            was_down && is_left_release(event) && !pointer.is_inside_canvas,
            forall|j: int| 0 <= j < i ==> !is_highlighted(#[trigger] buttons@[j]),
        decreases buttons@.len() - i,
    {
        let c = buttons[i].color;
        if c == hl {
            return Some(i);
        }
        i = i + 1;
    }
    None
}

/// `after` is `before` with each button's fill set by whether `(x, y)` lies
/// in it.
pub open spec fn hover_applied(before: Seq<Button>, after: Seq<Button>, x: int, y: int) -> bool {
    &&& after.len() == before.len()
    &&& forall|i: int|
        0 <= i < before.len() ==> {
            &&& (#[trigger] after[i]).same_but_color(&before[i])
            &&& after[i].color == if before[i].contains(x, y) {
                highlight()
            } else {
                idle()
            }
        }
}

/// The drawing state: the grid, the sidebar buttons and the pointer. The
/// canvas shows cell `(c, r)` at `origin + (c, r) * cell_size`.
pub struct Editor {
    pub grid: PixelGrid,
    pub buttons: Vec<Button>,
    pub pointer: PointerState,
    pub origin: [i64; 2],
    pub cell_size: i64,
}

impl Editor {
    /// The grid fits the window's coordinates.
    pub open spec fn wf(&self) -> bool {
        &&& self.grid.wf()
        &&& self.cell_size > 0
        &&& self.origin[0] + self.grid.spec_side() * self.cell_size <= i64::MAX
        &&& self.origin[1] + self.grid.spec_side() * self.cell_size <= i64::MAX
    }

    /// The far edge of the canvas on `axis`.
    pub open spec fn canvas_end(&self, axis: int) -> int {
        self.origin[axis] + self.grid.spec_side() * self.cell_size
    }

    /// The canvas covers its cells: inclusive at the origin, exclusive at the
    /// far edges.
    pub open spec fn canvas_contains(&self, x: int, y: int) -> bool {
        self.origin[0] <= x < self.canvas_end(0) && self.origin[1] <= y < self.canvas_end(1)
    }

    /// The cell under the pointer, whether or not it is on the grid.
    pub open spec fn pointer_cell(&self) -> (int, int) {
        (
            cell_coord(self.pointer.position[0] as int, self.origin[0] as int, self.cell_size as int),
            cell_coord(self.pointer.position[1] as int, self.origin[1] as int, self.cell_size as int),
        )
    }

    /// An editor with a blank grid; the pointer starts up and off the canvas.
    pub fn new(
        side: u32,
        origin: [i64; 2],
        cell_size: i64,
        background: Rgba,
        ink: Rgba,
        buttons: Vec<Button>,
    ) -> (e: Editor)
        requires
            4 * side * side <= usize::MAX,
            cell_size > 0,
            origin[0] + side * cell_size <= i64::MAX,
            origin[1] + side * cell_size <= i64::MAX,
        ensures
            e.wf(),
            e.grid.spec_side() == side,
            e.grid.spec_background() == background,
            e.grid.spec_ink() == ink,
            e.grid.cells() == cleared(side as nat, background),
            e.buttons@ == buttons@,
            e.pointer.position[0] == -1 && e.pointer.position[1] == -1,
            !e.pointer.is_down && !e.pointer.is_inside_canvas,
            e.origin == origin,
            e.cell_size == cell_size,
    {
        Editor {
            grid: PixelGrid::new(side, background, ink),
            buttons,
            pointer: PointerState { position: [-1, -1], is_down: false, is_inside_canvas: false },
            origin,
            cell_size,
        }
    }

    /// Whether `(x, y)` lies on the canvas.
    pub fn point_on_canvas(&self, x: i64, y: i64) -> (r: bool)
        requires
            self.wf(),
        ensures
            r == self.canvas_contains(x as int, y as int),
    {
        let extent = self.grid.side() as i128 * self.cell_size as i128;
        let end_x = self.origin[0] as i128 + extent;
        let end_y = self.origin[1] as i128 + extent;
        self.origin[0] <= x && (x as i128) < end_x && self.origin[1] <= y && (y as i128) < end_y
    }

    /// Moves the pointer to `(x, y)`: recomputes whether it is on the canvas
    /// and which buttons it highlights. Whether it is held is kept.
    pub fn update_pointer(&mut self, x: i64, y: i64) -> (p: PointerState)
        requires
            old(self).wf(),
        ensures
            final(self).wf(),
            final(self).grid == old(self).grid,
            final(self).origin == old(self).origin,
            final(self).cell_size == old(self).cell_size,
            final(self).pointer.position[0] == x,
            final(self).pointer.position[1] == y,
            final(self).pointer.is_down == old(self).pointer.is_down,
            final(self).pointer.is_inside_canvas == old(self).canvas_contains(x as int, y as int),
            hover_applied(old(self).buttons@, final(self).buttons@, x as int, y as int),
            p == final(self).pointer,
    {
        let inside = self.point_on_canvas(x, y);
        self.pointer = PointerState { position: [x, y], is_down: self.pointer.is_down, is_inside_canvas: inside };
        let n = self.buttons.len();
        let mut i: usize = 0;
        while i < n
            invariant
                i <= n,
                n == self.buttons@.len(),
                n == old(self).buttons@.len(),
                self.grid == old(self).grid,
                self.origin == old(self).origin,
                self.cell_size == old(self).cell_size,
                self.pointer.position[0] == x,
                self.pointer.position[1] == y,
                self.pointer.is_down == old(self).pointer.is_down,
                self.pointer.is_inside_canvas == old(self).canvas_contains(x as int, y as int),
                forall|j: int|
                    0 <= j < i ==> {
                        &&& (#[trigger] self.buttons@[j]).same_but_color(&old(self).buttons@[j])
                        &&& self.buttons@[j].color == if old(self).buttons@[j].contains(
                            x as int,
                            y as int,
                        ) {
                            highlight()
                        } else {
                            idle()
                        }
                    },
                forall|j: int| i <= j < n ==> self.buttons@[j] == old(self).buttons@[j],
            decreases n - i,
        {
            let over = self.buttons[i].point_inside(x, y);
            let c = if over {
                gray()
            } else {
                white()
            };
            let b = self.buttons[i].with_color(c);
            self.buttons.set(i, b);
            i = i + 1;
        }
        self.pointer
    }

    /// Paints the cell under the pointer, if it is on the grid.
    pub fn paint_at_pointer(&mut self)
        requires
            old(self).wf(),
        ensures
            final(self).wf(),
            final(self).buttons@ == old(self).buttons@,
            final(self).pointer == old(self).pointer,
            final(self).origin == old(self).origin,
            final(self).cell_size == old(self).cell_size,
            final(self).grid.spec_side() == old(self).grid.spec_side(),
            final(self).grid.spec_background() == old(self).grid.spec_background(),
            final(self).grid.spec_ink() == old(self).grid.spec_ink(),
            final(self).grid.cells() == painted(
                old(self).grid.cells(),
                old(self).grid.spec_side(),
                old(self).pointer_cell().0,
                old(self).pointer_cell().1,
                old(self).grid.spec_ink(),
            ),
    {
        let (col, row) = map_window_to_cell(
            self.pointer.position[0],
            self.pointer.position[1],
            self.origin,
            self.cell_size,
        );
        self.grid.paint_cell(col, row);
    }

    /// The grid cell under the pointer, or `None` when it is off the grid.
    pub fn active_cell(&self) -> (r: Option<(u64, u64)>)
        requires
            self.wf(),
        ensures
            match r {
                Some(c) => in_grid(self.grid.spec_side(), c.0 as int, c.1 as int) && c.0
                    == self.pointer_cell().0 && c.1 == self.pointer_cell().1,
                None => !in_grid(
                    self.grid.spec_side(),
                    self.pointer_cell().0,
                    self.pointer_cell().1,
                ),
            },
    {
        let (col, row) = map_window_to_cell(
            self.pointer.position[0],
            self.pointer.position[1],
            self.origin,
            self.cell_size,
        );
        let side = self.grid.side();
        if (col as u128) < (side as u128) && (row as u128) < (side as u128) {
            Some((col, row))
        } else {
            None
        }
    }

    /// Takes one input event. A move updates the pointer; a left press or
    /// release sets whether it is held. While held on the canvas, the cell
    /// under it is painted. A left release off the canvas, after the button
    /// was down, activates the first highlighted button; when that is the
    /// clear button, the grid is cleared. Returns whether the grid was
    /// written.
    pub fn handle_events(&mut self, event: InputEvent) -> (written: bool)
        requires
            old(self).wf(),
        ensures
            final(self).wf(),
            final(self).origin == old(self).origin,
            final(self).cell_size == old(self).cell_size,
            final(self).grid.spec_side() == old(self).grid.spec_side(),
            final(self).grid.spec_background() == old(self).grid.spec_background(),
            final(self).grid.spec_ink() == old(self).grid.spec_ink(),
            match event.cursor {
                Some(c) => {
                    &&& final(self).pointer.position == c
                    &&& final(self).pointer.is_inside_canvas == old(self).canvas_contains(
                        c[0] as int,
                        c[1] as int,
                    )
                    &&& hover_applied(
                        old(self).buttons@,
                        final(self).buttons@,
                        c[0] as int,
                        c[1] as int,
                    )
                },
                None => {
                    &&& final(self).pointer.position == old(self).pointer.position
                    &&& final(self).pointer.is_inside_canvas == old(
                        self,
                    ).pointer.is_inside_canvas
                    &&& final(self).buttons@ == old(self).buttons@
                },
            },
            final(self).pointer.is_down == down_after(old(self).pointer.is_down, event.button),
            if final(self).pointer.is_down && final(self).pointer.is_inside_canvas {
                final(self).grid.cells() == painted(
                    old(self).grid.cells(),
                    old(self).grid.spec_side(),
                    final(self).pointer_cell().0,
                    final(self).pointer_cell().1,
                    old(self).grid.spec_ink(),
                )
            } else if old(self).pointer.is_down && is_left_release(event.button)
                && !final(self).pointer.is_inside_canvas && clear_activated(final(self).buttons@) {
                final(self).grid.cells() == cleared(
                    old(self).grid.spec_side(),
                    old(self).grid.spec_background(),
                )
            } else {
                final(self).grid.cells() == old(self).grid.cells()
            },
            written == ((final(self).pointer.is_down && final(self).pointer.is_inside_canvas) || (old(
                self,
            ).pointer.is_down && is_left_release(event.button)
                && !final(self).pointer.is_inside_canvas && clear_activated(final(self).buttons@))),
    {
        let was_down = self.pointer.is_down;
        match event.cursor {
            Some(c) => {
                self.update_pointer(c[0], c[1]);
                assert(self.pointer.position =~= c);
            },
            None => {},
        }
        match event.button {
            Some(ButtonEvent { state: PressState::Press, button: MouseButton::Left }) => {
                self.pointer.is_down = true;
            },
            Some(ButtonEvent { state: PressState::Release, button: MouseButton::Left }) => {
                self.pointer.is_down = false;
            },
            _ => {},
        }
        if self.pointer.is_inside_canvas && self.pointer.is_down {
            self.paint_at_pointer();
            return true;
        }
        let target = handle_button_activation(
            self.buttons.as_slice(),
            was_down,
            event.button,
            &self.pointer,
        );
        match target {
            Some(i) => {
                if label_is_clear(self.buttons[i].text.as_str()) {
                    self.grid.clear_grid();
                    return true;
                }
            },
            None => {},
        }
        match event.button {
            Some(ButtonEvent { state: PressState::Press, button: MouseButton::Left }) => {
                self.pointer.is_down = true;
            },
            Some(ButtonEvent { state: PressState::Release, button: MouseButton::Left }) => {
                self.pointer.is_down = false;
            },
            _ => {},
        }
        if self.pointer.is_inside_canvas && self.pointer.is_down {
            self.paint_at_pointer();
            return true;
        }
        let target = handle_button_activation(
            self.buttons.as_slice(),
            was_down,
            event.button,
            &self.pointer,
        );
        match target {
            Some(i) => {
                if label_is_clear(self.buttons[i].text.as_str()) {
                    self.grid.clear_grid();
                    return true;
                }
                assert forall|k: int|
                    0 <= k < self.buttons@.len() && is_highlighted(#[trigger] self.buttons@[k])
                        && (forall|j: int|
                        0 <= j < k ==> !is_highlighted(#[trigger] self.buttons@[j])) implies k
                    == i by {
                    if k < i {
                    } else if k > i {
                        assert(!is_highlighted(self.buttons@[i as int]));
                    }
                }
            },
            None => {},
        }
        false
    }
}

} // verus!

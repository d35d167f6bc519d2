use rix3l::color::{black, blue, gray, green, red, white, Rgba};
use rix3l::editor::{
    handle_button_activation, map_window_to_cell, ButtonEvent, Editor,
    InputEvent, MouseButton, PointerState, PressState,
};
use rix3l::grid::PixelGrid;
use rix3l::ui::{Button, GlyphMetrics};

// Lengths below are in hundredths of a pixel.
const ORIGIN: [i64; 2] = [1000, 1000];
const CELL: i64 = 3675;
const SIDE: u32 = 24;

fn clear_button() -> Button {
    Button::new(
        "clear",
        white(),
        black(),
        22,
        [91000, 42000],
        [1000, 1000],
        &[GlyphMetrics { advance_width: 12000, top: 2000 }],
    )
}

fn editor() -> Editor {
    Editor::new(SIDE, ORIGIN, CELL, black(), white(), vec![clear_button()])
}

fn moved(x: i64, y: i64) -> InputEvent {
    InputEvent { cursor: Some([x, y]), button: None }
}

fn left(state: PressState) -> InputEvent {
    InputEvent { cursor: None, button: Some(ButtonEvent { state, button: MouseButton::Left }) }
}

fn painted_cells(e: &Editor) -> Vec<(u32, u32)> {
    let mut r = Vec::new();
    for row in 0..SIDE {
        for col in 0..SIDE {
            if e.grid.get_pixel(col, row) == Some(white()) {
                r.push((col, row));
            }
        }
    }
    r
}

#[test]
fn colors_are_opaque() {
    assert_eq!(red(), Rgba { r: 255, g: 0, b: 0, a: 255 });
    assert_eq!(green(), Rgba { r: 0, g: 255, b: 0, a: 255 });
    assert_eq!(blue(), Rgba { r: 0, g: 0, b: 255, a: 255 });
    assert_eq!(white(), Rgba { r: 255, g: 255, b: 255, a: 255 });
    assert_eq!(gray(), Rgba { r: 128, g: 128, b: 128, a: 255 });
    assert_eq!(black(), Rgba { r: 0, g: 0, b: 0, a: 255 });
}

#[test]
fn new_grid_is_background() {
    let g = PixelGrid::new(3, black(), white());
    assert_eq!(g.side(), 3);
    assert_eq!(g.background(), black());
    assert_eq!(g.ink(), white());
    assert_eq!(g.pixels().len(), 9);
    assert!(g.pixels().iter().all(|&c| c == black()));
}

#[test]
fn get_pixel_off_grid_is_none() {
    let g = PixelGrid::new(3, black(), white());
    assert_eq!(g.get_pixel(2, 2), Some(black()));
    assert_eq!(g.get_pixel(3, 0), None);
    assert_eq!(g.get_pixel(0, 3), None);
}

#[test]
fn paint_cell_sets_ink_row_major() {
    let mut g = PixelGrid::new(3, black(), white());
    g.paint_cell(2, 1);
    assert_eq!(g.get_pixel(2, 1), Some(white()));
    assert_eq!(g.pixels()[5], white());
    assert_eq!(g.pixels().iter().filter(|&&c| c == white()).count(), 1);
}

#[test]
fn paint_cell_off_grid_is_noop() {
    let mut g = PixelGrid::new(3, black(), white());
    g.paint_cell(3, 0);
    g.paint_cell(0, 3);
    g.paint_cell(u64::MAX, u64::MAX);
    assert!(g.pixels().iter().all(|&c| c == black()));
}

#[test]
fn map_then_paint_off_grid_leaves_grid() {
    let mut g = PixelGrid::new(SIDE, black(), white());
    let far = ORIGIN[0] + SIDE as i64 * CELL + 5;
    let (col, row) = map_window_to_cell(far, 2000, ORIGIN, CELL);
    assert_eq!((col, row), (24, 0));
    g.paint_cell(col, row);
    assert!(g.pixels().iter().all(|&c| c == black()));
}

#[test]
fn map_window_to_cell_scenario() {
    assert_eq!(map_window_to_cell(2800, 4600, ORIGIN, CELL), (0, 0));
    assert_eq!(map_window_to_cell(1000 + 3675, 1000 + 2 * 3675 - 1, ORIGIN, CELL), (1, 1));
}

#[test]
fn map_window_to_cell_folds_points_before_origin() {
    assert_eq!(map_window_to_cell(1000 - 3675 - 1, 1000, ORIGIN, CELL), (1, 0));
    assert_eq!(map_window_to_cell(i64::MIN, i64::MAX, [i64::MAX, i64::MIN], 1), (u64::MAX, u64::MAX));
}

#[test]
fn clear_grid_restores_background() {
    let mut g = PixelGrid::new(4, black(), white());
    g.paint_cell(0, 0);
    g.paint_cell(3, 3);
    g.clear_grid();
    assert!(g.pixels().iter().all(|&c| c == black()));
}

#[test]
fn clear_grid_is_idempotent() {
    let mut g = PixelGrid::new(4, black(), white());
    g.paint_cell(1, 2);
    g.clear_grid();
    let once = g.pixels().to_vec();
    g.clear_grid();
    assert_eq!(g.pixels().to_vec(), once);
}

#[test]
fn new_editor_starts_idle() {
    let e = editor();
    assert_eq!(e.pointer.position, [-1, -1]);
    assert!(!e.pointer.is_down);
    assert!(!e.pointer.is_inside_canvas);
    assert_eq!(e.grid.side(), SIDE);
    assert!(painted_cells(&e).is_empty());
}

#[test]
fn canvas_near_edges_in_far_edges_out() {
    let e = editor();
    let end = ORIGIN[0] + SIDE as i64 * CELL;
    assert!(e.point_on_canvas(1000, 1000));
    assert!(e.point_on_canvas(end - 1, end - 1));
    assert!(!e.point_on_canvas(end, 2000));
    assert!(!e.point_on_canvas(2000, end));
    assert!(!e.point_on_canvas(999, 2000));
}

#[test]
fn update_pointer_highlights_hovered_button() {
    let mut e = editor();
    let p = e.update_pointer(100000, 44000);
    assert_eq!(p.position, [100000, 44000]);
    assert!(!p.is_inside_canvas);
    assert_eq!(e.buttons[0].color, gray());
    let p = e.update_pointer(115000, 44000);
    assert!(!p.is_inside_canvas);
    assert_eq!(e.buttons[0].color, white());
    let p = e.update_pointer(2800, 4600);
    assert!(p.is_inside_canvas);
    assert!(!p.is_down);
}

#[test]
fn press_inside_canvas_paints_one_cell() {
    let mut e = editor();
    assert!(!e.handle_events(moved(2800, 4600)));
    assert!(e.handle_events(left(PressState::Press)));
    assert_eq!(e.grid.get_pixel(0, 0), Some(white()));
    assert_eq!(painted_cells(&e), vec![(0, 0)]);
}

#[test]
fn held_pointer_paints_every_sampled_cell() {
    let mut e = editor();
    e.handle_events(moved(2800, 4600));
    e.handle_events(left(PressState::Press));
    assert!(e.handle_events(moved(1000 + 2 * CELL + 10, 2000)));
    assert!(e.handle_events(moved(1000 + 5 * CELL + 10, 1000 + 3 * CELL)));
    assert_eq!(painted_cells(&e), vec![(0, 0), (2, 0), (5, 3)]);
    assert!(!e.handle_events(left(PressState::Release)));
    assert!(!e.handle_events(moved(1000 + 9 * CELL, 1000 + 9 * CELL)));
    assert_eq!(painted_cells(&e).len(), 3);
}

#[test]
fn other_mouse_buttons_do_not_paint() {
    let mut e = editor();
    e.handle_events(moved(2800, 4600));
    let ev = InputEvent {
        cursor: None,
        button: Some(ButtonEvent { state: PressState::Press, button: MouseButton::Other }),
    };
    assert!(!e.handle_events(ev));
    assert!(!e.pointer.is_down);
    assert!(painted_cells(&e).is_empty());
}

#[test]
fn release_over_clear_button_clears_grid() {
    let mut e = editor();
    e.handle_events(moved(2800, 4600));
    e.handle_events(left(PressState::Press));
    assert_eq!(painted_cells(&e).len(), 1);
    assert!(!e.handle_events(moved(100000, 44000)));
    assert_eq!(e.buttons[0].color, gray());
    assert_eq!(painted_cells(&e).len(), 1);
    assert!(e.handle_events(left(PressState::Release)));
    assert!(!e.pointer.is_down);
    assert!(painted_cells(&e).is_empty());
}

#[test]
fn press_over_clear_button_does_not_clear() {
    let mut e = editor();
    e.handle_events(moved(2800, 4600));
    e.handle_events(left(PressState::Press));
    e.handle_events(left(PressState::Release));
    e.handle_events(moved(100000, 44000));
    assert!(!e.handle_events(left(PressState::Press)));
    assert_eq!(painted_cells(&e), vec![(0, 0)]);
}

#[test]
fn release_over_unhighlighted_button_does_not_clear() {
    let mut e = editor();
    e.handle_events(moved(2800, 4600));
    e.handle_events(left(PressState::Press));
    e.handle_events(moved(120000, 80000));
    assert!(!e.handle_events(left(PressState::Release)));
    assert_eq!(painted_cells(&e), vec![(0, 0)]);
}

#[test]
fn press_off_canvas_away_from_buttons_does_nothing() {
    let mut e = editor();
    e.handle_events(moved(2800, 4600));
    e.handle_events(left(PressState::Press));
    assert!(!e.handle_events(moved(120000, 80000)));
    assert_eq!(painted_cells(&e), vec![(0, 0)]);
}

#[test]
fn activation_fires_on_release_off_canvas() {
    let buttons = vec![clear_button(), clear_button().with_color(gray())];
    let release = Some(ButtonEvent { state: PressState::Release, button: MouseButton::Left });
    let press = Some(ButtonEvent { state: PressState::Press, button: MouseButton::Left });
    let off = PointerState { position: [0, 0], is_down: false, is_inside_canvas: false };
    assert_eq!(handle_button_activation(&buttons, true, release, &off), Some(1));
    assert_eq!(handle_button_activation(&buttons, false, release, &off), None);
    let held = PointerState { is_down: true, ..off };
    assert_eq!(handle_button_activation(&buttons, true, press, &held), None);
    assert_eq!(handle_button_activation(&buttons, true, None, &held), None);
    let other = Some(ButtonEvent { state: PressState::Release, button: MouseButton::Other });
    assert_eq!(handle_button_activation(&buttons, true, other, &held), None);
    let on_canvas = PointerState { is_inside_canvas: true, ..off };
    assert_eq!(handle_button_activation(&buttons, true, release, &on_canvas), None);
    assert_eq!(handle_button_activation(&buttons[..1], true, release, &off), None);
}

#[test]
fn only_a_first_highlighted_clear_label_clears() {
    let plain = Button::new("label", gray(), black(), 22, [0, 0], [0, 0], &[]);
    let mut e = Editor::new(SIDE, ORIGIN, CELL, black(), white(), vec![plain]);
    e.handle_events(moved(2800, 4600));
    e.handle_events(left(PressState::Press));
    e.handle_events(moved(120000, 80000));
    e.buttons[0].color = gray();
    assert!(!e.handle_events(left(PressState::Release)));
    assert_eq!(painted_cells(&e), vec![(0, 0)]);
}

#[test]
fn active_cell_follows_pointer() {
    let mut e = editor();
    e.update_pointer(2800, 4600);
    assert_eq!(e.active_cell(), Some((0, 0)));
    let end = ORIGIN[0] + SIDE as i64 * CELL;
    e.update_pointer(end + 10, 2000);
    assert_eq!(e.active_cell(), None);
}

#[test]
fn paint_at_pointer_paints_mapped_cell() {
    let mut e = editor();
    e.update_pointer(1000 + 3 * CELL, 1000 + 4 * CELL);
    e.paint_at_pointer();
    assert_eq!(painted_cells(&e), vec![(3, 4)]);
}

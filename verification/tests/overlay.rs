use cosmic_screenshot::geometry::{Point, Rect};
use cosmic_screenshot::snipper::canvas::{
    CanvasEvent, CanvasResponse, SelectionOnlyCanvas, Snipper,
};
use cosmic_screenshot::snipper::{DragMode, SnipperMessage, SnipperResult};

fn bounds() -> Rect {
    Rect::new(0, 0, 800, 600)
}

#[test]
fn canvas_events_become_messages() {
    let canvas = SelectionOnlyCanvas::new(None);
    let p = Point::new(3, 4);
    assert_eq!(
        canvas.update(CanvasEvent::ButtonPressed(Some(p))),
        CanvasResponse { captured: true, message: Some(SnipperMessage::StartSelection(p)) }
    );
    assert_eq!(
        canvas.update(CanvasEvent::ButtonPressed(None)),
        CanvasResponse { captured: false, message: None }
    );
    assert_eq!(
        canvas.update(CanvasEvent::ButtonReleased),
        CanvasResponse { captured: true, message: Some(SnipperMessage::EndSelection) }
    );
    assert_eq!(
        canvas.update(CanvasEvent::CursorMoved(p)),
        CanvasResponse { captured: true, message: Some(SnipperMessage::UpdateSelection(p)) }
    );
    assert_eq!(
        canvas.update(CanvasEvent::Other),
        CanvasResponse { captured: false, message: None }
    );
}

#[test]
fn overlay_without_selection_is_dimmed_whole() {
    let canvas = SelectionOnlyCanvas::new(None);
    assert_eq!(canvas.dimmed(&bounds()), vec![Rect::new(0, 0, 800, 600)]);
    assert!(canvas.border().is_empty());
    assert!(canvas.handles().is_empty());
}

#[test]
fn overlay_is_dimmed_around_the_selection() {
    let canvas = SelectionOnlyCanvas::new(Some(Rect::new(100, 50, 300, 200)));
    assert_eq!(
        canvas.dimmed(&bounds()),
        vec![
            Rect::new(0, 0, 800, 50),
            Rect::new(0, 250, 800, 350),
            Rect::new(0, 50, 100, 200),
            Rect::new(400, 50, 400, 200),
        ]
    );
    assert_eq!(
        canvas.border(),
        vec![
            Rect::new(100, 50, 300, 3),
            Rect::new(397, 50, 3, 200),
            Rect::new(100, 247, 300, 3),
            Rect::new(100, 50, 3, 200),
        ]
    );
    assert_eq!(
        canvas.handles(),
        vec![
            Rect::new(96, 46, 8, 8),
            Rect::new(396, 46, 8, 8),
            Rect::new(396, 246, 8, 8),
            Rect::new(96, 246, 8, 8),
        ]
    );
    let full = SelectionOnlyCanvas::new(Some(bounds()));
    assert!(full.dimmed(&bounds()).is_empty());
    let corner = SelectionOnlyCanvas::new(Some(Rect::new(0, 0, 10, 600)));
    assert_eq!(corner.dimmed(&bounds()), vec![Rect::new(10, 0, 790, 600)]);
}

#[test]
fn canvas_remembers_whether_it_was_drawn() {
    let mut canvas = SelectionOnlyCanvas::new(None);
    assert!(canvas.needs_redraw);
    canvas.mark_drawn();
    assert!(!canvas.needs_redraw);
    canvas.clear_cache();
    assert!(canvas.needs_redraw);
}

#[test]
fn snipper_keeps_overlay_and_session_together() {
    let mut snipper = Snipper::new(bounds());
    assert_eq!(snipper.get_selection(), None);
    snipper.canvas_program.mark_drawn();
    assert_eq!(snipper.update(SnipperMessage::UpdateSelection(Point::new(1, 1)), 0), None);
    assert!(!snipper.canvas_program.needs_redraw);
    snipper.update(SnipperMessage::StartSelection(Point::new(10, 10)), 1);
    assert!(snipper.canvas_program.needs_redraw);
    assert_eq!(snipper.canvas_program.selection, Some(Rect::new(10, 10, 0, 0)));
    snipper.update(SnipperMessage::UpdateSelection(Point::new(60, 40)), 2);
    snipper.update(SnipperMessage::EndSelection, 3);
    assert_eq!(snipper.get_selection(), Some(Rect::new(10, 10, 50, 30)));
    assert_eq!(snipper.canvas_program.selection, snipper.get_selection());
    assert_eq!(
        snipper.update(SnipperMessage::AcceptSelection, 4),
        Some(SnipperResult::Selected(Rect::new(10, 10, 50, 30)))
    );
    assert_eq!(snipper.get_remembered_selection(), Some(Rect::new(10, 10, 50, 30)));
}

#[test]
fn new_capture_resets_the_session() {
    let mut snipper = Snipper::new_with_memory(bounds(), Some(Rect::new(10, 10, 50, 30)));
    assert_eq!(snipper.get_selection(), Some(Rect::new(10, 10, 50, 30)));
    snipper.update(SnipperMessage::StartSelection(Point::new(30, 20)), 100);
    assert_eq!(snipper.state.drag_mode, DragMode::Moving);
    snipper.canvas_program.mark_drawn();
    let remembered = Rect::new(700, 500, 100, 100);
    snipper.update_screenshot_with_memory(Rect::new(0, 0, 1024, 768), Some(remembered));
    assert_eq!(snipper.get_selection(), Some(remembered));
    assert_eq!(snipper.canvas_program.selection, Some(remembered));
    assert!(snipper.canvas_program.needs_redraw);
    assert_eq!(snipper.state.drag_mode, DragMode::Idle);
    assert_eq!(snipper.state.initial_selection, None);
    assert_eq!(snipper.state.last_click_time, None);
    assert_eq!(snipper.state.last_click_pos, None);
    assert_eq!(snipper.state.screen_bounds, Rect::new(0, 0, 1024, 768));
    snipper.update_screenshot_with_memory(bounds(), Some(remembered));
    assert_eq!(snipper.get_selection(), Some(remembered));
    snipper.update_screenshot_with_memory(Rect::new(0, 0, 799, 600), Some(remembered));
    assert_eq!(snipper.get_selection(), None);
    assert_eq!(snipper.get_remembered_selection(), Some(remembered));
    snipper.update_screenshot(bounds());
    assert_eq!(snipper.get_selection(), None);
    assert_eq!(snipper.get_remembered_selection(), None);
}

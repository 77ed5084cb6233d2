//! The overlay drawn over the capture during a selection session, and the
//! session together with its overlay.

use vstd::prelude::*;
use crate::geometry::{Point, Rect};
use crate::snipper::{
    DragMode,
    SnipperMessage,
    SnipperResult,
    SnipperState,
    restore_selection,
    restored_selection,
};

verus! {

/// The thickness of the border around the selection.
pub const BORDER_WIDTH: i64 = 3;

/// The side of the square handles at the corners of the selection.
pub const HANDLE_SIDE: i64 = 8;

/// What the pointer did over the overlay.
#[derive(Clone, Copy, Debug, PartialEq, Eq, Structural)]
pub enum CanvasEvent {
    /// The left button went down; the position is absent where the
    /// pointer is outside the overlay.
    ButtonPressed(Option<Point>),
    /// The left button was released.
    ButtonReleased,
    CursorMoved(Point),
    /// Anything else.
    Other,
}

/// What the overlay makes of an event.
#[derive(Clone, Copy, Debug, PartialEq, Eq, Structural)]
pub struct CanvasResponse {
    /// Whether the event is used up.
    pub captured: bool,
    pub message: Option<SnipperMessage>,
}

/// The overlay: what it shows and whether it has to be drawn anew.
#[derive(Clone, Copy, Debug, PartialEq, Eq, Structural)]
pub struct SelectionOnlyCanvas {
    pub selection: Option<Rect>,
    /// Whether what was drawn last no longer shows the selection.
    pub needs_redraw: bool,
}

/// A selection session and its overlay.
#[derive(Clone, Copy, Debug, PartialEq, Eq, Structural)]
pub struct Snipper {
    pub state: SnipperState,
    pub canvas_program: SelectionOnlyCanvas,
}

/// What an event over the overlay means for the session.
pub open spec fn response_to(event: CanvasEvent) -> CanvasResponse {
    match event {
        CanvasEvent::ButtonPressed(Some(position)) => CanvasResponse {
            captured: true,
            message: Some(SnipperMessage::StartSelection(position)),
        },
        CanvasEvent::ButtonPressed(None) => CanvasResponse { captured: false, message: None },
        CanvasEvent::ButtonReleased => CanvasResponse {
            captured: true,
            message: Some(SnipperMessage::EndSelection),
        },
        CanvasEvent::CursorMoved(position) => CanvasResponse {
            captured: true,
            message: Some(SnipperMessage::UpdateSelection(position)),
        },
        CanvasEvent::Other => CanvasResponse { captured: false, message: None },
    }
}

/// The parts of the overlay that lie dimmed around the selection, in the
/// order above, below, left, right; a part without area is left out.
/// Without a selection the whole overlay is dimmed.
pub open spec fn dimmed_parts(selection: Option<Rect>, bounds: Rect) -> Seq<Rect> {
    match selection {
        None => seq![Rect { x: 0, y: 0, width: bounds.width, height: bounds.height }],
        Some(s) => {
            let above = if s.y > 0 {
                seq![Rect { x: 0, y: 0, width: bounds.width, height: s.y }]
            } else {
                Seq::empty()
            };
            let below = if s.bottom() < bounds.height {
                seq![
                    Rect {
                        x: 0,
                        y: s.bottom() as i64,
                        width: bounds.width,
                        height: (bounds.height - s.bottom()) as i64,
                    },
                ]
            } else {
                Seq::empty()
            };
            let left = if s.x > 0 {
                seq![Rect { x: 0, y: s.y, width: s.x, height: s.height }]
            } else {
                Seq::empty()
            };
            let right = if s.right() < bounds.width {
                seq![
                    Rect {
                        x: s.right() as i64,
                        y: s.y,
                        width: (bounds.width - s.right()) as i64,
                        height: s.height,
                    },
                ]
            } else {
                Seq::empty()
            };
            above + below + left + right
        },
    }
}

/// The four strips of the border along the inside of the selection: top,
/// right, bottom, left.
pub open spec fn border_parts(s: Rect) -> Seq<Rect> {
    seq![
        Rect { x: s.x, y: s.y, width: s.width, height: BORDER_WIDTH },
        Rect {
            x: (s.right() - BORDER_WIDTH) as i64,
            y: s.y,
            width: BORDER_WIDTH,
            height: s.height,
        },
        Rect {
            x: s.x,
            y: (s.bottom() - BORDER_WIDTH) as i64,
            width: s.width,
            height: BORDER_WIDTH,
        },
        Rect { x: s.x, y: s.y, width: BORDER_WIDTH, height: s.height },
    ]
}

/// The square handle centred on the given corner.
pub open spec fn handle_at(x: int, y: int) -> Rect {
    Rect {
        x: (x - HANDLE_SIDE / 2) as i64,
        y: (y - HANDLE_SIDE / 2) as i64,
        width: HANDLE_SIDE,
        height: HANDLE_SIDE,
    }
}

/// The handles on the corners of the selection, clockwise from the top
/// left.
pub open spec fn handle_parts(s: Rect) -> Seq<Rect> {
    seq![
        handle_at(s.x as int, s.y as int),
        handle_at(s.right(), s.y as int),
        handle_at(s.right(), s.bottom()),
        handle_at(s.x as int, s.bottom()),
    ]
}

impl SelectionOnlyCanvas {
    /// An overlay that shows `selection` and has not been drawn yet.
    pub fn new(selection: Option<Rect>) -> (canvas: SelectionOnlyCanvas)
        ensures
            canvas == (SelectionOnlyCanvas { selection, needs_redraw: true }),
    {
        SelectionOnlyCanvas { selection, needs_redraw: true }
    }

    /// Forgets what was drawn last.
    pub fn clear_cache(&mut self)
        ensures
            *final(self) == (SelectionOnlyCanvas { needs_redraw: true, ..*old(self) }),
    {
        self.needs_redraw = true;
    }

    /// Notes that the overlay has been drawn as it stands.
    pub fn mark_drawn(&mut self)
        ensures
            *final(self) == (SelectionOnlyCanvas { needs_redraw: false, ..*old(self) }),
    {
        self.needs_redraw = false;
    }

    /// Says what an event over the overlay means for the session.
    pub fn update(&self, event: CanvasEvent) -> (response: CanvasResponse)
        ensures
            response == response_to(event),
    {
        match event {
            CanvasEvent::ButtonPressed(Some(position)) => CanvasResponse {
                captured: true,
                message: Some(SnipperMessage::StartSelection(position)),
            },
            CanvasEvent::ButtonPressed(None) => CanvasResponse { captured: false, message: None },
            CanvasEvent::ButtonReleased => CanvasResponse {
                captured: true,
                message: Some(SnipperMessage::EndSelection),
            },
            CanvasEvent::CursorMoved(position) => CanvasResponse {
                captured: true,
                message: Some(SnipperMessage::UpdateSelection(position)),
            },
            CanvasEvent::Other => CanvasResponse { captured: false, message: None },
        }
    }

    /// The parts of an overlay of the size of `bounds` to dim.
    pub fn dimmed(&self, bounds: &Rect) -> (parts: Vec<Rect>)
        requires
            bounds.wf(),
            self.selection matches Some(s) ==> s.wf(),
        ensures
            parts@ == dimmed_parts(self.selection, *bounds),
    {
        let mut parts: Vec<Rect> = Vec::new();
        match self.selection {
            None => {
                parts.push(Rect { x: 0, y: 0, width: bounds.width, height: bounds.height });
            },
            Some(s) => {
                let right = s.x + s.width;
                let bottom = s.y + s.height;
                if s.y > 0 {
                    parts.push(Rect { x: 0, y: 0, width: bounds.width, height: s.y });
                }
                if bottom < bounds.height {
                    parts.push(
                        Rect {
                            x: 0,
                            y: bottom,
                            width: bounds.width,
                            height: bounds.height - bottom,
                        },
                    );
                }
                if s.x > 0 {
                    parts.push(Rect { x: 0, y: s.y, width: s.x, height: s.height });
                }
                if right < bounds.width {
                    parts.push(
                        Rect {
                            x: right,
                            y: s.y,
                            width: bounds.width - right,
                            height: s.height,
                        },
                    );
                }
            },
        }
        assert(parts@ =~= dimmed_parts(self.selection, *bounds));
        parts
    }

    /// The strips of the border of the selection; none without one.
    pub fn border(&self) -> (parts: Vec<Rect>)
        requires
            self.selection matches Some(s) ==> s.wf(),
        ensures
            parts@ == (match self.selection {
                Some(s) => border_parts(s),
                None => Seq::empty(),
            }),
    {
        let mut parts: Vec<Rect> = Vec::new();
        if let Some(s) = self.selection {
            let right = s.x + s.width;
            let bottom = s.y + s.height;
            parts.push(Rect { x: s.x, y: s.y, width: s.width, height: BORDER_WIDTH });
            parts.push(
                Rect { x: right - BORDER_WIDTH, y: s.y, width: BORDER_WIDTH, height: s.height },
            );
            parts.push(
                Rect { x: s.x, y: bottom - BORDER_WIDTH, width: s.width, height: BORDER_WIDTH },
            );
            parts.push(Rect { x: s.x, y: s.y, width: BORDER_WIDTH, height: s.height });
            assert(parts@ =~= border_parts(s));
        }
        parts
    }

    /// The handles of the selection; none without one.
    pub fn handles(&self) -> (parts: Vec<Rect>)
        requires
            self.selection matches Some(s) ==> s.wf(),
        ensures
            parts@ == (match self.selection {
                Some(s) => handle_parts(s),
                None => Seq::empty(),
            }),
    {
        let mut parts: Vec<Rect> = Vec::new();
        if let Some(s) = self.selection {
            let half = HANDLE_SIDE / 2;
            let left = s.x - half;
            let top = s.y - half;
            let right = s.x + s.width - half;
            let bottom = s.y + s.height - half;
            parts.push(Rect { x: left, y: top, width: HANDLE_SIDE, height: HANDLE_SIDE });
            parts.push(Rect { x: right, y: top, width: HANDLE_SIDE, height: HANDLE_SIDE });
            parts.push(Rect { x: right, y: bottom, width: HANDLE_SIDE, height: HANDLE_SIDE });
            parts.push(Rect { x: left, y: bottom, width: HANDLE_SIDE, height: HANDLE_SIDE });
            assert(parts@ =~= handle_parts(s));
        }
        parts
    }
}

impl Snipper {
    /// The session is well formed and the overlay shows its selection.
    pub open spec fn wf(self) -> bool {
        self.state.wf() && self.canvas_program.selection == self.state.selection
    }

    /// The session and overlay after a new capture over `screen_bounds`
    /// came in: the selection is what is restored from the remembered one,
    /// no drag is under way, no click is kept, and the overlay is to be
    /// drawn anew.
    pub open spec fn reloaded(self, screen_bounds: Rect, remembered: Option<Rect>) -> Snipper {
        let selection = restored_selection(screen_bounds, remembered);
        Snipper {
            state: SnipperState {
                selection,
                screen_bounds,
                remembered_selection: remembered,
                drag_mode: DragMode::Idle,
                initial_selection: None,
                last_click_time: None,
                last_click_pos: None,
                ..self.state
            },
            canvas_program: SelectionOnlyCanvas { selection, needs_redraw: true },
        }
    }

    /// A session over `screen_bounds` with no selection.
    pub fn new(screen_bounds: Rect) -> (snipper: Snipper)
        ensures
            snipper.wf(),
            snipper.state == SnipperState::fresh(screen_bounds),
            snipper.canvas_program == (SelectionOnlyCanvas { selection: None, needs_redraw: true }),
    {
        Snipper {
            state: SnipperState::new(screen_bounds),
            canvas_program: SelectionOnlyCanvas::new(None),
        }
    }

    /// A session over `screen_bounds` that starts from the remembered
    /// selection where that still fits.
    pub fn new_with_memory(screen_bounds: Rect, remembered_selection: Option<Rect>) -> (snipper:
        Snipper)
        ensures
            snipper.wf(),
            snipper.state == (SnipperState {
                selection: restored_selection(screen_bounds, remembered_selection),
                remembered_selection,
                ..SnipperState::fresh(screen_bounds)
            }),
            snipper.canvas_program.needs_redraw,
    {
        let state = SnipperState::new_with_memory(screen_bounds, remembered_selection);
        let initial_selection = state.selection();
        Snipper { state, canvas_program: SelectionOnlyCanvas::new(initial_selection) }
    }

    pub fn get_remembered_selection(&self) -> (r: Option<Rect>)
        ensures
            r == self.state.remembered_selection,
    {
        self.state.get_remembered_selection()
    }

    pub fn get_selection(&self) -> (r: Option<Rect>)
        ensures
            r == self.state.selection,
    {
        self.state.selection()
    }

    /// Handles one event that arrived at time `now`. The overlay follows
    /// the selection and is marked for drawing whenever the selection
    /// changed.
    pub fn update(&mut self, message: SnipperMessage, now: u64) -> (result: Option<SnipperResult>)
        requires
            old(self).wf(),
        ensures
            final(self).wf(),
            final(self).state == old(self).state.next(message, now),
            result == old(self).state.outcome(message, now),
            final(self).canvas_program.needs_redraw == (old(self).canvas_program.needs_redraw
                || final(self).state.selection != old(self).state.selection),
    {
        let old_selection = self.state.selection;
        let result = self.state.update(message, now);
        if self.state.selection != old_selection {
            self.canvas_program.selection = self.state.selection;
            self.canvas_program.clear_cache();
        }
        result
    }

    /// Takes a new capture over `screen_bounds` and starts without a
    /// selection.
    pub fn update_screenshot(&mut self, screen_bounds: Rect)
        ensures
            final(self).wf(),
            *final(self) == old(self).reloaded(screen_bounds, None),
    {
        self.update_screenshot_with_memory(screen_bounds, None);
    }

    /// Takes a new capture over `screen_bounds` and starts from the
    /// remembered selection where that still fits.
    pub fn update_screenshot_with_memory(
        &mut self,
        screen_bounds: Rect,
        remembered_selection: Option<Rect>,
    )
        ensures
            final(self).wf(),
            *final(self) == old(self).reloaded(screen_bounds, remembered_selection),
    {
        let selection = restore_selection(&screen_bounds, remembered_selection);
        self.state.screen_bounds = screen_bounds;
        self.state.remembered_selection = remembered_selection;
        self.state.selection = selection;
        self.canvas_program.selection = selection;
        self.state.drag_mode = DragMode::Idle;
        self.state.initial_selection = None;
        self.state.last_click_time = None;
        self.state.last_click_pos = None;
        self.canvas_program.clear_cache();
    }
}

/// Whether one of the parts holds the point.
pub open spec fn covers(parts: Seq<Rect>, p: Point) -> bool {
    exists|i: int| 0 <= i < parts.len() && (#[trigger] parts[i]).contains(p)
}

proof fn lemma_covers_concat(a: Seq<Rect>, b: Seq<Rect>, p: Point)
    ensures
        covers(a + b, p) == (covers(a, p) || covers(b, p)),
{
    if covers(a, p) {
        let i = choose|i: int| 0 <= i < a.len() && (#[trigger] a[i]).contains(p);
        assert((a + b)[i] == a[i]);
    }
    if covers(b, p) {
        let i = choose|i: int| 0 <= i < b.len() && (#[trigger] b[i]).contains(p);
        assert((a + b)[a.len() + i] == b[i]);
    }
    if covers(a + b, p) {
        let i = choose|i: int| 0 <= i < (a + b).len() && (#[trigger] (a + b)[i]).contains(p);
        if i < a.len() {
            assert(a[i] == (a + b)[i]);
        } else {
            assert(b[i - a.len()] == (a + b)[i]);
        }
    }
}

proof fn lemma_covers_one(part: Rect, p: Point)
    ensures
        covers(seq![part], p) == part.contains(p),
        !covers(Seq::<Rect>::empty(), p),
{
    if part.contains(p) {
        assert(seq![part][0] == part);
    }
}

/// Every point of the overlay lies either in the selection or in a dimmed
/// part, never in both: the dimmed parts surround the selection without a
/// gap and without covering any of it.
pub proof fn law_overlay_is_dimmed_outside_selection(selection: Rect, bounds: Rect, p: Point)
    requires
        selection.wf(),
        bounds.wf(),
        0 <= p.x < bounds.width,
        0 <= p.y < bounds.height,
    ensures
        covers(dimmed_parts(Some(selection), bounds), p) == !selection.contains(p),
        covers(dimmed_parts(None, bounds), p),
{
    let s = selection;
    let above = if s.y > 0 {
        seq![Rect { x: 0, y: 0, width: bounds.width, height: s.y }]
    } else {
        Seq::empty()
    };
    let below = if s.bottom() < bounds.height {
        seq![
            Rect {
                x: 0,
                y: s.bottom() as i64,
                width: bounds.width,
                height: (bounds.height - s.bottom()) as i64,
            },
        ]
    } else {
        Seq::empty()
    };
    let left = if s.x > 0 {
        seq![Rect { x: 0, y: s.y, width: s.x, height: s.height }]
    } else {
        Seq::empty()
    };
    let right = if s.right() < bounds.width {
        seq![
            Rect {
                x: s.right() as i64,
                y: s.y,
                width: (bounds.width - s.right()) as i64,
                height: s.height,
            },
        ]
    } else {
        Seq::empty()
    };
    lemma_covers_one(Rect { x: 0, y: 0, width: bounds.width, height: s.y }, p);
    lemma_covers_one(
        Rect {
            x: 0,
            y: s.bottom() as i64,
            width: bounds.width,
            height: (bounds.height - s.bottom()) as i64,
        },
        p,
    );
    lemma_covers_one(Rect { x: 0, y: s.y, width: s.x, height: s.height }, p);
    lemma_covers_one(
        Rect {
            x: s.right() as i64,
            y: s.y,
            width: (bounds.width - s.right()) as i64,
            height: s.height,
        },
        p,
    );
    lemma_covers_concat(above, below, p);
    lemma_covers_concat(above + below, left, p);
    lemma_covers_concat(above + below + left, right, p);
    lemma_covers_one(Rect { x: 0, y: 0, width: bounds.width, height: bounds.height }, p);
}

} // verus!

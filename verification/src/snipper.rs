//! Interactive region selection: a state machine over pointer and keyboard
//! events that lets the user drag out, move and resize one rectangle and
//! then accept or cancel it.
//!
//! The machine never reads a clock: every event is handed in together with
//! the time at which it happened, in milliseconds on any monotonic scale.

use vstd::prelude::*;
use crate::geometry::{Point, Rect};

pub mod canvas;

verus! {

/// How close to an edge, in pixels, a press must land to grab that edge.
pub const HANDLE_SIZE: i64 = 8;

/// Smallest width and height a handle drag may leave.
pub const MIN_SIZE: i64 = 10;

/// Two presses closer together in time than this form a double click.
pub const DOUBLE_CLICK_MS: u64 = 500;

/// Two presses closer together on each axis than this form a double click.
pub const DOUBLE_CLICK_DISTANCE: i64 = 5;

/// What the current drag does to the selection.
#[derive(Clone, Copy, Debug, PartialEq, Eq, Structural)]
pub enum DragMode {
    /// No drag is under way.
    Idle,
    Creating,
    Moving,
    ResizingTopLeft,
    ResizingTop,
    ResizingTopRight,
    ResizingRight,
    ResizingBottomRight,
    ResizingBottom,
    ResizingBottomLeft,
    ResizingLeft,
}

/// The keys the selection reacts to.
#[derive(Clone, Copy, Debug, PartialEq, Eq, Structural)]
pub enum Key {
    Escape,
    Enter,
    Other,
}

/// One input event.
#[derive(Clone, Copy, Debug, PartialEq, Eq, Structural)]
pub enum SnipperMessage {
    /// The pointer button went down at the point.
    StartSelection(Point),
    /// The pointer moved to the point.
    UpdateSelection(Point),
    /// The pointer button was released.
    EndSelection,
    /// The user asked to accept the current selection.
    AcceptSelection,
    /// The user asked to abandon the session.
    CancelSelection,
    KeyPressed(Key),
    /// A double click was reported at the point.
    DoubleClick(Point),
}

/// How a session ended.
#[derive(Clone, Copy, Debug, PartialEq, Eq, Structural)]
pub enum SnipperResult {
    Selected(Rect),
    Cancelled,
}

/// The whole state of one selection session.
#[derive(Clone, Copy, Debug, PartialEq, Eq, Structural)]
pub struct SnipperState {
    pub selection: Option<Rect>,
    pub drag_mode: DragMode,
    /// Where the current drag started.
    pub drag_start: Point,
    /// The selection as it was when the current drag started.
    pub initial_selection: Option<Rect>,
    pub current_mouse: Point,
    pub screen_bounds: Rect,
    pub last_click_time: Option<u64>,
    pub last_click_pos: Option<Point>,
    /// The selection accepted last, kept for the next session.
    pub remembered_selection: Option<Rect>,
}

impl DragMode {
    /// Whether the drag carries the left edge along.
    pub open spec fn drags_left(self) -> bool {
        self is ResizingTopLeft || self is ResizingLeft || self is ResizingBottomLeft
    }

    pub open spec fn drags_right(self) -> bool {
        self is ResizingTopRight || self is ResizingRight || self is ResizingBottomRight
    }

    pub open spec fn drags_top(self) -> bool {
        self is ResizingTopLeft || self is ResizingTop || self is ResizingTopRight
    }

    pub open spec fn drags_bottom(self) -> bool {
        self is ResizingBottomLeft || self is ResizingBottom || self is ResizingBottomRight
    }

    /// Whether the drag moves one or two edges of an existing selection.
    pub open spec fn is_resizing(self) -> bool {
        self.drags_left() || self.drags_right() || self.drags_top() || self.drags_bottom()
    }
}

/// Time passed from `earlier` to `now`; zero when the clock went backwards.
pub open spec fn elapsed_ms(earlier: u64, now: u64) -> int {
    if now >= earlier {
        now - earlier
    } else {
        0
    }
}

pub open spec fn distance(a: int, b: int) -> int {
    if a >= b {
        a - b
    } else {
        b - a
    }
}

pub open spec fn min_int(a: int, b: int) -> int {
    if a <= b {
        a
    } else {
        b
    }
}

pub open spec fn max_int(a: int, b: int) -> int {
    if a >= b {
        a
    } else {
        b
    }
}

/// Whether a press at `p` at time `now` completes a double click, given the
/// time and place of the press before it.
pub open spec fn is_double_click(
    last_time: Option<u64>,
    last_pos: Option<Point>,
    p: Point,
    now: u64,
) -> bool {
    &&& last_time matches Some(t)
    &&& last_pos matches Some(q)
    &&& elapsed_ms(t, now) < DOUBLE_CLICK_MS
    &&& distance(p.x as int, q.x as int) < DOUBLE_CLICK_DISTANCE
    &&& distance(p.y as int, q.y as int) < DOUBLE_CLICK_DISTANCE
}

/// The drag a press at `p` starts. Inside the selection, a press within
/// `HANDLE_SIZE` of a corner grabs that corner, else one within
/// `HANDLE_SIZE` of an edge grabs that edge, else it moves the selection.
/// Anywhere else it starts a new selection.
pub open spec fn drag_mode_at(selection: Option<Rect>, p: Point) -> DragMode {
    match selection {
        Some(s) if s.contains(p) => {
            let near_left = p.x <= s.x + HANDLE_SIZE;
            let near_top = p.y <= s.y + HANDLE_SIZE;
            let near_right = p.x >= s.right() - HANDLE_SIZE;
            let near_bottom = p.y >= s.bottom() - HANDLE_SIZE;
            if near_left && near_top {
                DragMode::ResizingTopLeft
            } else if near_right && near_top {
                DragMode::ResizingTopRight
            } else if near_right && near_bottom {
                DragMode::ResizingBottomRight
            } else if near_left && near_bottom {
                DragMode::ResizingBottomLeft
            } else if near_top {
                DragMode::ResizingTop
            } else if near_right {
                DragMode::ResizingRight
            } else if near_bottom {
                DragMode::ResizingBottom
            } else if near_left {
                DragMode::ResizingLeft
            } else {
                DragMode::Moving
            }
        },
        _ => DragMode::Creating,
    }
}

/// The empty rectangle at `p`.
pub open spec fn point_rect(p: Point) -> Rect {
    Rect { x: p.x as i64, y: p.y as i64, width: 0, height: 0 }
}

/// The smallest rectangle that has both points as corners.
pub open spec fn bounding_box(a: Point, q: Point) -> Rect {
    Rect::from_edges(
        min_int(a.x as int, q.x as int),
        min_int(a.y as int, q.y as int),
        max_int(a.x as int, q.x as int),
        max_int(a.y as int, q.y as int),
    )
}

/// `initial` shifted by the way from `anchor` to `q`.
pub open spec fn shifted(initial: Rect, anchor: Point, q: Point) -> Rect {
    Rect::from_edges(
        initial.x + q.x - anchor.x,
        initial.y + q.y - anchor.y,
        initial.right() + q.x - anchor.x,
        initial.bottom() + q.y - anchor.y,
    )
}

/// `initial` with the edges that `mode` drags put at `q`, except that no
/// dragged edge comes closer than `MIN_SIZE` to the edge opposite it. The
/// edges that `mode` does not drag stay where they are.
pub open spec fn resized(mode: DragMode, initial: Rect, q: Point) -> Rect {
    Rect::from_edges(
        if mode.drags_left() {
            min_int(q.x as int, initial.right() - MIN_SIZE)
        } else {
            initial.x as int
        },
        if mode.drags_top() {
            min_int(q.y as int, initial.bottom() - MIN_SIZE)
        } else {
            initial.y as int
        },
        if mode.drags_right() {
            max_int(q.x as int, initial.x + MIN_SIZE)
        } else {
            initial.right()
        },
        if mode.drags_bottom() {
            max_int(q.y as int, initial.y + MIN_SIZE)
        } else {
            initial.bottom()
        },
    )
}

/// The rectangle a drag in `mode` aims at when the pointer is at `q`, if the
/// drag changes the selection at all.
pub open spec fn drag_target(
    mode: DragMode,
    anchor: Point,
    initial: Option<Rect>,
    q: Point,
) -> Option<Rect> {
    match mode {
        DragMode::Idle => None,
        DragMode::Creating => Some(bounding_box(anchor, q)),
        DragMode::Moving => match initial {
            Some(r) => Some(shifted(r, anchor, q)),
            None => None,
        },
        _ => match initial {
            Some(r) => Some(resized(mode, r, q)),
            None => None,
        },
    }
}

/// Whether a rectangle is large enough to be accepted on request.
pub open spec fn acceptable(r: Rect) -> bool {
    r.width > MIN_SIZE && r.height > MIN_SIZE
}

impl SnipperState {
    /// The selection and the snapshot taken at the start of a drag are well
    /// formed rectangles.
    pub open spec fn wf(self) -> bool {
        &&& self.selection matches Some(r) ==> r.wf()
        &&& self.initial_selection matches Some(r) ==> r.wf()
    }

    /// Whether a press at `p` at time `now` is a double click inside the
    /// selection, which ends the session at once.
    pub open spec fn press_accepts(self, p: Point, now: u64) -> bool {
        &&& is_double_click(self.last_click_time, self.last_click_pos, p, now)
        &&& self.selection matches Some(s)
        &&& s.contains(p)
    }

    /// The state after a press at `p` at time `now`.
    pub open spec fn after_press(self, p: Point, now: u64) -> SnipperState {
        if self.press_accepts(p, now) {
            SnipperState {
                last_click_time: Some(now),
                last_click_pos: Some(p),
                remembered_selection: self.selection,
                ..self
            }
        } else {
            let mode = drag_mode_at(self.selection, p);
            SnipperState {
                last_click_time: Some(now),
                last_click_pos: Some(p),
                drag_mode: mode,
                drag_start: p,
                current_mouse: p,
                initial_selection: self.selection,
                selection: if mode is Creating {
                    Some(point_rect(p))
                } else {
                    self.selection
                },
                ..self
            }
        }
    }

    /// The selection after the pointer moved to `q`: the target of the
    /// current drag where there is one and it is well formed, else the
    /// selection as it was.
    pub open spec fn dragged_selection(self, q: Point) -> Option<Rect> {
        match drag_target(self.drag_mode, self.drag_start, self.initial_selection, q) {
            Some(r) if r.wf() => Some(r),
            _ => self.selection,
        }
    }

    /// Whether a request to accept ends the session.
    pub open spec fn can_accept(self) -> bool {
        self.selection matches Some(s) && acceptable(s)
    }

    /// Whether a double click reported at `p` ends the session.
    pub open spec fn double_click_accepts(self, p: Point) -> bool {
        self.selection matches Some(s) && s.contains(p)
    }

    /// The state with the selection stored as the remembered one.
    pub open spec fn remembering(self) -> SnipperState {
        SnipperState { remembered_selection: self.selection, ..self }
    }

    /// The state after `message` arrived at time `now`.
    pub open spec fn next(self, message: SnipperMessage, now: u64) -> SnipperState {
        match message {
            SnipperMessage::StartSelection(p) => self.after_press(p, now),
            SnipperMessage::UpdateSelection(q) => SnipperState {
                current_mouse: q,
                selection: self.dragged_selection(q),
                ..self
            },
            SnipperMessage::EndSelection => SnipperState { drag_mode: DragMode::Idle, ..self },
            SnipperMessage::AcceptSelection | SnipperMessage::KeyPressed(Key::Enter) => {
                if self.can_accept() {
                    self.remembering()
                } else {
                    self
                }
            },
            SnipperMessage::DoubleClick(p) => {
                if self.double_click_accepts(p) {
                    self.remembering()
                } else {
                    self
                }
            },
            SnipperMessage::CancelSelection
            | SnipperMessage::KeyPressed(Key::Escape)
            | SnipperMessage::KeyPressed(Key::Other) => self,
        }
    }

    /// How the session ends on `message` arriving at time `now`, if it does.
    pub open spec fn outcome(self, message: SnipperMessage, now: u64) -> Option<SnipperResult> {
        match message {
            SnipperMessage::StartSelection(p) => {
                if self.press_accepts(p, now) {
                    Some(SnipperResult::Selected(self.selection->0))
                } else {
                    None
                }
            },
            SnipperMessage::AcceptSelection | SnipperMessage::KeyPressed(Key::Enter) => {
                if self.can_accept() {
                    Some(SnipperResult::Selected(self.selection->0))
                } else {
                    None
                }
            },
            SnipperMessage::DoubleClick(p) => {
                if self.double_click_accepts(p) {
                    Some(SnipperResult::Selected(self.selection->0))
                } else {
                    None
                }
            },
            SnipperMessage::CancelSelection | SnipperMessage::KeyPressed(Key::Escape) => Some(
                SnipperResult::Cancelled,
            ),
            SnipperMessage::UpdateSelection(_)
            | SnipperMessage::EndSelection
            | SnipperMessage::KeyPressed(Key::Other) => None,
        }
    }
}

/// The remembered rectangle if it is well formed and lies fully inside
/// well-formed bounds, edges included; nothing otherwise.
pub open spec fn restored_selection(bounds: Rect, remembered: Option<Rect>) -> Option<Rect> {
    match remembered {
        Some(r) if bounds.wf() && r.wf() && bounds.encloses(r) => Some(r),
        _ => None,
    }
}

fn min_i64(a: i64, b: i64) -> (m: i64)
    ensures
        m == min_int(a as int, b as int),
{
    if a <= b {
        a
    } else {
        b
    }
}

fn max_i64(a: i64, b: i64) -> (m: i64)
    ensures
        m == max_int(a as int, b as int),
{
    if a >= b {
        a
    } else {
        b
    }
}

fn rect_from_edges(left: i64, top: i64, right: i64, bottom: i64) -> (r: Rect)
    requires
        -0x400_0000_0000 <= left <= 0x400_0000_0000,
        -0x400_0000_0000 <= top <= 0x400_0000_0000,
        -0x400_0000_0000 <= right <= 0x400_0000_0000,
        -0x400_0000_0000 <= bottom <= 0x400_0000_0000,
    ensures
        r == Rect::from_edges(left as int, top as int, right as int, bottom as int),
{
    Rect { x: left, y: top, width: right - left, height: bottom - top }
}

/// The well-formed target of a drag, if there is one.
fn drag_rect(mode: DragMode, anchor: Point, initial: Option<Rect>, q: Point) -> (target: Option<
    Rect,
>)
    requires
        initial matches Some(r) ==> r.wf(),
    ensures
        target == (match drag_target(mode, anchor, initial, q) {
            Some(r) if r.wf() => Some(r),
            _ => None,
        }),
{
    let qx: i64 = q.x as i64;
    let qy: i64 = q.y as i64;
    let ax: i64 = anchor.x as i64;
    let ay: i64 = anchor.y as i64;
    let candidate = match mode {
        DragMode::Idle => { return None; },
        DragMode::Creating => rect_from_edges(
            min_i64(ax, qx),
            min_i64(ay, qy),
            max_i64(ax, qx),
            max_i64(ay, qy),
        ),
        DragMode::Moving => match initial {
            Some(r) => rect_from_edges(
                r.x + qx - ax,
                r.y + qy - ay,
                r.x + r.width + qx - ax,
                r.y + r.height + qy - ay,
            ),
            None => { return None; },
        },
        _ => match initial {
            Some(r) => {
                let left = match mode {
                    DragMode::ResizingTopLeft
                    | DragMode::ResizingLeft
                    | DragMode::ResizingBottomLeft => min_i64(qx, r.x + r.width - MIN_SIZE),
                    _ => r.x,
                };
                let top = match mode {
                    DragMode::ResizingTopLeft
                    | DragMode::ResizingTop
                    | DragMode::ResizingTopRight => min_i64(qy, r.y + r.height - MIN_SIZE),
                    _ => r.y,
                };
                let right = match mode {
                    DragMode::ResizingTopRight
                    | DragMode::ResizingRight
                    | DragMode::ResizingBottomRight => max_i64(qx, r.x + MIN_SIZE),
                    _ => r.x + r.width,
                };
                let bottom = match mode {
                    DragMode::ResizingBottomLeft
                    | DragMode::ResizingBottom
                    | DragMode::ResizingBottomRight => max_i64(qy, r.y + MIN_SIZE),
                    _ => r.y + r.height,
                };
                rect_from_edges(left, top, right, bottom)
            },
            None => { return None; },
        },
    };
    if candidate.is_valid() {
        Some(candidate)
    } else {
        None
    }
}

fn elapsed(earlier: u64, now: u64) -> (d: u64)
    ensures
        d == elapsed_ms(earlier, now),
{
    if now >= earlier {
        now - earlier
    } else {
        0
    }
}

fn axis_distance(a: i32, b: i32) -> (d: i64)
    ensures
        d == distance(a as int, b as int),
{
    let a64: i64 = a as i64;
    let b64: i64 = b as i64;
    if a64 >= b64 {
        a64 - b64
    } else {
        b64 - a64
    }
}

fn detect_double_click(last_time: Option<u64>, last_pos: Option<Point>, p: Point, now: u64) -> (hit:
    bool)
    ensures
        hit == is_double_click(last_time, last_pos, p, now),
{
    match (last_time, last_pos) {
        (Some(t), Some(q)) => elapsed(t, now) < DOUBLE_CLICK_MS && axis_distance(p.x, q.x)
            < DOUBLE_CLICK_DISTANCE && axis_distance(p.y, q.y) < DOUBLE_CLICK_DISTANCE,
        _ => false,
    }
}

impl SnipperState {
    /// The state of a session over `screen_bounds` before any event.
    pub open spec fn fresh(screen_bounds: Rect) -> SnipperState {
        SnipperState {
            selection: None,
            drag_mode: DragMode::Idle,
            drag_start: Point { x: 0, y: 0 },
            initial_selection: None,
            current_mouse: Point { x: 0, y: 0 },
            screen_bounds,
            last_click_time: None,
            last_click_pos: None,
            remembered_selection: None,
        }
    }

    /// A session over `screen_bounds` with no selection.
    pub fn new(screen_bounds: Rect) -> (state: SnipperState)
        ensures
            state.wf(),
            state == SnipperState::fresh(screen_bounds),
    {
        SnipperState {
            selection: None,
            drag_mode: DragMode::Idle,
            drag_start: Point { x: 0, y: 0 },
            initial_selection: None,
            current_mouse: Point { x: 0, y: 0 },
            screen_bounds,
            last_click_time: None,
            last_click_pos: None,
            remembered_selection: None,
        }
    }

    /// A session over `screen_bounds` that starts from the selection
    /// remembered from an earlier session where that still fits.
    pub fn new_with_memory(screen_bounds: Rect, remembered_selection: Option<Rect>) -> (state:
        SnipperState)
        ensures
            state.wf(),
            state == (SnipperState {
                selection: restored_selection(screen_bounds, remembered_selection),
                remembered_selection,
                ..SnipperState::fresh(screen_bounds)
            }),
    {
        let mut state = SnipperState::new(screen_bounds);
        state.remembered_selection = remembered_selection;
        state.selection = restore_selection(&screen_bounds, remembered_selection);
        state
    }

    /// Decides `wf`.
    pub fn is_valid(&self) -> (ok: bool)
        ensures
            ok == self.wf(),
    {
        let selection_ok = match self.selection {
            Some(r) => r.is_valid(),
            None => true,
        };
        let initial_ok = match self.initial_selection {
            Some(r) => r.is_valid(),
            None => true,
        };
        selection_ok && initial_ok
    }

    pub fn selection(&self) -> (r: Option<Rect>)
        ensures
            r == self.selection,
    {
        self.selection
    }

    /// Stores the current selection as the remembered one.
    pub fn save_selection_to_memory(&mut self)
        ensures
            *final(self) == old(self).remembering(),
    {
        self.remembered_selection = self.selection;
    }

    pub fn get_remembered_selection(&self) -> (r: Option<Rect>)
        ensures
            r == self.remembered_selection,
    {
        self.remembered_selection
    }

    /// The drag that a press at `point` starts.
    pub fn get_drag_mode(&self, point: Point) -> (mode: DragMode)
        requires
            self.wf(),
        ensures
            mode == drag_mode_at(self.selection, point),
    {
        match self.selection {
            Some(s) => {
                if s.contains_point(point) {
                    let px: i64 = point.x as i64;
                    let py: i64 = point.y as i64;
                    let near_left = px <= s.x + HANDLE_SIZE;
                    let near_top = py <= s.y + HANDLE_SIZE;
                    let near_right = px >= s.x + s.width - HANDLE_SIZE;
                    let near_bottom = py >= s.y + s.height - HANDLE_SIZE;
                    if near_left && near_top {
                        DragMode::ResizingTopLeft
                    } else if near_right && near_top {
                        DragMode::ResizingTopRight
                    } else if near_right && near_bottom {
                        DragMode::ResizingBottomRight
                    } else if near_left && near_bottom {
                        DragMode::ResizingBottomLeft
                    } else if near_top {
                        DragMode::ResizingTop
                    } else if near_right {
                        DragMode::ResizingRight
                    } else if near_bottom {
                        DragMode::ResizingBottom
                    } else if near_left {
                        DragMode::ResizingLeft
                    } else {
                        DragMode::Moving
                    }
                } else {
                    DragMode::Creating
                }
            },
            None => DragMode::Creating,
        }
    }

    /// Handles one event that arrived at time `now` and says how the
    /// session ended, if it did.
    pub fn update(&mut self, message: SnipperMessage, now: u64) -> (result: Option<SnipperResult>)
        requires
            old(self).wf(),
        ensures
            final(self).wf(),
            *final(self) == old(self).next(message, now),
            result == old(self).outcome(message, now),
    {
        match message {
            SnipperMessage::StartSelection(point) => {
                let double = detect_double_click(
                    self.last_click_time,
                    self.last_click_pos,
                    point,
                    now,
                );
                self.last_click_time = Some(now);
                self.last_click_pos = Some(point);
                if double {
                    if let Some(selection) = self.selection {
                        if selection.contains_point(point) {
                            self.save_selection_to_memory();
                            return Some(SnipperResult::Selected(selection));
                        }
                    }
                }
                let mode = self.get_drag_mode(point);
                self.drag_mode = mode;
                self.drag_start = point;
                self.current_mouse = point;
                self.initial_selection = self.selection;
                if let DragMode::Creating = mode {
                    self.selection = Some(
                        Rect { x: point.x as i64, y: point.y as i64, width: 0, height: 0 },
                    );
                }
                None
            },
            SnipperMessage::UpdateSelection(point) => {
                self.current_mouse = point;
                if let Some(target) = drag_rect(
                    self.drag_mode,
                    self.drag_start,
                    self.initial_selection,
                    point,
                ) {
                    self.selection = Some(target);
                }
                None
            },
            SnipperMessage::EndSelection => {
                self.drag_mode = DragMode::Idle;
                None
            },
            SnipperMessage::AcceptSelection | SnipperMessage::KeyPressed(Key::Enter) => {
                if let Some(selection) = self.selection {
                    if selection.width > MIN_SIZE && selection.height > MIN_SIZE {
                        self.save_selection_to_memory();
                        return Some(SnipperResult::Selected(selection));
                    }
                }
                None
            },
            SnipperMessage::DoubleClick(point) => {
                if let Some(selection) = self.selection {
                    if selection.contains_point(point) {
                        self.save_selection_to_memory();
                        return Some(SnipperResult::Selected(selection));
                    }
                }
                None
            },
            SnipperMessage::CancelSelection | SnipperMessage::KeyPressed(Key::Escape) => Some(
                SnipperResult::Cancelled,
            ),
            SnipperMessage::KeyPressed(Key::Other) => None,
        }
    }
}

/// Decides which remembered selection a new session over `bounds` starts
/// from.
pub fn restore_selection(bounds: &Rect, remembered: Option<Rect>) -> (selection: Option<Rect>)
    ensures
        selection == restored_selection(*bounds, remembered),
{
    match remembered {
        Some(r) => {
            if bounds.is_valid() && r.is_valid() && bounds.encloses_rect(&r) {
                Some(r)
            } else {
                None
            }
        },
        None => None,
    }
}

/// A press on a corner handle followed by a pointer move leaves the
/// opposite corner where it was and puts the dragged corner at the pointer,
/// held back so that the selection stays at least `MIN_SIZE` wide and high.
/// The press must not itself complete a double click, which would end the
/// session instead of starting a drag.
pub proof fn law_corner_drag_keeps_opposite_corner(
    state: SnipperState,
    press: Point,
    press_time: u64,
    pointer: Point,
    move_time: u64,
)
    requires
        state.wf(),
        state.selection is Some,
        !state.press_accepts(press, press_time),
        ({
            let mode = drag_mode_at(state.selection, press);
            mode is ResizingTopLeft || mode is ResizingTopRight || mode is ResizingBottomRight
                || mode is ResizingBottomLeft
        }),
    ensures
        ({
            let before = state.selection->0;
            let mode = drag_mode_at(state.selection, press);
            let pressed = state.next(SnipperMessage::StartSelection(press), press_time);
            let moved = pressed.next(SnipperMessage::UpdateSelection(pointer), move_time);
            let after = moved.selection->0;
            &&& pressed.selection == state.selection
            &&& pressed.drag_mode == mode
            &&& moved.selection is Some
            &&& after.wf()
            &&& after.width >= MIN_SIZE
            &&& after.height >= MIN_SIZE
            &&& mode.drags_left() ==> after.right() == before.right() && after.x == min_int(
                pointer.x as int,
                before.right() - MIN_SIZE,
            )
            &&& mode.drags_right() ==> after.x == before.x && after.right() == max_int(
                pointer.x as int,
                before.x + MIN_SIZE,
            )
            &&& mode.drags_top() ==> after.bottom() == before.bottom() && after.y == min_int(
                pointer.y as int,
                before.bottom() - MIN_SIZE,
            )
            &&& mode.drags_bottom() ==> after.y == before.y && after.bottom() == max_int(
                pointer.y as int,
                before.y + MIN_SIZE,
            )
        }),
{
}

/// A handle drag never turns the selection inside out and never lets it
/// collapse: along each axis on which an edge is dragged the selection
/// stays at least `MIN_SIZE` long, and along the other it keeps its length
/// and its place.
pub proof fn law_resize_never_collapses(mode: DragMode, initial: Rect, pointer: Point)
    requires
        initial.wf(),
        mode.is_resizing(),
    ensures
        ({
            let after = resized(mode, initial, pointer);
            &&& mode.drags_left() || mode.drags_right() ==> after.width >= MIN_SIZE
            &&& !mode.drags_left() && !mode.drags_right() ==> after.x == initial.x && after.width
                == initial.width
            &&& mode.drags_top() || mode.drags_bottom() ==> after.height >= MIN_SIZE
            &&& !mode.drags_top() && !mode.drags_bottom() ==> after.y == initial.y && after.height
                == initial.height
        }),
{
}

/// A second press within `DOUBLE_CLICK_MS` and `DOUBLE_CLICK_DISTANCE` of
/// the press before it, inside the selection, ends the session with that
/// selection. The selection and the drag in progress stay as they were: no
/// new drag starts.
pub proof fn law_double_click_accepts(
    state: SnipperState,
    first_time: u64,
    first: Point,
    second_time: u64,
    second: Point,
)
    requires
        state.last_click_time == Some(first_time),
        state.last_click_pos == Some(first),
        first_time <= second_time,
        second_time - first_time < DOUBLE_CLICK_MS,
        distance(second.x as int, first.x as int) < DOUBLE_CLICK_DISTANCE,
        distance(second.y as int, first.y as int) < DOUBLE_CLICK_DISTANCE,
        state.selection is Some,
        state.selection->0.contains(second),
    ensures
        ({
            let message = SnipperMessage::StartSelection(second);
            let after = state.next(message, second_time);
            &&& state.outcome(message, second_time) == Some(
                SnipperResult::Selected(state.selection->0),
            )
            &&& after.selection == state.selection
            &&& after.drag_mode == state.drag_mode
            &&& after.drag_start == state.drag_start
            &&& after.initial_selection == state.initial_selection
            &&& after.remembered_selection == state.selection
        }),
{
}

/// A request to accept, by message or by the Enter key, changes nothing and
/// ends nothing while the selection is missing or is at most `MIN_SIZE`
/// wide or high.
pub proof fn law_small_selection_is_not_accepted(state: SnipperState, now: u64)
    requires
        state.selection matches Some(r) ==> r.width <= MIN_SIZE || r.height <= MIN_SIZE,
    ensures
        state.next(SnipperMessage::AcceptSelection, now) == state,
        state.outcome(SnipperMessage::AcceptSelection, now) is None,
        state.next(SnipperMessage::KeyPressed(Key::Enter), now) == state,
        state.outcome(SnipperMessage::KeyPressed(Key::Enter), now) is None,
{
}

/// A request to accept a selection more than `MIN_SIZE` wide and high ends
/// the session with that selection and remembers it.
pub proof fn law_large_selection_is_accepted(state: SnipperState, now: u64)
    requires
        state.selection matches Some(r) && r.width > MIN_SIZE && r.height > MIN_SIZE,
    ensures
        state.outcome(SnipperMessage::AcceptSelection, now) == Some(
            SnipperResult::Selected(state.selection->0),
        ),
        state.next(SnipperMessage::AcceptSelection, now).remembered_selection == state.selection,
        state.next(SnipperMessage::AcceptSelection, now).selection == state.selection,
{
}

/// Cancelling, by message or by the Escape key, ends the session in every
/// state and leaves the state as it was.
pub proof fn law_cancel_always_ends(state: SnipperState, now: u64)
    ensures
        state.outcome(SnipperMessage::CancelSelection, now) == Some(SnipperResult::Cancelled),
        state.outcome(SnipperMessage::KeyPressed(Key::Escape), now) == Some(
            SnipperResult::Cancelled,
        ),
        state.next(SnipperMessage::CancelSelection, now) == state,
        state.next(SnipperMessage::KeyPressed(Key::Escape), now) == state,
{
}

/// Releasing the pointer ends the drag and keeps the selection.
pub proof fn law_release_keeps_selection(state: SnipperState, now: u64)
    ensures
        state.next(SnipperMessage::EndSelection, now).drag_mode is Idle,
        state.next(SnipperMessage::EndSelection, now).selection == state.selection,
        state.outcome(SnipperMessage::EndSelection, now) is None,
{
}

/// A new session starts from the remembered rectangle, unchanged, exactly
/// when that rectangle lies fully inside the new bounds; otherwise it starts
/// without a selection.
pub proof fn law_remembered_selection_restored(bounds: Rect, remembered: Rect)
    requires
        bounds.wf(),
        0 <= remembered.width,
        0 <= remembered.height,
    ensures
        bounds.encloses(remembered) ==> restored_selection(bounds, Some(remembered)) == Some(
            remembered,
        ),
        !bounds.encloses(remembered) ==> restored_selection(bounds, Some(remembered)) is None,
        restored_selection(bounds, None) is None,
{
}

/// While a new selection is being dragged out, it is the bounding box of
/// the point where the drag started and the pointer.
pub proof fn law_creating_spans_anchor_and_pointer(state: SnipperState, pointer: Point, now: u64)
    requires
        state.drag_mode is Creating,
    ensures
        ({
            let after = state.next(SnipperMessage::UpdateSelection(pointer), now).selection;
            &&& after == Some(bounding_box(state.drag_start, pointer))
            &&& after->0.wf()
            &&& after->0.x == min_int(state.drag_start.x as int, pointer.x as int)
            &&& after->0.right() == max_int(state.drag_start.x as int, pointer.x as int)
            &&& after->0.y == min_int(state.drag_start.y as int, pointer.y as int)
            &&& after->0.bottom() == max_int(state.drag_start.y as int, pointer.y as int)
        }),
{
}

/// A move drag shifts the selection by the way the pointer has gone since
/// the press and keeps its size, as long as the shifted rectangle is well
/// formed.
pub proof fn law_moving_shifts(state: SnipperState, pointer: Point, now: u64)
    requires
        state.wf(),
        state.drag_mode is Moving,
        state.initial_selection is Some,
        shifted(state.initial_selection->0, state.drag_start, pointer).wf(),
    ensures
        ({
            let initial = state.initial_selection->0;
            let after = state.next(SnipperMessage::UpdateSelection(pointer), now).selection;
            &&& after is Some
            &&& after->0.x == initial.x + pointer.x - state.drag_start.x
            &&& after->0.y == initial.y + pointer.y - state.drag_start.y
            &&& after->0.width == initial.width
            &&& after->0.height == initial.height
        }),
{
}

} // verus!

//! Moving and resizing a floating window with the mouse: press starts a drag,
//! motion updates the window, release ends it. At most one drag runs at a time.
use vstd::prelude::*;

use crate::geometry::{reposition, repositioned, resize, resized, Point, Rect};

verus! {

/// The mouse button a drag is made with: the left moves the window, the right resizes it.
#[derive(Clone, Copy, Debug, PartialEq, Eq, Structural)]
pub enum DragButton {
    Left,
    Right,
}

/// A drag in progress.
#[derive(Clone, Copy, Debug, PartialEq, Eq, Structural)]
pub struct DragSession {
    pub button: DragButton,
    /// The window being dragged.
    pub window: u32,
    /// Where the pointer was pressed.
    pub start: Point,
    /// The window's rectangle when the drag started.
    pub rect: Rect,
}

/// Why a drag event was refused.
#[derive(Clone, Copy, Debug, PartialEq, Eq, Structural)]
pub enum DragError {
    /// A drag was started while another was in progress.
    AlreadyDragging,
    /// Motion or release came with no drag in progress.
    NoDragInProgress,
    /// The released button is not the one that started the drag.
    ButtonMismatch,
}

impl DragError {
    /// A short description of the error.
    pub fn message(&self) -> (r: String)
        ensures
            r@ == match *self {
                DragError::AlreadyDragging => "already dragging"@,
                DragError::NoDragInProgress => "no drag in progress"@,
                DragError::ButtonMismatch => "released button did not start the drag"@,
            },
    {
        match self {
            DragError::AlreadyDragging => "already dragging".to_owned(),
            DragError::NoDragInProgress => "no drag in progress".to_owned(),
            DragError::ButtonMismatch => "released button did not start the drag".to_owned(),
        }
    }
}

impl DragSession {
    pub open spec fn wf(self) -> bool {
        self.start.in_x_range() && self.rect.in_x_range()
    }
}

/// The rectangle a drag gives when the pointer is at `pointer`: the starting
/// rectangle moved (left button) or resized (right button) by the pointer's travel.
pub open spec fn drag_target(s: DragSession, pointer: Point) -> Rect {
    let dx = pointer.x - s.start.x;
    let dy = pointer.y - s.start.y;
    match s.button {
        DragButton::Left => repositioned(s.rect, dx, dy),
        DragButton::Right => resized(s.rect, dx, dy),
    }
}

/// Pressing `button` on `window` with the pointer at `pointer`, the window's live
/// rectangle being `rect`: the new session, and the rectangle to float the window at.
pub open spec fn start_spec(s: Option<DragSession>, button: DragButton, window: u32, pointer: Point, rect: Rect)
    -> (Option<DragSession>, Result<Rect, DragError>)
{
    match s {
        Some(_) => (s, Err(DragError::AlreadyDragging)),
        None => (Some(DragSession { button, window, start: pointer, rect }), Ok(rect)),
    }
}

/// Moving the pointer to `pointer`: the window and the rectangle to give it.
pub open spec fn update_spec(s: Option<DragSession>, pointer: Point) -> (Option<DragSession>, Result<(u32, Rect), DragError>) {
    match s {
        None => (s, Err(DragError::NoDragInProgress)),
        Some(d) => (s, Ok((d.window, drag_target(d, pointer)))),
    }
}

/// Releasing `button`.
pub open spec fn stop_spec(s: Option<DragSession>, button: DragButton) -> (Option<DragSession>, Result<(), DragError>) {
    match s {
        None => (s, Err(DragError::NoDragInProgress)),
        Some(d) => if d.button != button {
            (s, Err(DragError::ButtonMismatch))
        } else {
            (None, Ok(()))
        },
    }
}

/// The drag state of one set of mouse handlers: idle, or one drag in progress.
pub struct DragState {
    pub session: Option<DragSession>,
}

impl DragState {
    pub open spec fn wf(self) -> bool {
        match self.session {
            Some(d) => d.wf(),
            None => true,
        }
    }

    /// No drag in progress.
    pub fn new() -> (r: DragState)
        ensures
            r.session.is_none(),
            r.wf(),
    {
        DragState { session: None }
    }

    /// Whether a drag is in progress.
    pub fn is_dragging(&self) -> (r: bool)
        ensures
            r == self.session.is_some(),
    {
        self.session.is_some()
    }

    /// Starts a drag of `window` with `button`, the pointer at `pointer` and the
    /// window's live geometry `rect`. Returns the rectangle to float the window at.
    pub fn start(&mut self, button: DragButton, window: u32, pointer: Point, rect: Rect) -> (r: Result<Rect, DragError>)
        requires
            old(self).wf(),
            pointer.in_x_range(),
            rect.in_x_range(),
        ensures
            (final(self).session, r) == start_spec(old(self).session, button, window, pointer, rect),
            final(self).wf(),
    {
        if self.session.is_some() {
            return Err(DragError::AlreadyDragging);
        }
        self.session = Some(DragSession { button, window, start: pointer, rect });
        Ok(rect)
    }

    /// The pointer moved to `pointer`: returns the dragged window and its new rectangle.
    pub fn update(&mut self, pointer: Point) -> (r: Result<(u32, Rect), DragError>)
        requires
            old(self).wf(),
            pointer.in_x_range(),
        ensures
            (final(self).session, r) == update_spec(old(self).session, pointer),
            final(self).wf(),
    {
        match self.session {
            None => Err(DragError::NoDragInProgress),
            Some(d) => {
                let dx: i32 = pointer.x as i32 - d.start.x as i32;
                let dy: i32 = pointer.y as i32 - d.start.y as i32;
                let r = match d.button {
                    DragButton::Left => reposition(d.rect, dx, dy),
                    DragButton::Right => resize(d.rect, dx, dy),
                };
                Ok((d.window, r))
            },
        }
    }

    /// `button` was released: ends the drag it started.
    pub fn stop(&mut self, button: DragButton) -> (r: Result<(), DragError>)
        requires
            old(self).wf(),
        ensures
            (final(self).session, r) == stop_spec(old(self).session, button),
            final(self).wf(),
    {
        match self.session {
            None => Err(DragError::NoDragInProgress),
            Some(d) => {
                if d.button != button {
                    Err(DragError::ButtonMismatch)
                } else {
                    self.session = None;
                    Ok(())
                }
            },
        }
    }
}

/// Starting a drag while one is in progress fails and keeps the first drag.
pub proof fn lemma_start_twice_fails(b1: DragButton, w1: u32, first_at: Point, r1: Rect, b2: DragButton, w2: u32, second_at: Point, r2: Rect)
    ensures
        ({
            let first = start_spec(None, b1, w1, first_at, r1);
            let second = start_spec(first.0, b2, w2, second_at, r2);
            second.1 == Err::<Rect, DragError>(DragError::AlreadyDragging) && second.0 == first.0
        }),
{
}

/// Releasing a button with no drag in progress fails.
pub proof fn lemma_stop_without_start_fails(b: DragButton)
    ensures
        stop_spec(None, b) == (None::<DragSession>, Err::<(), DragError>(DragError::NoDragInProgress)),
{
}

/// A left drag whose pointer travels by `(dx, dy)` moves the window by exactly
/// that much (while it stays right of and below the origin) and keeps its size;
/// releasing the button then ends the drag.
pub proof fn lemma_left_drag_moves(w: u32, p: Point, r: Rect, dx: int, dy: int)
    requires
        p.x + dx >= 0,
        p.y + dy >= 0,
        p.x + dx <= u32::MAX,
        p.y + dy <= u32::MAX,
        r.x + dx >= 0,
        r.y + dy >= 0,
    ensures
        ({
            let started = start_spec(None, DragButton::Left, w, p, r);
            let moved = update_spec(started.0, Point { x: (p.x + dx) as u32, y: (p.y + dy) as u32 });
            let stopped = stop_spec(moved.0, DragButton::Left);
            &&& started.1 == Ok::<Rect, DragError>(r)
            &&& moved.1 == Ok::<(u32, Rect), DragError>(
                (w, Rect { x: (r.x + dx) as u32, y: (r.y + dy) as u32, w: r.w, h: r.h }),
            )
            &&& stopped == (None::<DragSession>, Ok::<(), DragError>(()))
        }),
{
}

/// A right drag whose pointer travels by `(dx, dy)` keeps the window's corner and
/// grows it by exactly that much (while it stays at least a pixel wide and high);
/// releasing the button then ends the drag.
pub proof fn lemma_right_drag_resizes(w: u32, p: Point, r: Rect, dx: int, dy: int)
    requires
        p.x + dx >= 0,
        p.y + dy >= 0,
        p.x + dx <= u32::MAX,
        p.y + dy <= u32::MAX,
        r.w + dx >= 1,
        r.h + dy >= 1,
    ensures
        ({
            let started = start_spec(None, DragButton::Right, w, p, r);
            let moved = update_spec(started.0, Point { x: (p.x + dx) as u32, y: (p.y + dy) as u32 });
            let stopped = stop_spec(moved.0, DragButton::Right);
            &&& started.1 == Ok::<Rect, DragError>(r)
            &&& moved.1 == Ok::<(u32, Rect), DragError>(
                (w, Rect { x: r.x, y: r.y, w: (r.w + dx) as u32, h: (r.h + dy) as u32 }),
            )
            &&& stopped == (None::<DragSession>, Ok::<(), DragError>(()))
        }),
{
}

} // verus!

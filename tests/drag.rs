use favilo_penrose::drag::{DragButton, DragError, DragState};
use favilo_penrose::geometry::{Point, Rect};

#[test]
fn second_start_fails_with_already_dragging() {
    let mut d = DragState::new();
    let r = Rect::new(100, 100, 400, 300);
    assert_eq!(d.start(DragButton::Left, 5, Point::new(10, 10), r), Ok(r));
    let err = d.start(DragButton::Right, 6, Point::new(20, 20), r).unwrap_err();
    assert_eq!(err, DragError::AlreadyDragging);
    assert_eq!(err.message(), "already dragging");
    assert_eq!(d.session.unwrap().window, 5);
}

#[test]
fn stop_without_start_fails_with_no_drag() {
    let mut d = DragState::new();
    let err = d.stop(DragButton::Left).unwrap_err();
    assert_eq!(err, DragError::NoDragInProgress);
    assert_eq!(err.message(), "no drag in progress");
    assert_eq!(d.update(Point::new(1, 1)), Err(DragError::NoDragInProgress));
}

#[test]
fn left_drag_repositions_by_pointer_travel() {
    let mut d = DragState::new();
    let r = Rect::new(100, 200, 400, 300);
    d.start(DragButton::Left, 9, Point::new(50, 60), r).unwrap();
    assert_eq!(d.update(Point::new(60, 65)), Ok((9, Rect::new(110, 205, 400, 300))));
    assert_eq!(d.stop(DragButton::Left), Ok(()));
    assert!(!d.is_dragging());
}

#[test]
fn right_drag_resizes_by_pointer_travel() {
    let mut d = DragState::new();
    let r = Rect::new(100, 200, 400, 300);
    d.start(DragButton::Right, 9, Point::new(50, 60), r).unwrap();
    assert_eq!(d.update(Point::new(60, 65)), Ok((9, Rect::new(100, 200, 410, 305))));
    assert_eq!(d.stop(DragButton::Right), Ok(()));
    assert!(!d.is_dragging());
}

#[test]
fn drag_clamps_at_origin_and_minimum_size() {
    let mut d = DragState::new();
    d.start(DragButton::Left, 1, Point::new(500, 500), Rect::new(10, 20, 30, 40)).unwrap();
    assert_eq!(d.update(Point::new(400, 450)), Ok((1, Rect::new(0, 0, 30, 40))));
    d.stop(DragButton::Left).unwrap();
    d.start(DragButton::Right, 1, Point::new(500, 500), Rect::new(10, 20, 30, 40)).unwrap();
    assert_eq!(d.update(Point::new(400, 450)), Ok((1, Rect::new(10, 20, 1, 1))));
}

#[test]
fn updates_are_relative_to_drag_start() {
    let mut d = DragState::new();
    d.start(DragButton::Left, 3, Point::new(0, 0), Rect::new(10, 10, 5, 5)).unwrap();
    d.update(Point::new(100, 100)).unwrap();
    assert_eq!(d.update(Point::new(1, 2)), Ok((3, Rect::new(11, 12, 5, 5))));
}

#[test]
fn release_of_other_button_keeps_drag() {
    let mut d = DragState::new();
    d.start(DragButton::Left, 3, Point::new(0, 0), Rect::new(10, 10, 5, 5)).unwrap();
    assert_eq!(d.stop(DragButton::Right), Err(DragError::ButtonMismatch));
    assert!(d.is_dragging());
    assert_eq!(d.stop(DragButton::Left), Ok(()));
}

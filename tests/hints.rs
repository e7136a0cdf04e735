use favilo_penrose::geometry::Rect;
use favilo_penrose::hints::{
    gravity_is_static, is_constrained, notification_rect, suggested_centered, GeometryError,
    RelRect, SizeHints,
};
use favilo_penrose::query::QueryError;

fn screen() -> Rect {
    Rect::new(0, 0, 1920, 1080)
}

fn quarter() -> RelRect {
    RelRect::new(0, 0, 250, 250)
}

#[test]
fn base_size_is_centered_on_screen() {
    let hints = SizeHints::new(Some(Rect::new(0, 0, 200, 150)), None, None, None);
    assert_eq!(suggested_centered(&hints, quarter(), screen()), Ok(Rect::new(860, 465, 200, 150)));
}

#[test]
fn base_size_is_clamped_to_max_before_centering() {
    let hints = SizeHints::new(
        Some(Rect::new(0, 0, 3000, 150)),
        None,
        Some(Rect::new(0, 0, 400, 400)),
        None,
    );
    let r = suggested_centered(&hints, quarter(), screen()).unwrap();
    assert_eq!(r.w, 400);
    assert_eq!(r, Rect::new(760, 465, 400, 150));
}

#[test]
fn missing_base_falls_back_to_relative_size() {
    let hints = SizeHints::new(None, None, None, None);
    assert_eq!(suggested_centered(&hints, quarter(), screen()), Ok(Rect::new(720, 405, 480, 270)));
}

#[test]
fn oversized_rect_cannot_be_centered() {
    let hints = SizeHints::new(Some(Rect::new(0, 0, 3000, 150)), None, None, None);
    assert_eq!(suggested_centered(&hints, quarter(), screen()), Err(GeometryError::LargerThanScreen));
}

#[test]
fn centering_uses_screen_offset() {
    let hints = SizeHints::new(Some(Rect::new(5, 5, 100, 100)), None, None, None);
    let second_screen = Rect::new(1920, 0, 1280, 1024);
    assert_eq!(suggested_centered(&hints, quarter(), second_screen), Ok(Rect::new(2510, 462, 100, 100)));
}

#[test]
fn min_size_raises_small_rects() {
    let hints = SizeHints::new(None, Some(Rect::new(0, 0, 300, 200)), Some(Rect::new(0, 0, 400, 400)), None);
    assert_eq!(hints.apply_to_elementwise(Rect::new(3, 4, 100, 500)), Rect::new(3, 4, 300, 400));
    assert_eq!(hints.apply_to_elementwise(Rect::new(3, 4, 350, 250)), Rect::new(3, 4, 350, 250));
    let none = SizeHints::new(None, None, None, None);
    assert_eq!(none.apply_to_elementwise(Rect::new(1, 2, 3, 4)), Rect::new(1, 2, 3, 4));
}

#[test]
fn hint_getters_return_fields() {
    let hints = SizeHints::new(
        Some(Rect::new(0, 0, 1, 1)),
        Some(Rect::new(0, 0, 2, 2)),
        Some(Rect::new(0, 0, 3, 3)),
        Some(Rect::new(0, 0, 4, 4)),
    );
    assert_eq!(hints.base(), Some(Rect::new(0, 0, 1, 1)));
    assert_eq!(hints.min(), Some(Rect::new(0, 0, 2, 2)));
    assert_eq!(hints.max(), Some(Rect::new(0, 0, 3, 3)));
    assert_eq!(hints.user_specified(), Some(Rect::new(0, 0, 4, 4)));
    assert!(!is_constrained(&Some(hints)));
    assert!(!is_constrained(&None));
}

#[test]
fn relative_rect_is_clamped_and_applied() {
    assert_eq!(RelRect::new(1200, 0, 500, 2000), RelRect { x: 1000, y: 0, w: 500, h: 1000 });
    let r = RelRect::new(500, 250, 250, 500).applied_to(&Rect::new(100, 50, 1000, 800));
    assert_eq!(r, Rect::new(600, 250, 250, 400));
    let r = RelRect::new(750, 0, 900, 100).applied_to(&screen());
    assert_eq!(r, Rect::new(1440, 0, 1728, 108));
}

#[test]
fn notification_sits_at_top_right() {
    let hints = SizeHints::new(None, None, None, Some(Rect::new(10, 10, 300, 50)));
    assert_eq!(notification_rect(&hints, 150, 50, screen()), Ok(Rect::new(1572, 27, 300, 50)));
    let none = SizeHints::new(None, None, None, None);
    assert_eq!(notification_rect(&none, 150, 50, screen()), Ok(Rect::new(1584, 27, 288, 54)));
}

#[test]
fn notification_wider_than_anchor_fails() {
    let hints = SizeHints::new(None, None, None, Some(Rect::new(0, 0, 2000, 50)));
    assert_eq!(notification_rect(&hints, 150, 50, screen()), Err(GeometryError::LargerThanScreen));
}

#[test]
fn gravity_read_from_raw_hints() {
    let mut words = vec![0u32; 18];
    words[17] = 10;
    let ty = Some("WM_SIZE_HINTS".to_string());
    assert_eq!(gravity_is_static(&ty, &Some(words.clone())), Ok(true));
    words[17] = 1;
    assert_eq!(gravity_is_static(&ty, &Some(words.clone())), Ok(false));
    assert_eq!(gravity_is_static(&None, &None), Ok(false));
}

#[test]
fn malformed_raw_hints_are_errors() {
    let ty = Some("WM_SIZE_HINTS".to_string());
    assert_eq!(gravity_is_static(&Some("CARDINAL".to_string()), &Some(vec![0; 18])), Err(QueryError::InvalidHints));
    assert_eq!(gravity_is_static(&ty, &None), Err(QueryError::InvalidPropertyData));
    assert_eq!(gravity_is_static(&ty, &Some(vec![10; 17])), Err(QueryError::InvalidHints));
}

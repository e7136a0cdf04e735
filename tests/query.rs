use favilo_penrose::geometry::Rect;
use favilo_penrose::hints::SizeHints;
use favilo_penrose::query::{
    IsDock, OneOfQuery, Query, QueryError, StrProp, StrQuery, WindowProps,
};

fn prop(name: &str, values: &[&str]) -> StrProp {
    StrProp {
        name: name.to_string(),
        answer: Ok(Some(values.iter().map(|s| s.to_string()).collect())),
    }
}

fn failed_prop(name: &str) -> StrProp {
    StrProp { name: name.to_string(), answer: Err(QueryError::Connection) }
}

fn window(props: Vec<StrProp>) -> WindowProps {
    WindowProps { id: 7, props, normal_hints: Ok(None), static_gravity: Ok(false) }
}

fn failing() -> Query {
    Query::StringProperty("BROKEN".to_string(), "x".to_string())
}

fn broken_window() -> WindowProps {
    window(vec![prop("WM_CLASS", &["zoom", "zoom"]), failed_prop("BROKEN")])
}

#[test]
fn class_name_matches_second_class_string() {
    let w = window(vec![prop("WM_CLASS", &["Navigator", "firefox"])]);
    assert_eq!(Query::ClassName("firefox".to_string()).run(&w), Ok(true));
    assert_eq!(Query::ClassName("Navigator".to_string()).run(&w), Ok(false));
    let single = window(vec![prop("WM_CLASS", &["firefox"])]);
    assert_eq!(Query::ClassName("firefox".to_string()).run(&single), Ok(false));
    let unset = window(vec![]);
    assert_eq!(Query::ClassName("firefox".to_string()).run(&unset), Ok(false));
}

#[test]
fn class_name_failure_propagates() {
    let w = window(vec![failed_prop("WM_CLASS")]);
    assert_eq!(Query::ClassName("zoom".to_string()).run(&w), Err(QueryError::Connection));
}

#[test]
fn title_falls_back_to_net_wm_name_only_on_failure() {
    let w = window(vec![failed_prop("WM_NAME"), prop("_NET_WM_NAME", &["Chat"])]);
    assert_eq!(Query::Title("Chat".to_string()).run(&w), Ok(true));
    let unset = window(vec![prop("_NET_WM_NAME", &["Chat"])]);
    assert_eq!(Query::Title("Chat".to_string()).run(&unset), Ok(false));
    let both_failed = window(vec![failed_prop("WM_NAME"), failed_prop("_NET_WM_NAME")]);
    assert_eq!(Query::Title("Chat".to_string()).run(&both_failed), Ok(false));
}

#[test]
fn string_property_compares_first_string() {
    let w = window(vec![prop("_NET_WM_NAME", &["zoom", "other"])]);
    let q = Query::StringProperty("_NET_WM_NAME".to_string(), "zoom".to_string());
    assert_eq!(q.run(&w), Ok(true));
    let q = Query::StringProperty("_NET_WM_NAME".to_string(), "other".to_string());
    assert_eq!(q.run(&w), Ok(false));
}

#[test]
fn first_entry_for_a_name_wins() {
    let w = window(vec![prop("WM_NAME", &["first"]), prop("WM_NAME", &["second"])]);
    assert_eq!(Query::Title("first".to_string()).run(&w), Ok(true));
    assert_eq!(Query::Title("second".to_string()).run(&w), Ok(false));
}

#[test]
fn and_skips_second_when_first_is_false() {
    let w = broken_window();
    assert_eq!(failing().run(&w), Err(QueryError::Connection));
    let q = Query::ClassName("firefox".to_string()).and(failing());
    assert_eq!(q.run(&w), Ok(false));
    let q = Query::ClassName("zoom".to_string()).and(failing());
    assert_eq!(q.run(&w), Err(QueryError::Connection));
}

#[test]
fn or_skips_second_when_first_is_true() {
    let w = broken_window();
    let q = Query::ClassName("zoom".to_string()).or(failing());
    assert_eq!(q.run(&w), Ok(true));
    let q = Query::ClassName("firefox".to_string()).or(failing());
    assert_eq!(q.run(&w), Err(QueryError::Connection));
}

#[test]
fn double_negation_is_identity() {
    let w = broken_window();
    for name in ["zoom", "firefox"] {
        let plain = Query::ClassName(name.to_string());
        let twice = Query::ClassName(name.to_string()).not().not();
        assert_eq!(twice.run(&w), plain.run(&w));
    }
    assert_eq!(Query::ClassName("zoom".to_string()).not().run(&w), Ok(false));
    assert_eq!(failing().not().not().run(&w), Err(QueryError::Connection));
}

#[test]
fn one_of_matches_any_title() {
    let w = window(vec![prop("WM_NAME", &["Settings"])]);
    let q = OneOfQuery::new(&["Zoom", "Settings", "Chat"], StrQuery::Title);
    assert_eq!(q.strs, vec!["Zoom".to_string(), "Settings".to_string(), "Chat".to_string()]);
    assert_eq!(q.run(&w), Ok(true));
    let q = OneOfQuery::new(&["Zoom", "Chat"], StrQuery::Title);
    assert_eq!(q.run(&w), Ok(false));
    let q = OneOfQuery::new(&[], StrQuery::Title);
    assert_eq!(Query::OneOf(q).run(&w), Ok(false));
}

#[test]
fn one_of_stops_at_first_match_and_reports_earlier_failure() {
    let w = window(vec![prop("OK", &["b"]), failed_prop("BROKEN")]);
    let hit_first = OneOfQuery::new(&["b", "x"], StrQuery::StringProperty("OK".to_string()));
    assert_eq!(hit_first.run(&w), Ok(true));
    let fails = OneOfQuery::new(&["a", "b"], StrQuery::StringProperty("BROKEN".to_string()));
    assert_eq!(fails.run(&w), Err(QueryError::Connection));
}

#[test]
fn dock_and_desktop_types_are_docks() {
    let dock = window(vec![prop("_NET_WM_WINDOW_TYPE", &["_NET_WM_WINDOW_TYPE_DOCK"])]);
    let desktop = window(vec![prop("_NET_WM_WINDOW_TYPE", &["_NET_WM_WINDOW_TYPE_DESKTOP"])]);
    let normal = window(vec![prop("_NET_WM_WINDOW_TYPE", &["_NET_WM_WINDOW_TYPE_NORMAL"])]);
    let unset = window(vec![]);
    assert_eq!(IsDock.run(&dock), Ok(true));
    assert_eq!(IsDock.run(&desktop), Ok(true));
    assert_eq!(IsDock.run(&normal), Ok(false));
    assert_eq!(IsDock.run(&unset), Ok(false));
    assert_eq!(Query::IsDock.run(&dock), Ok(true));
    let broken = window(vec![failed_prop("_NET_WM_WINDOW_TYPE")]);
    assert_eq!(IsDock.run(&broken), Err(QueryError::Connection));
}

#[test]
fn constrained_size_hints_need_equal_min_and_max() {
    let mut w = window(vec![]);
    assert_eq!(Query::ConstrainedSizeHints.run(&w), Ok(false));
    let r = Rect::new(0, 0, 300, 200);
    w.normal_hints = Ok(Some(SizeHints::new(None, Some(r), Some(r), None)));
    assert_eq!(Query::ConstrainedSizeHints.run(&w), Ok(true));
    w.normal_hints = Ok(Some(SizeHints::new(None, Some(r), Some(Rect::new(0, 0, 301, 200)), None)));
    assert_eq!(Query::ConstrainedSizeHints.run(&w), Ok(false));
    w.normal_hints = Ok(Some(SizeHints::new(None, None, Some(r), None)));
    assert_eq!(Query::ConstrainedSizeHints.run(&w), Ok(false));
}

#[test]
fn static_size_hints_need_static_gravity_and_user_size() {
    let mut w = window(vec![]);
    w.normal_hints = Ok(Some(SizeHints::new(None, None, None, Some(Rect::new(10, 10, 300, 50)))));
    assert_eq!(Query::StaticSizeHints.run(&w), Ok(false));
    w.static_gravity = Ok(true);
    assert_eq!(Query::StaticSizeHints.run(&w), Ok(true));
    w.normal_hints = Ok(Some(SizeHints::new(None, None, None, Some(Rect::new(10, 10, 0, 50)))));
    assert_eq!(Query::StaticSizeHints.run(&w), Ok(false));
    w.static_gravity = Err(QueryError::InvalidHints);
    assert_eq!(Query::StaticSizeHints.run(&w), Err(QueryError::InvalidHints));
}

#[test]
fn unreadable_hints_are_query_failures() {
    let mut w = window(vec![]);
    w.normal_hints = Err(QueryError::InvalidPropertyData);
    assert_eq!(Query::ConstrainedSizeHints.run(&w), Err(QueryError::InvalidPropertyData));
    assert_eq!(Query::StaticSizeHints.run(&w), Ok(false));
    w.static_gravity = Ok(true);
    assert_eq!(Query::StaticSizeHints.run(&w), Err(QueryError::InvalidPropertyData));
    w.normal_hints = Ok(None);
    assert_eq!(Query::StaticSizeHints.run(&w), Ok(false));
}

use leftwm_theme_dark_nord::manager::{App, Signal, TabsState};

#[test]
fn signal_tick_replaces_oldest_points() {
    let mut s = Signal { source: vec![10, 11, 12, 13].into_iter(), points: vec![1, 2, 3], tick_rate: 2 };
    s.on_tick();
    assert_eq!(s.points, vec![3, 10, 11]);
    s.on_tick();
    assert_eq!(s.points, vec![11, 12, 13]);
}

#[test]
fn signal_tick_stops_at_end_of_source() {
    let mut s = Signal { source: vec![7].into_iter(), points: vec![1, 2, 3], tick_rate: 2 };
    s.on_tick();
    assert_eq!(s.points, vec![3, 7]);
    s.on_tick();
    assert!(s.points.is_empty());
}

#[test]
fn signal_tick_of_zero_rate_changes_nothing() {
    let mut s = Signal { source: vec![5, 6].into_iter(), points: vec![1], tick_rate: 0 };
    s.on_tick();
    assert_eq!(s.points, vec![1]);
}

#[test]
fn tabs_wrap_both_ways() {
    let mut t = TabsState::new(vec!["a", "b", "c"]);
    assert_eq!(t.index, 0);
    t.previous();
    assert_eq!(t.index, 2);
    t.next();
    assert_eq!(t.index, 0);
    t.next();
    t.next();
    assert_eq!(t.index, 2);
    t.next();
    assert_eq!(t.index, 0);
}

#[test]
fn next_then_previous_returns() {
    for start in 0..4 {
        let mut t = TabsState::new(vec!["a", "b", "c", "d"]);
        t.index = start;
        t.next();
        t.previous();
        assert_eq!(t.index, start);
        t.previous();
        t.next();
        assert_eq!(t.index, start);
    }
}

#[test]
fn app_starts_on_general_tab() {
    let app = App::new("Lefty prototype", true);
    assert_eq!(app.title, "Lefty prototype");
    assert!(!app.should_quit);
    assert!(!app.show_modal);
    assert!(app.enhanced_graphics);
    assert_eq!(app.main_tabs.titles, vec!["General", "Bar"]);
    assert_eq!(app.main_tabs.index, 0);
}

#[test]
fn app_keys() {
    let mut app = App::new("t", false);
    app.on_key('i');
    app.on_key('x');
    assert!(!app.should_quit);
    app.on_esc();
    assert!(app.show_modal);
    app.on_esc();
    assert!(!app.show_modal);
    app.on_right();
    assert_eq!(app.main_tabs.index, 1);
    app.on_right();
    assert_eq!(app.main_tabs.index, 0);
    app.on_left();
    assert_eq!(app.main_tabs.index, 1);
    app.on_up();
    app.on_down();
    assert_eq!(app.main_tabs.index, 1);
    assert!(!app.show_modal);
    app.on_key('q');
    assert!(app.should_quit);
}

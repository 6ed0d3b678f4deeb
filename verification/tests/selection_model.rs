use tmmx::app::App;
use tmmx::app::Followup;
use tmmx::app::Panel;
use tmmx::model::TmuxPane;
use tmmx::model::TmuxSession;
use tmmx::model::TmuxWindow;

fn sess(name: &str) -> TmuxSession {
    TmuxSession {
        name: name.to_string(),
        id: format!("${}", name),
        windows: 1,
        attached: false,
        created: 0,
        last_activity: 0,
    }
}

fn win(name: &str, index: u32) -> TmuxWindow {
    TmuxWindow {
        name: name.to_string(),
        index,
        id: format!("@{}", index),
        active: false,
        panes: 1,
        layout: String::new(),
        flags: String::new(),
    }
}

fn pane(id: &str, index: u32) -> TmuxPane {
    TmuxPane {
        id: id.to_string(),
        index,
        active: false,
        command: "zsh".to_string(),
        width: 80,
        height: 24,
        top: 0,
        left: 0,
        cwd: "/".to_string(),
        pid: 1,
    }
}

#[test]
fn empty_list_clears_selection() {
    let mut app = App::new(0);
    app.refresh_sessions(vec![sess("a")]);
    assert_eq!(app.session_sel, Some(0));
    app.refresh_sessions(Vec::new());
    assert_eq!(app.session_sel, None);
}

#[test]
fn first_refresh_selects_index_zero() {
    let mut app = App::new(0);
    app.refresh_sessions(vec![sess("a"), sess("b")]);
    assert_eq!(app.session_sel, Some(0));
    assert_eq!(app.selected_session_name().as_deref(), Some("a"));
}

#[test]
fn session_selection_survives_reorder_by_name() {
    let mut app = App::new(0);
    app.refresh_sessions(vec![sess("a"), sess("b"), sess("c")]);
    let f = app.move_selection(Panel::Sessions, 1);
    assert_eq!(f, Followup::Cascade(Panel::Sessions));
    assert_eq!(app.selected_session_name().as_deref(), Some("b"));
    // "b" moves to the front; the selection follows it.
    app.refresh_sessions(vec![sess("b"), sess("c"), sess("a")]);
    assert_eq!(app.session_sel, Some(0));
    assert_eq!(app.selected_session_name().as_deref(), Some("b"));
}

#[test]
fn vanished_session_falls_back_to_index_zero() {
    let mut app = App::new(0);
    app.refresh_sessions(vec![sess("a"), sess("b")]);
    app.move_selection(Panel::Sessions, 1);
    assert_eq!(app.selected_session_name().as_deref(), Some("b"));
    app.refresh_sessions(vec![sess("c"), sess("a")]);
    assert_eq!(app.session_sel, Some(0));
    assert_eq!(app.selected_session_name().as_deref(), Some("c"));
}

#[test]
fn window_selection_survives_by_index() {
    let mut app = App::new(0);
    app.refresh_sessions(vec![sess("a")]);
    app.refresh_windows(vec![win("one", 1), win("two", 2), win("five", 5)], None);
    assert_eq!(app.window_sel, Some(0));
    app.move_selection(Panel::Windows, 1);
    app.move_selection(Panel::Windows, 1);
    assert_eq!(app.selected_window_index(), Some(5));
    app.refresh_windows(
        vec![win("five", 5), win("one", 1)],
        app.selected_window_index(),
    );
    assert_eq!(app.window_sel, Some(0));
    assert_eq!(app.selected_window_index(), Some(5));
}

#[test]
fn pane_selection_survives_by_id() {
    let mut app = App::new(0);
    app.refresh_sessions(vec![sess("a")]);
    app.refresh_windows(vec![win("one", 0)], None);
    app.refresh_panes(vec![pane("%1", 0), pane("%2", 1)], None);
    app.move_selection(Panel::Panes, 1);
    assert_eq!(app.selected_pane_id().as_deref(), Some("%2"));
    app.refresh_panes(vec![pane("%2", 0), pane("%3", 1)], app.selected_pane_id());
    assert_eq!(app.pane_sel, Some(0));
    assert_eq!(app.selected_pane_id().as_deref(), Some("%2"));
}

#[test]
fn windows_cleared_without_session_scope() {
    let mut app = App::new(0);
    app.refresh_windows(vec![win("stray", 0)], None);
    assert!(app.windows.is_empty());
    assert_eq!(app.window_sel, None);
}

#[test]
fn panes_cleared_without_window_scope() {
    let mut app = App::new(0);
    app.refresh_sessions(vec![sess("a")]);
    app.refresh_windows(Vec::new(), None);
    app.refresh_panes(vec![pane("%9", 0)], None);
    assert!(app.panes.is_empty());
    assert_eq!(app.pane_sel, None);
}

#[test]
fn preview_cleared_without_pane() {
    let mut app = App::new(0);
    app.refresh_preview("stale text".to_string());
    assert!(app.pane_capture.is_empty());
}

#[test]
fn preview_holds_capture_of_selected_pane() {
    let mut app = App::new(0);
    app.refresh_sessions(vec![sess("a")]);
    app.refresh_windows(vec![win("one", 0)], None);
    app.refresh_panes(vec![pane("%1", 0)], None);
    app.refresh_preview("hello".to_string());
    assert_eq!(app.pane_capture, "hello");
}

#[test]
fn refresh_twice_is_idempotent() {
    let mut app = App::new(0);
    app.refresh_sessions(vec![sess("a"), sess("b"), sess("b")]);
    app.move_selection(Panel::Sessions, 1);
    let list = || vec![sess("x"), sess("b"), sess("b")];
    app.refresh_sessions(list());
    let first = app.session_sel;
    let first_name = app.selected_session_name();
    app.refresh_sessions(list());
    assert_eq!(app.session_sel, first);
    assert_eq!(app.selected_session_name(), first_name);
    // Duplicate keys resolve to the first occurrence both times.
    assert_eq!(first, Some(1));
}

#[test]
fn selection_always_in_bounds() {
    let mut app = App::new(0);
    app.refresh_sessions(vec![sess("a"), sess("b")]);
    // Clamped at the bottom.
    for _ in 0..5 {
        app.move_selection(Panel::Sessions, 1);
    }
    assert_eq!(app.session_sel, Some(1));
    // Clamped at the top.
    for _ in 0..5 {
        app.move_selection(Panel::Sessions, -1);
    }
    assert_eq!(app.session_sel, Some(0));
    // Never a selection on an empty list.
    let f = app.move_selection(Panel::Panes, 1);
    assert_eq!(f, Followup::Idle);
    assert_eq!(app.pane_sel, None);
    // The preview panel has no list to select in.
    let f = app.move_selection(Panel::Preview, 1);
    assert_eq!(f, Followup::Idle);
}

#[test]
fn session_navigation_demands_full_cascade() {
    let mut app = App::new(0);
    app.refresh_sessions(vec![sess("a"), sess("b")]);
    app.refresh_windows(vec![win("old", 7)], None);
    app.refresh_panes(vec![pane("%1", 0)], None);
    app.refresh_preview("old capture".to_string());
    let f = app.move_selection(Panel::Sessions, 1);
    assert_eq!(f, Followup::Cascade(Panel::Sessions));
    // The caller performs the cascade for the new scope.
    app.refresh_windows(vec![win("new", 3)], None);
    app.refresh_panes(vec![pane("%8", 0)], None);
    app.refresh_preview("new capture".to_string());
    assert_eq!(app.selected_window_index(), Some(3));
    assert_eq!(app.selected_pane_id().as_deref(), Some("%8"));
    assert_eq!(app.pane_capture, "new capture");
}

#[test]
fn window_navigation_cascades_below_windows() {
    let mut app = App::new(0);
    app.refresh_sessions(vec![sess("a")]);
    app.refresh_windows(vec![win("one", 0), win("two", 1)], None);
    let f = app.move_selection(Panel::Windows, 1);
    assert_eq!(f, Followup::Cascade(Panel::Windows));
    let f = app.move_selection(Panel::Panes, 1);
    assert_eq!(f, Followup::Idle);
}

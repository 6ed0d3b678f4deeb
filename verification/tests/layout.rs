use tmmx::minimap::map_panes;
use tmmx::minimap::Rect;
use tmmx::model::TmuxPane;

fn pane_at(id: &str, index: u32, left: u32, top: u32, width: u32, height: u32) -> TmuxPane {
    TmuxPane {
        id: id.to_string(),
        index,
        active: index == 0,
        command: "vim".to_string(),
        width,
        height,
        top,
        left,
        cwd: "/".to_string(),
        pid: 1,
    }
}

#[test]
fn two_side_by_side_panes_fill_the_viewport() {
    // Window bound 80x20, projected 1:1 onto an 80x20 viewport.
    let panes = vec![
        pane_at("%1", 0, 0, 0, 40, 20),
        pane_at("%2", 1, 40, 0, 40, 20),
    ];
    let area = Rect { x: 0, y: 0, width: 80, height: 20 };
    let mapped = map_panes(&panes, area, Some(0)).unwrap();
    assert_eq!(mapped.len(), 2);
    assert_eq!((mapped[0].x, mapped[0].y, mapped[0].w, mapped[0].h), (0, 0, 40, 20));
    assert_eq!((mapped[1].x, mapped[1].y, mapped[1].w, mapped[1].h), (40, 0, 40, 20));
    // Non-overlapping, at least the minimum drawable size, covering the full
    // viewport width together.
    assert!(mapped[0].x + mapped[0].w <= mapped[1].x);
    assert!(mapped[0].w >= 3 && mapped[1].w >= 3);
    assert!(mapped[0].h >= 2 && mapped[1].h >= 2);
    assert_eq!(mapped[0].w + mapped[1].w, area.width);
    assert!(mapped[0].selected);
    assert!(!mapped[1].selected);
}

#[test]
fn viewport_below_width_threshold_is_too_small() {
    let panes = vec![
        pane_at("%1", 0, 0, 0, 40, 20),
        pane_at("%2", 1, 40, 0, 40, 20),
    ];
    // Two panes need at least 2 * 3 = 6 columns.
    let area = Rect { x: 0, y: 0, width: 5, height: 20 };
    assert!(map_panes(&panes, area, None).is_none());
}

#[test]
fn viewport_below_height_threshold_is_too_small() {
    let panes = vec![pane_at("%1", 0, 0, 0, 40, 20)];
    let area = Rect { x: 0, y: 0, width: 80, height: 1 };
    assert!(map_panes(&panes, area, None).is_none());
}

#[test]
fn empty_or_degenerate_layout_projects_nothing() {
    let area = Rect { x: 0, y: 0, width: 80, height: 20 };
    let mapped = map_panes(&Vec::new(), area, None).unwrap();
    assert!(mapped.is_empty());
    let zero = vec![pane_at("%1", 0, 0, 0, 0, 0)];
    let mapped = map_panes(&zero, area, None).unwrap();
    assert!(mapped.is_empty());
}

#[test]
fn labels_carry_star_index_and_command() {
    let panes = vec![
        pane_at("%1", 0, 0, 0, 40, 20),
        pane_at("%2", 12, 40, 0, 40, 20),
    ];
    let area = Rect { x: 0, y: 0, width: 80, height: 20 };
    let mapped = map_panes(&panes, area, None).unwrap();
    assert_eq!(mapped[0].label, "*0 vim");
    assert_eq!(mapped[1].label, "12 vim");
}

#[test]
fn scaling_halves_a_double_size_window() {
    let panes = vec![
        pane_at("%1", 0, 0, 0, 80, 20),
        pane_at("%2", 1, 80, 0, 80, 20),
        pane_at("%3", 2, 0, 20, 160, 20),
    ];
    // Window bound 160x40 onto 40x10: every coordinate is quartered/halved.
    let area = Rect { x: 2, y: 3, width: 40, height: 10 };
    let mapped = map_panes(&panes, area, None).unwrap();
    assert_eq!((mapped[0].x, mapped[0].y, mapped[0].w, mapped[0].h), (2, 3, 20, 5));
    assert_eq!((mapped[1].x, mapped[1].y, mapped[1].w, mapped[1].h), (22, 3, 20, 5));
    assert_eq!((mapped[2].x, mapped[2].y, mapped[2].w, mapped[2].h), (2, 8, 40, 5));
}

#[test]
fn tiny_panes_are_floored_and_clamped() {
    // A sliver pane scales to under the minimum cell size and is floored,
    // then clamped so it cannot leave the viewport.
    let panes = vec![
        pane_at("%1", 0, 0, 0, 79, 20),
        pane_at("%2", 1, 79, 0, 1, 20),
    ];
    let area = Rect { x: 0, y: 0, width: 80, height: 20 };
    let mapped = map_panes(&panes, area, None).unwrap();
    assert_eq!(mapped[1].x, 79);
    // Floored to the 3-column minimum, then clamped to the 1 column left.
    assert_eq!(mapped[1].w, 1);
    assert!(mapped[1].x + mapped[1].w <= area.x + area.width);
}

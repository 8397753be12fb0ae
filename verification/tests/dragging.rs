use wezterm_core::command::{Command, MouseCursor};
use wezterm_core::drag::{
    detach_pane_to_new_window, detach_tab_to_new_window, move_pane_to_tab, pane_moved_to_new_tab,
    restore_drag_source_tab, DragScene, WindowTarget,
};
use wezterm_core::dropping::{
    DropBar, DropPane, DropScene, Edge, EdgeFacts, Sides, SplitExtent, DROP_EDGE_RANK,
    TAB_BAR_DROP_MARKER_WIDTH_RANK,
};
use wezterm_core::geometry::{
    difference, point_in_rect, sum, Bounds, Coord, Point, RectF, ScreenPoint, Size, Spot,
};
use wezterm_core::input::{HeldButtons, MouseEvent, MouseEventKind};
use wezterm_core::termwindow::{Settings, TermWindow};
use wezterm_core::ui::{
    DragDropAction, DragDropPreview, DragDropSource, PaneDragState, SplitDirection, SplitRequest,
    SplitSize, TabBarItem, TabDragState, TabStrip, UIItem, UIItemType,
};

const SETTINGS: Settings = Settings {
    use_fancy_tab_bar: true,
    tab_bar_at_bottom: false,
    mouse_wheel_scrolls_tabs: true,
    pane_focus_follows_mouse: false,
    swallow_mouse_click_on_window_focus: false,
    swallow_mouse_click_on_pane_focus: false,
    bypass_mouse_reporting_modifiers: 2,
    integrated_buttons_and_resize: true,
};

/// The rank of a position.
fn c(x: f32) -> Coord {
    let bits = x.abs().to_bits() as i32;
    Coord { rank: if x < 0.0 { -bits } else { bits } }
}

fn rect(x: f32, y: f32, width: f32, height: f32) -> RectF {
    RectF { x: c(x), y: c(y), width: c(width), height: c(height) }
}

fn bounds(x: f32, y: f32, width: f32, height: f32) -> Bounds {
    Bounds { rect: rect(x, y, width, height), max_x: c(x + width), max_y: c(y + height) }
}

fn spot(x: isize, y: isize) -> Spot {
    Spot { point: Point { x, y }, x: c(x as f32), y: c(y as f32) }
}

fn event(x: isize, y: isize) -> MouseEvent {
    MouseEvent {
        kind: MouseEventKind::Move,
        coords: Point { x, y },
        screen_coords: ScreenPoint { x: x + 100, y: y + 50 },
        mouse_buttons: HeldButtons::LeftOnly,
        modifiers: 0,
    }
}

fn tab_item(x: usize, tab_idx: usize) -> UIItem {
    UIItem {
        x,
        y: 0,
        width: 100,
        height: 20,
        item_type: UIItemType::TabBar(TabBarItem::Tab { tab_idx, active: false }),
    }
}

fn window() -> TermWindow {
    let mut w = TermWindow::new(1, SETTINGS, 800, 600, 8, 16, 24);
    w.ui_items = vec![tab_item(0, 0), tab_item(100, 1)];
    w
}

fn extent(rows: usize) -> Option<SplitExtent> {
    Some(SplitExtent { first_rows: rows, first_cols: 40, second_rows: 12, second_cols: 40 })
}

/// A pane that fills the window below the tab bar.
fn pane(at: Spot) -> DropPane {
    let (x, y) = (at.point.x as f32, at.point.y as f32);
    let across = x / 800.0;
    let down = (y - 20.0) / 580.0;
    let edge = |distance: f32, half| EdgeFacts { distance: c(distance), half, split: extent(12) };
    DropPane {
        pane_id: 77,
        bounds: bounds(0.0, 20.0, 800.0, 580.0),
        left: edge(across, rect(0.0, 20.0, 400.0, 580.0)),
        right: edge(1.0 - across, rect(400.0, 20.0, 400.0, 580.0)),
        top: edge(down, rect(0.0, 20.0, 800.0, 290.0)),
        bottom: edge(1.0 - down, rect(0.0, 310.0, 800.0, 290.0)),
    }
}

fn scene(at: Spot) -> DropScene {
    DropScene {
        tab_bar: Some(DropBar {
            bounds: bounds(0.0, 0.0, 800.0, 20.0),
            marker_limit: c(796.0),
        }),
        hits: vec![
            at.point.y <= 20 && at.point.x <= 100,
            at.point.y <= 20 && at.point.x > 100 && at.point.x <= 200,
        ],
        sides: vec![
            Sides { left: c(0.0), right: c(100.0) },
            Sides { left: c(100.0), right: c(200.0) },
        ],
        window_len: Some(2),
        source_window: Some(1),
        source_panes: Some(1),
        active_tab: Some(50),
        zoomed: false,
        panes: vec![pane(at)],
    }
}

fn split_at(edge_is_second: bool, direction: SplitDirection) -> DragDropAction {
    DragDropAction::Split {
        target_pane_id: 77,
        request: SplitRequest {
            direction,
            target_is_second: edge_is_second,
            top_level: false,
            size: SplitSize::Percent(50),
        },
    }
}

fn drag(started: bool) -> PaneDragState {
    PaneDragState {
        pane_id: 9,
        source_tab_id: 4,
        start_event: event(0, 0),
        grab_offset: Point { x: 1, y: 2 },
        dragged_size: Size { width: 24, height: 18 },
        current_coords: Point { x: 0, y: 0 },
        preview_window: None,
        same_window_target_tab_id: Some(50),
        started,
    }
}

fn tab_drag(started: bool) -> TabDragState {
    TabDragState {
        tab_id: 4,
        start_event: event(0, 0),
        grab_offset: Point { x: 1, y: 2 },
        dragged_size: Size { width: 100, height: 20 },
        current_coords: Point { x: 0, y: 0 },
        preview_window: None,
        same_window_target_tab_id: Some(50),
        started,
    }
}

fn surroundings(here: Spot) -> DragScene {
    DragScene {
        cross_window: true,
        target: Some(WindowTarget { mux_window_id: 1, window: 11, spot: here }),
        here,
        tab_bar: Some(bounds(0.0, 0.0, 800.0, 20.0)),
        strip: Some(TabStrip { tabs: vec![4, 50], last_active: None }),
    }
}

#[test]
fn ranks_are_ordered_like_positions() {
    let xs = [-1000.5, -1.0, -0.25, 0.0, 0.1, 0.25, 0.5, 1.0, 3.999, 4.0, 1e9];
    for pair in xs.windows(2) {
        assert!(c(pair[0]).rank < c(pair[1]).rank);
    }
    assert_eq!(c(0.0).rank, 0);
    assert_eq!(c(0.25).rank, DROP_EDGE_RANK);
    assert_eq!(c(4.0).rank, TAB_BAR_DROP_MARKER_WIDTH_RANK);
    assert_eq!(c(1.0).max(c(2.0)), c(2.0));
    assert_eq!(c(5.0).clamp(c(1.0), c(3.0)), c(3.0));
    assert_eq!(c(-5.0).clamp(c(1.0), c(3.0)), c(1.0));
    assert_eq!(c(2.0).clamp(c(1.0), c(3.0)), c(2.0));
}

#[test]
fn rectangles_hold_their_borders() {
    let b = bounds(0.0, 20.0, 800.0, 580.0);
    assert!(point_in_rect(spot(0, 20), b));
    assert!(point_in_rect(spot(800, 600), b));
    assert!(!point_in_rect(spot(801, 600), b));
    assert!(!point_in_rect(spot(0, 19), b));
}

#[test]
fn pixel_sums_saturate() {
    assert_eq!(difference(isize::MIN, 1), isize::MIN);
    assert_eq!(difference(5, 7), -2);
    assert_eq!(sum(isize::MAX, 1), isize::MAX);
    assert_eq!(sum(-5, 7), 2);
}

#[test]
fn a_tab_goes_before_or_behind_the_one_under_it() {
    let w = window();
    let index = |x| w.tab_drop_index(Point { x, y: 5 }, &scene(spot(x, 5)));
    assert_eq!(index(10), Some(0));
    assert_eq!(index(50), Some(0));
    assert_eq!(index(51), Some(1));
    assert_eq!(index(149), Some(1));
    assert_eq!(index(160), Some(2));
    assert_eq!(index(500), None);
}

#[test]
fn blank_parts_of_the_bar_are_behind_all_tabs() {
    let mut w = window();
    let mut s = scene(spot(500, 5));
    w.ui_items.push(UIItem {
        x: 200,
        y: 0,
        width: 600,
        height: 20,
        item_type: UIItemType::TabBar(TabBarItem::Blank),
    });
    s.hits.push(true);
    s.sides.push(Sides { left: c(200.0), right: c(800.0) });
    assert_eq!(w.tab_drop_index(Point { x: 500, y: 5 }, &s), Some(2));
    w.ui_items[2].item_type = UIItemType::CloseTab(1);
    assert_eq!(w.tab_drop_index(Point { x: 500, y: 5 }, &s), None);
}

#[test]
fn the_tab_bar_shows_a_marker() {
    let w = window();
    let at = |x| w.drop_preview_at(DragDropSource::Tab(4), spot(x, 5), &scene(spot(x, 5))).unwrap();
    let first = at(10);
    assert_eq!(first.action, DragDropAction::Merge { destination_index: 0 });
    assert_eq!(first.rect, rect(0.0, 0.0, 4.0, 20.0));
    assert_eq!(at(60).rect.x, c(100.0));
    // Behind the last tab, and where no part of the bar is hit.
    assert_eq!(at(180).action, DragDropAction::Merge { destination_index: 2 });
    assert_eq!(at(180).rect.x, c(200.0));
    assert_eq!(at(500).action, DragDropAction::Merge { destination_index: 2 });
}

#[test]
fn the_marker_stays_in_the_bar() {
    let mut w = window();
    w.ui_items = vec![tab_item(790, 0)];
    let mut s = scene(spot(795, 5));
    s.hits = vec![true];
    s.sides = vec![Sides { left: c(790.0), right: c(890.0) }];
    let p = w.drop_preview_at(DragDropSource::Tab(4), spot(895, 5), &s);
    assert_eq!(p, None);
    let p = w.drop_preview_at(DragDropSource::Tab(4), spot(800, 5), &s).unwrap();
    assert_eq!(p.rect.x, c(790.0));
    s.sides = vec![Sides { left: c(799.0), right: c(890.0) }];
    let p = w.drop_preview_at(DragDropSource::Tab(4), spot(800, 5), &s).unwrap();
    assert_eq!(p.rect.x, c(796.0));
    w.ui_items = vec![];
    s.hits = vec![];
    s.sides = vec![];
    let p = w.drop_preview_at(DragDropSource::Tab(4), spot(800, 5), &s).unwrap();
    assert_eq!(p.rect.x, c(0.0));
}

#[test]
fn edges_of_a_pane_split_it() {
    let w = window();
    let source = DragDropSource::Pane { pane_id: 9, tab_id: 4 };
    let action = |x, y| {
        w.drop_preview_at(source, spot(x, y), &scene(spot(x, y))).map(|p| p.action)
    };
    assert_eq!(action(10, 300), Some(split_at(false, SplitDirection::Horizontal)));
    assert_eq!(action(790, 300), Some(split_at(true, SplitDirection::Horizontal)));
    assert_eq!(action(400, 30), Some(split_at(false, SplitDirection::Vertical)));
    assert_eq!(action(400, 590), Some(split_at(true, SplitDirection::Vertical)));
    // A quarter of the way in is near enough.
    assert_eq!(action(200, 310), Some(split_at(false, SplitDirection::Horizontal)));
    assert_eq!(action(201, 310), None);
    assert_eq!(
        w.drop_preview_at(source, spot(10, 300), &scene(spot(10, 300))).unwrap().rect,
        rect(0.0, 20.0, 400.0, 580.0)
    );
}

#[test]
fn ties_go_to_the_left_then_the_top() {
    let mut p = pane(spot(0, 0));
    for edge in [&mut p.left, &mut p.right, &mut p.top, &mut p.bottom] {
        edge.distance = c(0.1);
    }
    assert_eq!(p.nearest_edge(), Edge::Left);
    p.left.distance = c(0.2);
    assert_eq!(p.nearest_edge(), Edge::Right);
    p.right.distance = c(0.2);
    assert_eq!(p.nearest_edge(), Edge::Top);
    p.top.distance = c(0.2);
    assert_eq!(p.nearest_edge(), Edge::Bottom);
}

#[test]
fn a_pane_too_small_to_split_takes_nothing() {
    let w = window();
    let source = DragDropSource::Pane { pane_id: 9, tab_id: 4 };
    let mut s = scene(spot(10, 300));
    s.panes[0].left.split = extent(0);
    assert_eq!(w.drop_preview_at(source, spot(10, 300), &s), None);
    s.panes[0].left.split = None;
    assert_eq!(w.drop_preview_at(source, spot(10, 300), &s), None);
    let mut s = scene(spot(10, 300));
    s.zoomed = true;
    assert_eq!(w.drop_preview_at(source, spot(10, 300), &s), None);
    let mut s = scene(spot(10, 300));
    s.panes[0].bounds.rect.height = c(0.0);
    assert_eq!(w.drop_preview_at(source, spot(10, 300), &s), None);
}

#[test]
fn the_first_pane_under_the_mouse_takes_the_drop() {
    let w = window();
    let at = spot(10, 300);
    let mut s = scene(at);
    let mut elsewhere = pane(at);
    elsewhere.pane_id = 76;
    elsewhere.bounds = bounds(400.0, 20.0, 400.0, 580.0);
    let mut below = pane(at);
    below.pane_id = 78;
    s.panes = vec![elsewhere, pane(at), below];
    match w.drop_preview_at(DragDropSource::Tab(4), at, &s).unwrap().action {
        DragDropAction::Split { target_pane_id, .. } => assert_eq!(target_pane_id, 77),
        _ => panic!("the edge of a pane splits it"),
    }
}

#[test]
fn nothing_drops_into_its_own_tab() {
    let w = window();
    let mut s = scene(spot(10, 300));
    s.active_tab = Some(4);
    for source in [DragDropSource::Tab(4), DragDropSource::Pane { pane_id: 9, tab_id: 4 }] {
        assert_eq!(w.drop_preview_at(source, spot(10, 300), &s), None);
    }
    s.active_tab = None;
    assert_eq!(w.drop_preview_at(DragDropSource::Tab(5), spot(10, 300), &s), None);
    s.active_tab = Some(50);
    s.window_len = None;
    assert_eq!(w.drop_preview_at(DragDropSource::Tab(5), spot(10, 300), &s), None);
}

#[test]
fn a_tab_of_another_window_merges_in_the_middle() {
    let w = window();
    let middle = spot(400, 310);
    let mut s = scene(middle);
    assert_eq!(w.drop_preview_at(DragDropSource::Tab(4), middle, &s), None);
    s.source_window = Some(2);
    let p = w.drop_preview_at(DragDropSource::Tab(4), middle, &s).unwrap();
    assert_eq!(p.action, DragDropAction::Merge { destination_index: 2 });
    assert_eq!(p.rect, rect(0.0, 20.0, 800.0, 580.0));
    assert_eq!(
        w.drop_preview_at(DragDropSource::Pane { pane_id: 9, tab_id: 4 }, middle, &s),
        None
    );
    // A tab of several panes never splits.
    let edge = spot(10, 300);
    let mut s = scene(edge);
    s.source_window = Some(2);
    s.source_panes = Some(3);
    assert!(matches!(
        w.drop_preview_at(DragDropSource::Tab(4), edge, &s).unwrap().action,
        DragDropAction::Merge { .. }
    ));
}

#[test]
fn previews_are_painted_when_they_change() {
    let mut w = window();
    let at = spot(10, 300);
    let source = DragDropSource::Tab(4);
    assert_eq!(w.update_drop_preview(source, at, &scene(at)), vec![Command::InvalidateWindow]);
    assert!(w.drag_drop_preview.is_some());
    assert!(w.update_drop_preview(source, at, &scene(at)).is_empty());
    assert_eq!(w.clear_drag_drop_preview(), vec![Command::InvalidateWindow]);
    assert!(w.clear_drag_drop_preview().is_empty());
    w.has_window = false;
    assert!(w.update_drop_preview(source, at, &scene(at)).is_empty());
    assert!(w.drag_drop_preview.is_some());
}

#[test]
fn a_press_becomes_a_drag_after_six_pixels() {
    let mut w = window();
    assert!(w.drag_pane(drag(false), event(5, -5), &surroundings(spot(5, 300))).is_empty());
    assert!(!w.pane_drag.unwrap().started);
    assert_eq!(w.pane_drag.unwrap().current_coords, Point { x: 5, y: -5 });
    w.drag_pane(drag(false), event(0, -6), &surroundings(spot(5, 300)));
    assert!(w.pane_drag.unwrap().started);
    // Once started, a drag goes on wherever the mouse is.
    w.drag_pane(drag(true), event(0, 0), &surroundings(spot(5, 300)));
    assert!(w.pane_drag.unwrap().started);
    assert!(w.drag_tab(tab_drag(false), event(5, 5), &surroundings(spot(5, 300))).is_empty());
    w.drag_tab(tab_drag(false), event(6, 0), &surroundings(spot(5, 300)));
    assert!(w.tab_drag.unwrap().started);
}

#[test]
fn a_dragged_pane_shows_another_tab_to_drop_on() {
    let mut w = window();
    let source = DragDropSource::Pane { pane_id: 9, tab_id: 4 };
    let e = event(300, 300);
    assert_eq!(
        w.drag_pane(drag(true), e, &surroundings(spot(300, 300))),
        vec![
            Command::SetCursor(MouseCursor::Hand),
            Command::ActivateTabWithoutSaving { window_id: 1, index: 1 },
            Command::UpdateDropPreview { source, point: Point { x: 300, y: 300 } },
            Command::Invalidate,
        ]
    );
    assert_eq!(
        w.drag_pane(drag(true), event(300, 5), &surroundings(spot(300, 5))),
        vec![
            Command::SetCursor(MouseCursor::Hand),
            Command::UpdateDropPreview { source, point: Point { x: 300, y: 5 } },
            Command::Invalidate,
        ]
    );
    let mut s = surroundings(spot(300, 300));
    s.cross_window = false;
    s.target = None;
    assert_eq!(w.drag_pane(drag(true), e, &s).len(), 4);
    w.drag_drop_preview = Some(DragDropPreview {
        action: DragDropAction::Merge { destination_index: 0 },
        rect: rect(0.0, 0.0, 4.0, 20.0),
    });
    assert_eq!(
        w.drag_pane(drag(true), event(-1, 300), &s),
        vec![
            Command::SetCursor(MouseCursor::Hand),
            Command::InvalidateWindow,
            Command::Invalidate,
        ]
    );
    assert_eq!(w.drag_drop_preview, None);
}

#[test]
fn the_preview_moves_from_window_to_window() {
    let mut w = window();
    let source = DragDropSource::Pane { pane_id: 9, tab_id: 4 };
    let mut s = surroundings(spot(30, 40));
    s.target = Some(WindowTarget { mux_window_id: 2, window: 22, spot: spot(30, 40) });
    let notify = Command::NotifyUpdatePreview { window: 22, source, point: Point { x: 30, y: 40 } };
    assert_eq!(
        w.drag_pane(drag(true), event(900, 0), &s),
        vec![Command::SetCursor(MouseCursor::Hand), notify, Command::Invalidate]
    );
    assert_eq!(w.pane_drag.unwrap().preview_window, Some(22));
    let mut from_other = drag(true);
    from_other.preview_window = Some(33);
    assert_eq!(
        w.drag_pane(from_other, event(900, 0), &s)[2],
        Command::NotifyClearPreview { window: 33 }
    );
    let mut staying = drag(true);
    staying.preview_window = Some(22);
    assert_eq!(w.drag_pane(staying, event(900, 0), &s).len(), 3);
    s.target = None;
    assert_eq!(
        w.drag_pane(staying, event(900, 0), &s)[1],
        Command::NotifyClearPreview { window: 22 }
    );
    assert_eq!(w.pane_drag.unwrap().preview_window, None);
}

#[test]
fn a_dragged_tab_reorders_over_the_bar() {
    let mut w = window();
    let over_bar = event(120, 5);
    assert_eq!(
        w.drag_tab(tab_drag(true), over_bar, &surroundings(spot(120, 5))),
        vec![
            Command::SetCursor(MouseCursor::Hand),
            Command::SettleTabDrag { event: over_bar },
            Command::Invalidate,
        ]
    );
    assert_eq!(
        w.settle_tab_drag(&vec![false, true]),
        vec![Command::MoveTabToWindow { tab_id: 4, window_id: 1, index: 1 }]
    );
    assert!(w.settle_tab_drag(&vec![false, false]).is_empty());
    w.drag_drop_preview = Some(DragDropPreview {
        action: DragDropAction::Merge { destination_index: 0 },
        rect: rect(0.0, 0.0, 4.0, 20.0),
    });
    assert!(w.settle_tab_drag(&vec![false, true]).is_empty());
    let inside = event(300, 300);
    assert_eq!(
        w.drag_tab(tab_drag(true), inside, &surroundings(spot(300, 300))),
        vec![
            Command::SetCursor(MouseCursor::Hand),
            Command::ActivateTabWithoutSaving { window_id: 1, index: 1 },
            Command::UpdateDropPreview {
                source: DragDropSource::Tab(4),
                point: Point { x: 300, y: 300 },
            },
            Command::SettleTabDrag { event: inside },
            Command::Invalidate,
        ]
    );
    w.tab_drag = None;
    assert!(w.settle_tab_drag(&vec![false, true]).is_empty());
}

#[test]
fn a_released_pane_lands_somewhere() {
    let e = event(30, 40);
    let source = DragDropSource::Pane { pane_id: 9, tab_id: 4 };
    let here = WindowTarget { mux_window_id: 1, window: 11, spot: spot(30, 40) };
    let there = WindowTarget { mux_window_id: 2, window: 22, spot: spot(1, 2) };
    let mut w = window();
    assert_eq!(
        w.finish_pane_drag(drag(true), e, true, Some(here)),
        vec![Command::DropPaneHere { source, point: Point { x: 30, y: 40 } }]
    );
    let mut shown_there = drag(true);
    shown_there.preview_window = Some(22);
    assert_eq!(
        w.finish_pane_drag(shown_there, e, true, Some(there)),
        vec![
            Command::NotifyClearPreview { window: 22 },
            Command::NotifyPaneDrop {
                window: 22,
                pane_id: 9,
                tab_id: 4,
                point: Point { x: 1, y: 2 },
            },
        ]
    );
    assert_eq!(
        w.finish_pane_drag(drag(true), e, true, None),
        vec![Command::DetachPane {
            pane_id: 9,
            source_tab_id: 4,
            point: ScreenPoint { x: 130, y: 90 },
            grab_offset: Point { x: 1, y: 2 },
        }]
    );
    assert_eq!(
        w.finish_pane_drag(drag(true), e, false, None),
        vec![Command::DropPaneHere { source, point: Point { x: 30, y: 40 } }]
    );
    assert_eq!(
        w.finish_pane_drag(drag(true), event(800, 40), false, None),
        vec![Command::RestoreSourceTab { tab_id: 4 }]
    );
    assert!(w.point_is_in_client(Point { x: 799, y: 599 }));
    assert!(!w.point_is_in_client(Point { x: 799, y: 600 }));
    assert!(!w.point_is_in_client(Point { x: -1, y: 0 }));
}

#[test]
fn dropped_panes_are_taken_where_the_preview_said() {
    let w = window();
    let edge = spot(10, 300);
    let source = DragDropSource::Pane { pane_id: 9, tab_id: 4 };
    let request = SplitRequest {
        direction: SplitDirection::Horizontal,
        target_is_second: false,
        top_level: false,
        size: SplitSize::Percent(50),
    };
    let split = vec![Command::MovePaneToSplit { pane_id: 9, target_pane_id: 77, request }];
    assert_eq!(w.accept_pane_drop(9, 4, edge, &scene(edge)), split);
    assert_eq!(w.finish_local_pane_drop(source, edge, &scene(edge)), split);
    let bar = spot(10, 5);
    assert_eq!(
        w.accept_pane_drop(9, 4, bar, &scene(bar)),
        vec![Command::MovePaneToTab { pane_id: 9, source_tab_id: 4, window_id: 1, index: 0 }]
    );
    let middle = spot(400, 310);
    let restore = vec![Command::RestoreSourceTab { tab_id: 4 }];
    assert_eq!(w.accept_pane_drop(9, 4, middle, &scene(middle)), restore);
    assert_eq!(w.finish_local_pane_drop(source, middle, &scene(middle)), restore);
    assert!(w.finish_local_pane_drop(DragDropSource::Tab(4), edge, &scene(edge)).is_empty());
}

#[test]
fn a_released_tab_lands_somewhere() {
    let e = event(30, 40);
    let here = WindowTarget { mux_window_id: 1, window: 11, spot: spot(30, 40) };
    let there = WindowTarget { mux_window_id: 2, window: 22, spot: spot(1, 2) };
    let mut w = window();
    assert!(w.finish_tab_drag(tab_drag(true), e, false, None).is_empty());
    assert_eq!(
        w.finish_tab_drag(tab_drag(true), e, true, None),
        vec![Command::MoveTabToNewWindow { tab_id: 4, position: ScreenPoint { x: 129, y: 88 } }]
    );
    assert!(matches!(
        w.finish_tab_drag(tab_drag(true), e, true, Some(here))[..],
        [Command::DropTabHere { tab_id: 4, .. }]
    ));
    assert!(matches!(
        w.finish_tab_drag(tab_drag(true), e, true, Some(there))[..],
        [Command::NotifyTabDrop { window: 22, tab_id: 4, .. }]
    ));
}

#[test]
fn dropped_tabs_are_taken_where_the_preview_said() {
    let w = window();
    let screen = ScreenPoint { x: 130, y: 90 };
    let grab = Point { x: 1, y: 2 };
    let strip = || Some(TabStrip { tabs: vec![50, 4], last_active: None });
    let bar = spot(180, 5);
    let merge = vec![Command::MoveTabToWindow { tab_id: 4, window_id: 1, index: 2 }];
    assert_eq!(w.accept_tab_drop(4, bar, screen, grab, &scene(bar)), merge);
    assert_eq!(w.finish_local_tab_drop(4, bar, screen, grab, &scene(bar), strip()), merge);
    let edge = spot(400, 590);
    assert!(matches!(
        w.accept_tab_drop(4, edge, screen, grab, &scene(edge))[..],
        [Command::MoveTabToSplit { tab_id: 4, target_pane_id: 77, .. }]
    ));
    let middle = spot(400, 310);
    assert_eq!(
        w.accept_tab_drop(4, middle, screen, grab, &scene(middle)),
        vec![Command::MoveTabToNewWindow { tab_id: 4, position: ScreenPoint { x: 129, y: 88 } }]
    );
    assert_eq!(
        w.finish_local_tab_drop(4, middle, screen, grab, &scene(middle), strip()),
        vec![Command::ActivateTabWithoutSaving { window_id: 1, index: 1 }]
    );
    assert_eq!(
        w.tab_split_failed(4, Some(2)),
        vec![Command::MoveTabToWindow { tab_id: 4, window_id: 1, index: 2 }]
    );
    assert_eq!(
        w.tab_split_failed(4, None),
        vec![Command::MoveTabToWindow { tab_id: 4, window_id: 1, index: 0 }]
    );
}

#[test]
fn a_tab_of_one_pane_moves_whole() {
    let point = ScreenPoint { x: 10, y: 20 };
    let grab = Point { x: 3, y: -4 };
    let whole = Command::MoveTabToNewWindow { tab_id: 4, position: ScreenPoint { x: 7, y: 24 } };
    assert_eq!(detach_tab_to_new_window(4, point, grab), vec![whole]);
    assert_eq!(detach_pane_to_new_window(9, 4, point, grab, Some(1)), vec![whole]);
    let alone = Command::MovePaneToNewTab { pane_id: 9, window_id: None, index: None };
    assert_eq!(detach_pane_to_new_window(9, 4, point, grab, Some(2)), vec![alone]);
    assert_eq!(detach_pane_to_new_window(9, 4, point, grab, None), vec![alone]);
    assert_eq!(
        move_pane_to_tab(9, 4, 1, 2, Some(1)),
        vec![Command::MoveTabToWindow { tab_id: 4, window_id: 1, index: 2 }]
    );
    assert_eq!(
        move_pane_to_tab(9, 4, 1, 2, Some(3)),
        vec![Command::MovePaneToNewTab { pane_id: 9, window_id: Some(1), index: Some(2) }]
    );
}

#[test]
fn a_new_tab_is_placed_and_focused() {
    assert_eq!(
        pane_moved_to_new_tab(9, Some((60, 1)), Some(2)),
        vec![
            Command::MoveTabToWindow { tab_id: 60, window_id: 1, index: 2 },
            Command::FocusPane { pane_id: 9 },
        ]
    );
    assert_eq!(
        pane_moved_to_new_tab(9, Some((60, 1)), None),
        vec![Command::FocusPane { pane_id: 9 }]
    );
    assert!(pane_moved_to_new_tab(9, None, Some(2)).is_empty());
}

#[test]
fn the_tab_a_drag_came_from_is_shown_again() {
    let strip = || Some(TabStrip { tabs: vec![50, 4], last_active: None });
    assert_eq!(
        restore_drag_source_tab(4, Some(3), strip()),
        vec![Command::ActivateTabWithoutSaving { window_id: 3, index: 1 }]
    );
    assert!(restore_drag_source_tab(5, Some(3), strip()).is_empty());
    assert!(restore_drag_source_tab(4, None, strip()).is_empty());
    assert!(restore_drag_source_tab(4, Some(3), None).is_empty());
}

use wezterm_core::command::{Command, MouseCursor, NewTabAction};
use wezterm_core::geometry::{Point, ScreenPoint, ScreenRect, Size};
use wezterm_core::input::{
    event_trigger, normalize_trigger, pane_mouse_event, take_out, ClickPosition, HeldButtons,
    LastMouseClick, MouseButton, MouseEvent, MouseEventKind, MouseEventTrigger, MousePress,
    PaneMouseKind,
};
use wezterm_core::termwindow::{ActivePane, MouseFrame, Settings, TermWindow, WindowFrame};
use wezterm_core::ui::{
    IntegratedTitleButton, MouseCapture, PaneDragState, PositionedSplit, SplitDirection, TabBarItem,
    TabDragState, TabStrip, UIItem, UIItemType,
};
use wezterm_core::ui_events::{after_new_tab_button_click, PaneHome, TabPane};

const SETTINGS: Settings = Settings {
    use_fancy_tab_bar: true,
    tab_bar_at_bottom: false,
    mouse_wheel_scrolls_tabs: true,
    pane_focus_follows_mouse: false,
    swallow_mouse_click_on_window_focus: false,
    swallow_mouse_click_on_pane_focus: false,
    bypass_mouse_reporting_modifiers: 2,
    integrated_buttons_and_resize: true,
};

const FRAME: MouseFrame = MouseFrame {
    tab_bar_height: 20,
    border_top: 2,
    padding_top: 4,
    left: 6,
    nearest_column: 3,
    containing_column: 2,
};

const PANE: ActivePane = ActivePane {
    pane_id: 9,
    mouse_grabbed: false,
    physical_top: 100,
    viewport: None,
};

fn window() -> TermWindow {
    TermWindow::new(1, SETTINGS, 800, 600, 8, 16, 24)
}

fn event(kind: MouseEventKind, x: isize, y: isize) -> MouseEvent {
    MouseEvent {
        kind,
        coords: Point { x, y },
        screen_coords: ScreenPoint { x: x + 100, y: y + 50 },
        mouse_buttons: HeldButtons::Other,
        modifiers: 0,
    }
}

fn item(item_type: UIItemType) -> UIItem {
    UIItem { x: 10, y: 0, width: 60, height: 20, item_type }
}

fn tab(tab_idx: usize) -> UIItemType {
    UIItemType::TabBar(TabBarItem::Tab { tab_idx, active: false })
}

fn left() -> MouseEventKind {
    MouseEventKind::Press(MousePress::Left)
}

fn drag_of(started: bool) -> PaneDragState {
    PaneDragState {
        pane_id: 9,
        source_tab_id: 4,
        start_event: event(left(), 0, 0),
        grab_offset: Point { x: 1, y: 2 },
        dragged_size: Size { width: 24, height: 18 },
        current_coords: Point { x: 0, y: 0 },
        preview_window: None,
        same_window_target_tab_id: None,
        started,
    }
}

fn tab_drag_of(started: bool) -> TabDragState {
    TabDragState {
        tab_id: 4,
        start_event: event(left(), 0, 0),
        grab_offset: Point { x: 1, y: 2 },
        dragged_size: Size { width: 60, height: 20 },
        current_coords: Point { x: 0, y: 0 },
        preview_window: None,
        same_window_target_tab_id: None,
        started,
    }
}

fn send(w: &mut TermWindow, e: MouseEvent, hits: Vec<bool>) -> Vec<Command> {
    w.mouse_event_impl(e, Some(PANE), FRAME, 1, &hits)
}

#[test]
fn positions_count_cells_below_the_bars() {
    let w = window();
    let at = w.click_position(&event(MouseEventKind::Move, 33, 26 + 40), &FRAME, false);
    assert_eq!(
        at,
        ClickPosition { column: 3, row: 2, x_pixel_offset: 3, y_pixel_offset: 8 }
    );
    // A program that wants the mouse gets the cell under it.
    let grabbed = w.click_position(&event(MouseEventKind::Move, 33, 26 + 40), &FRAME, true);
    assert_eq!(grabbed.column, 2);
    // Above the first line the offset is negative.
    let above = w.click_position(&event(MouseEventKind::Move, 33, 10), &FRAME, false);
    assert_eq!((above.row, above.y_pixel_offset), (0, -16));
    // Left of the first column too.
    let mut frame = FRAME;
    frame.nearest_column = 0;
    let beside = w.click_position(&event(MouseEventKind::Move, 2, 30), &frame, false);
    assert_eq!((beside.column, beside.x_pixel_offset), (0, -4));
}

#[test]
fn the_tab_bar_takes_no_room_at_the_bottom() {
    let mut w = window();
    w.config.tab_bar_at_bottom = true;
    let at = w.click_position(&event(MouseEventKind::Move, 33, 6 + 40), &FRAME, false);
    assert_eq!((at.row, at.y_pixel_offset), (2, 8));
    w.config.tab_bar_at_bottom = false;
    w.show_tab_bar = false;
    let at = w.click_position(&event(MouseEventKind::Move, 33, 6 + 40), &FRAME, false);
    assert_eq!((at.row, at.y_pixel_offset), (2, 8));
}

#[test]
fn the_topmost_part_is_hit() {
    let mut w = window();
    w.ui_items = vec![item(tab(0)), item(tab(1)), item(UIItemType::ScrollThumb)];
    assert_eq!(w.resolve_ui_item(&vec![true, true, false]), Some(item(tab(1))));
    assert_eq!(w.resolve_ui_item(&vec![true, true, true]), Some(item(UIItemType::ScrollThumb)));
    assert_eq!(w.resolve_ui_item(&vec![false, false, false]), None);
}

#[test]
fn only_the_tab_bar_is_told_when_left() {
    let w = window();
    assert_eq!(w.leave_ui_item(&item(tab(0))), vec![Command::UpdateTitlePostStatus]);
    assert_eq!(w.leave_ui_item(&item(UIItemType::CloseTab(0))), vec![]);
    assert_eq!(w.enter_ui_item(&item(tab(0))), vec![]);
    assert_eq!(w.enter_ui_item(&item(UIItemType::ScrollThumb)), vec![]);
}

#[test]
fn without_a_pane_nothing_happens() {
    let mut w = window();
    let commands = w.mouse_event_impl(event(left(), 5, 5), None, FRAME, 1, &vec![]);
    assert!(commands.is_empty());
    assert_eq!(w.current_mouse_event, None);
    assert_eq!(w.current_mouse_buttons, vec![]);
}

#[test]
fn presses_are_held_until_released() {
    let mut w = window();
    send(&mut w, event(left(), 50, 50), vec![]);
    send(&mut w, event(MouseEventKind::Press(MousePress::Right), 50, 50), vec![]);
    assert_eq!(w.current_mouse_buttons, vec![MousePress::Left, MousePress::Right]);
    send(&mut w, event(left(), 50, 50), vec![]);
    assert_eq!(w.current_mouse_buttons, vec![MousePress::Right, MousePress::Left]);
    send(&mut w, event(MouseEventKind::Release(MousePress::Right), 50, 50), vec![]);
    assert_eq!(w.current_mouse_buttons, vec![MousePress::Left]);
    send(&mut w, event(MouseEventKind::Release(MousePress::Middle), 50, 50), vec![]);
    assert_eq!(w.current_mouse_buttons, vec![MousePress::Left]);
    let mut held = vec![MousePress::Left, MousePress::Middle, MousePress::Right];
    take_out(&mut held, MousePress::Middle);
    assert_eq!(held, vec![MousePress::Left, MousePress::Right]);
}

#[test]
fn a_press_on_the_panes_goes_to_them() {
    let mut w = window();
    let e = event(left(), 33, 66);
    let commands = w.mouse_event_impl(e, Some(PANE), FRAME, 2, &vec![]);
    let position = ClickPosition { column: 3, row: 2, x_pixel_offset: 3, y_pixel_offset: 8 };
    assert_eq!(
        commands,
        vec![Command::Terminal { pane_id: 9, position, event: e, capture_mouse: true }]
    );
    assert_eq!(w.current_mouse_event, Some(e));
    assert_eq!(w.last_mouse_coords, (3, 2));
    assert_eq!(
        w.last_mouse_click,
        Some(LastMouseClick { button: MouseButton::Left, position, streak: 2 })
    );
}

#[test]
fn a_captured_mouse_ignores_the_parts_of_the_window() {
    let mut w = window();
    w.ui_items = vec![item(tab(0))];
    w.current_mouse_capture = Some(MouseCapture::TerminalPane(9));
    let e = event(MouseEventKind::Move, 20, 5);
    let commands = send(&mut w, e, vec![true]);
    assert_eq!(commands.len(), 1);
    assert!(matches!(commands[0], Command::Terminal { capture_mouse: false, .. }));
    let e = event(MouseEventKind::Release(MousePress::Left), 20, 5);
    send(&mut w, e, vec![true]);
    assert_eq!(w.current_mouse_capture, None);
}

#[test]
fn a_click_on_a_part_captures_the_mouse_for_it() {
    let mut w = window();
    w.ui_items = vec![item(UIItemType::CloseTab(3))];
    let e = event(left(), 20, 5);
    assert_eq!(
        send(&mut w, e, vec![true]),
        vec![
            Command::Invalidate,
            Command::CloseTab { tab_idx: 3, confirm: true },
            Command::SetCursor(MouseCursor::Arrow),
            Command::UpdateTitlePostStatus,
        ]
    );
    assert_eq!(w.current_mouse_capture, Some(MouseCapture::UI));
    assert_eq!(w.last_ui_item, Some(item(UIItemType::CloseTab(3))));
    // While the part has the mouse, the panes do not get it.
    let e = event(MouseEventKind::Move, 300, 300);
    assert_eq!(
        send(&mut w, e, vec![false]),
        vec![Command::Invalidate, Command::UpdateTitlePostStatus]
    );
    assert_eq!(w.last_ui_item, None);
}

#[test]
fn hovering_repaints_only_on_change_under_the_fancy_bar() {
    let mut w = window();
    w.ui_items = vec![item(tab(0)), item(tab(1))];
    w.last_ui_item = Some(item(tab(0)));
    let e = event(MouseEventKind::Move, 20, 5);
    assert_eq!(
        send(&mut w, e, vec![true, false]),
        vec![Command::SetCursor(MouseCursor::Arrow)]
    );
    assert_eq!(
        send(&mut w, e, vec![false, true]),
        vec![
            Command::UpdateTitlePostStatus,
            Command::Invalidate,
            Command::SetCursor(MouseCursor::Arrow),
            Command::UpdateTitlePostStatus,
        ]
    );
    w.config.use_fancy_tab_bar = false;
    assert_eq!(
        send(&mut w, e, vec![false, true]),
        vec![
            Command::UpdateTitlePostStatus,
            Command::Invalidate,
            Command::SetCursor(MouseCursor::Arrow),
        ]
    );
}

#[test]
fn drags_take_the_events_in_their_order() {
    let release = event(MouseEventKind::Release(MousePress::Left), 20, 5);
    let moved = event(MouseEventKind::Move, 20, 5);
    let done = vec![Command::SetCursor(MouseCursor::Arrow), Command::Invalidate];

    let mut w = window();
    w.pane_drag = Some(drag_of(true));
    w.tab_drag = Some(tab_drag_of(true));
    assert_eq!(
        send(&mut w, moved, vec![]),
        vec![Command::DragPane { drag: drag_of(true), event: moved }]
    );
    assert_eq!(w.pane_drag, None);
    assert_eq!(
        send(&mut w, moved, vec![]),
        vec![Command::DragTab { drag: tab_drag_of(true), event: moved }]
    );

    let mut w = window();
    w.pane_drag = Some(drag_of(true));
    let mut expected = vec![Command::FinishPaneDrag { drag: drag_of(true), event: release }];
    expected.extend(done.clone());
    assert_eq!(send(&mut w, release, vec![]), expected);

    let mut w = window();
    w.tab_drag = Some(tab_drag_of(true));
    let mut expected = vec![Command::FinishTabDrag { drag: tab_drag_of(true), event: release }];
    expected.extend(done.clone());
    assert_eq!(send(&mut w, release, vec![]), expected);

    // A press that never became a drag is dropped without a trace.
    let mut w = window();
    w.pane_drag = Some(drag_of(false));
    assert_eq!(send(&mut w, release, vec![]), done);
    assert_eq!(w.pane_drag, None);
}

#[test]
fn a_dragged_window_follows_the_mouse() {
    let mut w = window();
    w.window_drag_position = Some(event(left(), 30, 5));
    let moved = event(MouseEventKind::Move, 37, 9);
    assert_eq!(
        send(&mut w, moved, vec![]),
        vec![Command::SetWindowPosition(ScreenPoint { x: 107, y: 54 })]
    );
    assert!(w.window_drag_position.is_some());
    let release = event(MouseEventKind::Release(MousePress::Left), 37, 9);
    assert!(send(&mut w, release, vec![]).is_empty());
    assert_eq!(w.window_drag_position, None);
}

#[test]
fn a_dragged_part_gets_the_cell_under_the_mouse() {
    let thumb = item(UIItemType::ScrollThumb);
    let start = event(left(), 30, 5);
    let mut w = window();
    w.dragging = Some((thumb, start));
    let moved = event(MouseEventKind::Move, 33, 66);
    assert_eq!(
        send(&mut w, moved, vec![]),
        vec![Command::DragUiItem { item: thumb, start_event: start, column: 3, row: 2, event: moved }]
    );
    assert_eq!(w.dragging, None);
    w.dragging = Some((thumb, start));
    let release = event(MouseEventKind::Release(MousePress::Left), 37, 9);
    assert!(send(&mut w, release, vec![]).is_empty());
    assert_eq!(w.dragging, None);
}

#[test]
fn the_mouse_leaves() {
    let mut w = window();
    w.current_mouse_event = Some(event(MouseEventKind::Move, 1, 1));
    assert_eq!(
        w.mouse_leave_impl(),
        vec![
            Command::UpdateTitle,
            Command::SetCursor(MouseCursor::Arrow),
            Command::Invalidate,
        ]
    );
    assert_eq!(w.current_mouse_event, None);
}

fn on_bar(w: &mut TermWindow, bar: TabBarItem, kind: MouseEventKind) -> Vec<Command> {
    let mut commands = w.mouse_event_tab_bar(bar, event(kind, 20, 5));
    assert_eq!(commands.pop(), Some(Command::SetCursor(MouseCursor::Arrow)));
    commands
}

#[test]
fn tabs_react_to_each_button() {
    let mut w = window();
    let bar = TabBarItem::Tab { tab_idx: 2, active: true };
    assert_eq!(
        on_bar(&mut w, bar, left()),
        vec![Command::ActivateTab { tab_idx: 2, event: event(left(), 20, 5) }]
    );
    assert_eq!(
        on_bar(&mut w, bar, MouseEventKind::Press(MousePress::Middle)),
        vec![Command::CloseTab { tab_idx: 2, confirm: true }]
    );
    assert_eq!(
        on_bar(&mut w, bar, MouseEventKind::Press(MousePress::Right)),
        vec![Command::ShowTabNavigator]
    );
    assert!(on_bar(&mut w, bar, MouseEventKind::Move).is_empty());
    assert!(on_bar(&mut w, bar, MouseEventKind::Release(MousePress::Left)).is_empty());
}

#[test]
fn the_wheel_goes_through_the_tabs() {
    let mut w = window();
    let bar = TabBarItem::RightStatus;
    let turn = |w: &mut TermWindow, n| on_bar(w, bar, MouseEventKind::VertWheel(n));
    assert_eq!(turn(&mut w, 1), vec![Command::ActivateTabRelative { delta: -1, wrap: true }]);
    assert_eq!(turn(&mut w, -1), vec![Command::ActivateTabRelative { delta: 1, wrap: true }]);
    assert_eq!(turn(&mut w, 0), vec![Command::ActivateTabRelative { delta: 1, wrap: true }]);
    w.config.mouse_wheel_scrolls_tabs = false;
    assert!(turn(&mut w, 1).is_empty());
    assert!(on_bar(&mut w, bar, MouseEventKind::HorzWheel(1)).is_empty());
}

#[test]
fn the_blank_bar_moves_the_window() {
    let mut w = window();
    assert_eq!(on_bar(&mut w, TabBarItem::Blank, left()), vec![Command::RequestDragMove]);
    assert_eq!(w.window_drag_position, Some(event(left(), 20, 5)));
    assert_eq!(
        on_bar(&mut w, TabBarItem::LeftStatus, MouseEventKind::Move),
        vec![Command::SetWindowDragPosition(ScreenPoint { x: 120, y: 55 })]
    );
}

#[test]
fn a_double_click_on_the_blank_bar_maximizes() {
    let mut w = window();
    let position = ClickPosition { column: 0, row: 0, x_pixel_offset: 0, y_pixel_offset: 0 };
    w.last_mouse_click = Some(LastMouseClick { button: MouseButton::Left, position, streak: 2 });
    assert_eq!(
        on_bar(&mut w, TabBarItem::Blank, left()),
        vec![Command::MaximizeWindow, Command::RequestDragMove]
    );
    w.window_drag_position = None;
    w.maximized = true;
    assert_eq!(
        on_bar(&mut w, TabBarItem::Blank, left()),
        vec![Command::RestoreWindow, Command::RequestDragMove]
    );
    assert_eq!(w.window_drag_position, None);
    w.config.integrated_buttons_and_resize = false;
    assert_eq!(on_bar(&mut w, TabBarItem::Blank, left()), vec![Command::RequestDragMove]);
}

#[test]
fn frame_buttons_work_on_the_window() {
    let mut w = window();
    let press = |w: &mut TermWindow, b| on_bar(w, TabBarItem::WindowButton(b), left());
    assert_eq!(press(&mut w, IntegratedTitleButton::Hide), vec![Command::HideWindow]);
    assert_eq!(press(&mut w, IntegratedTitleButton::Maximize), vec![Command::MaximizeWindow]);
    assert_eq!(press(&mut w, IntegratedTitleButton::Close), vec![Command::CloseRequested]);
    w.maximized = true;
    assert_eq!(press(&mut w, IntegratedTitleButton::Maximize), vec![Command::RestoreWindow]);
    w.has_window = false;
    assert!(press(&mut w, IntegratedTitleButton::Close).is_empty());
    w.last_ui_item = Some(item(UIItemType::TabBar(TabBarItem::WindowButton(
        IntegratedTitleButton::Maximize,
    ))));
    assert_eq!(
        on_bar(
            &mut w,
            TabBarItem::WindowButton(IntegratedTitleButton::Maximize),
            MouseEventKind::Move
        ),
        vec![Command::SetMaximizeButtonPosition(ScreenRect { x: 110, y: 50, width: 60, height: 20 })]
    );
}

#[test]
fn the_button_for_new_tabs_asks_the_script_first() {
    let mut w = window();
    assert_eq!(
        on_bar(&mut w, TabBarItem::NewTabButton, left()),
        vec![Command::NewTabButton(MousePress::Left)]
    );
    assert_eq!(
        w.do_new_tab_button_click(Some(9), MousePress::Left),
        vec![Command::EmitNewTabButtonClick {
            pane_id: 9,
            button: MousePress::Left,
            action: Some(NewTabAction::SpawnTab),
        }]
    );
    assert_eq!(
        w.do_new_tab_button_click(Some(9), MousePress::Middle),
        vec![Command::EmitNewTabButtonClick {
            pane_id: 9,
            button: MousePress::Middle,
            action: None,
        }]
    );
    assert!(w.do_new_tab_button_click(None, MousePress::Right).is_empty());
    let launcher = Some(NewTabAction::ShowLauncher);
    assert_eq!(after_new_tab_button_click(true, launcher), launcher);
    assert_eq!(after_new_tab_button_click(false, launcher), None);
}

#[test]
fn clicks_beside_the_thumb_turn_pages() {
    let w = window();
    let press = event(left(), 790, 100);
    assert_eq!(
        w.mouse_event_above_scroll_thumb(PANE, press),
        vec![
            Command::SetViewport { pane_id: 9, row: 76 },
            Command::Invalidate,
            Command::SetCursor(MouseCursor::Arrow),
        ]
    );
    let mut scrolled = PANE;
    scrolled.viewport = Some(50);
    assert_eq!(
        w.mouse_event_below_scroll_thumb(scrolled, press)[0],
        Command::SetViewport { pane_id: 9, row: 74 }
    );
    scrolled.viewport = Some(isize::MIN + 3);
    assert_eq!(
        w.mouse_event_above_scroll_thumb(scrolled, press)[0],
        Command::SetViewport { pane_id: 9, row: isize::MIN }
    );
    assert_eq!(
        w.mouse_event_above_scroll_thumb(PANE, event(MouseEventKind::Move, 790, 100)),
        vec![Command::SetCursor(MouseCursor::Arrow)]
    );
}

#[test]
fn a_page_up_and_a_page_down_cancel_out() {
    let w = window();
    let press = event(left(), 790, 100);
    let mut pane = PANE;
    pane.viewport = Some(50);
    for up_first in [true, false] {
        let mut here = pane;
        for up in [up_first, !up_first] {
            let commands = if up {
                w.mouse_event_above_scroll_thumb(here, press)
            } else {
                w.mouse_event_below_scroll_thumb(here, press)
            };
            match commands[0] {
                Command::SetViewport { row, .. } => here.viewport = Some(row),
                _ => panic!("a click turns a page"),
            }
        }
        assert_eq!(here.viewport, Some(50));
    }
}

#[test]
fn splits_and_thumbs_are_grabbed() {
    let mut w = window();
    let split = PositionedSplit {
        index: 1,
        direction: SplitDirection::Vertical,
        left: 0,
        top: 10,
        size: 80,
    };
    let line = item(UIItemType::Split(split));
    let press = event(left(), 20, 5);
    assert_eq!(
        w.mouse_event_split(line, split, press),
        vec![Command::SetCursor(MouseCursor::SizeUpDown)]
    );
    assert_eq!(w.dragging, Some((line, press)));
    // Two rows down.
    assert_eq!(
        w.drag_split(line, split, press, 0, 12, true),
        vec![Command::ResizeSplit { index: 1, delta: 2, item: line, start_event: press }]
    );
    assert!(w.drag_split(line, split, press, 5, 10, true).is_empty());
    w.dragging = None;
    assert!(w.drag_split(line, split, press, 0, 12, false).is_empty());
    assert_eq!(w.dragging, None);
    let moved = PositionedSplit { top: 12, ..split };
    assert_eq!(w.split_resized(line, press, Some(moved)), vec![Command::Invalidate]);
    assert_eq!(w.dragging, Some((item(UIItemType::Split(moved)), press)));
    assert!(w.split_resized(line, press, None).is_empty());
    assert_eq!(w.dragging, Some((line, press)));
    let thumb = item(UIItemType::ScrollThumb);
    w.mouse_event_scroll_thumb(thumb, press);
    assert_eq!(w.dragging, Some((thumb, press)));
}

#[test]
fn the_thumb_keeps_its_place_under_the_mouse() {
    let mut w = window();
    let frame = WindowFrame {
        tab_bar_height: 20,
        border_left: 0,
        border_top: 2,
        border_right: 0,
        border_bottom: 3,
    };
    let thumb = UIItem { x: 790, y: 100, width: 10, height: 50, item_type: UIItemType::ScrollThumb };
    let start = event(left(), 795, 110);
    let drag = |w: &mut TermWindow, y| {
        w.drag_ui_item(thumb, start, 0, 0, event(MouseEventKind::Move, 795, y), true, Some(9), frame)
    };
    assert_eq!(
        drag(&mut w, 130),
        vec![
            Command::ScrollThumbTo { pane_id: 9, thumb_top: 98, track_height: 575 },
            Command::Invalidate,
        ]
    );
    assert_eq!(w.dragging, Some((thumb, start)));
    assert_eq!(
        drag(&mut w, 0)[0],
        Command::ScrollThumbTo { pane_id: 9, thumb_top: 0, track_height: 575 }
    );
    w.config.tab_bar_at_bottom = true;
    assert_eq!(
        drag(&mut w, 130)[0],
        Command::ScrollThumbTo { pane_id: 9, thumb_top: 118, track_height: 575 }
    );
    let other = item(UIItemType::CloseTab(0));
    assert!(w
        .drag_ui_item(other, start, 0, 0, start, true, Some(9), frame)
        .is_empty());
}

#[test]
fn tabs_stand_in_for_each_other() {
    let strip = |last_active| TabStrip { tabs: vec![7, 5, 3], last_active };
    assert_eq!(strip(Some(2)).substitute_for(7), Some(3));
    assert_eq!(strip(Some(0)).substitute_for(7), Some(5));
    assert_eq!(strip(None).substitute_for(5), Some(7));
    assert_eq!(strip(Some(9)).substitute_for(5), Some(7));
    let one = TabStrip { tabs: vec![7], last_active: Some(0) };
    assert_eq!(one.substitute_for(7), None);
    assert_eq!(strip(None).index_of(3), Some(2));
    assert_eq!(strip(None).index_of(4), None);
}

#[test]
fn a_tab_drag_starts_on_the_tab() {
    let mut w = window();
    w.ui_items = vec![item(tab(1))];
    let press = event(left(), 25, 7);
    let strip = TabStrip { tabs: vec![7, 5, 3], last_active: Some(2) };
    w.start_tab_drag(1, press, &vec![true], Some(strip));
    let drag = w.tab_drag.unwrap();
    assert_eq!(drag.tab_id, 5);
    assert_eq!(drag.grab_offset, Point { x: 15, y: 7 });
    assert_eq!(drag.dragged_size, Size { width: 60, height: 20 });
    assert_eq!(drag.same_window_target_tab_id, Some(3));
    assert!(!drag.started);
    let mut w = window();
    w.start_tab_drag(5, press, &vec![], Some(TabStrip { tabs: vec![7], last_active: None }));
    assert_eq!(w.tab_drag, None);
    w.start_tab_drag(0, press, &vec![], None);
    assert_eq!(w.tab_drag, None);
}

#[test]
fn a_pane_drag_starts_on_its_handle() {
    let mut w = window();
    let handle = item(UIItemType::PaneDragHandle(9));
    let press = event(left(), 25, 7);
    assert_eq!(
        w.mouse_event_pane_drag_handle(9, handle, press),
        vec![
            Command::SetCursor(MouseCursor::Hand),
            Command::StartPaneDrag { pane_id: 9, item: handle, event: press },
        ]
    );
    let panes = vec![TabPane { pane_id: 8, index: 0 }, TabPane { pane_id: 9, index: 1 }];
    let strip = || Some(TabStrip { tabs: vec![4, 6], last_active: None });
    let elsewhere = Some(PaneHome { window_id: 2, tab_id: 4 });
    assert!(w.start_pane_drag(9, handle, press, elsewhere, &panes, strip()).is_empty());
    assert!(w.start_pane_drag(9, handle, press, None, &panes, strip()).is_empty());
    assert_eq!(w.pane_drag, None);
    let here = Some(PaneHome { window_id: 1, tab_id: 4 });
    assert_eq!(
        w.start_pane_drag(9, handle, press, here, &panes, strip()),
        vec![Command::SetActivePaneOfTab { tab_id: 4, index: 1 }]
    );
    let drag = w.pane_drag.unwrap();
    assert_eq!((drag.pane_id, drag.source_tab_id), (9, 4));
    assert_eq!(drag.same_window_target_tab_id, Some(6));
}

#[test]
fn triggers_follow_the_last_click() {
    let position = ClickPosition { column: 0, row: 0, x_pixel_offset: 0, y_pixel_offset: 0 };
    let click = Some(LastMouseClick { button: MouseButton::Left, position, streak: 3 });
    assert_eq!(
        event_trigger(left(), click, &vec![]),
        Some(MouseEventTrigger::Down { streak: 3, button: MouseButton::Left })
    );
    assert_eq!(
        event_trigger(MouseEventKind::Release(MousePress::Left), click, &vec![]),
        Some(MouseEventTrigger::Up { streak: 3, button: MouseButton::Left })
    );
    assert_eq!(event_trigger(MouseEventKind::Release(MousePress::Right), click, &vec![]), None);
    assert_eq!(event_trigger(left(), None, &vec![]), None);
    assert_eq!(event_trigger(MouseEventKind::Move, click, &vec![]), None);
    assert_eq!(
        event_trigger(MouseEventKind::Move, click, &vec![MousePress::Right, MousePress::Left]),
        Some(MouseEventTrigger::Drag { streak: 3, button: MouseButton::Left })
    );
    assert_eq!(
        event_trigger(MouseEventKind::Move, click, &vec![MousePress::Left, MousePress::Right]),
        None
    );
    assert_eq!(event_trigger(MouseEventKind::VertWheel(0), click, &vec![]), None);
}

#[test]
fn wheels_are_bound_one_notch_at_a_time() {
    let bound = |kind| normalize_trigger(event_trigger(kind, None, &vec![]).unwrap());
    assert_eq!(
        event_trigger(MouseEventKind::VertWheel(-5), None, &vec![]),
        Some(MouseEventTrigger::Down { streak: 1, button: MouseButton::WheelDown(5) })
    );
    assert_eq!(
        bound(MouseEventKind::VertWheel(-5)),
        MouseEventTrigger::Down { streak: 1, button: MouseButton::WheelDown(1) }
    );
    assert_eq!(
        bound(MouseEventKind::HorzWheel(3)),
        MouseEventTrigger::Down { streak: 1, button: MouseButton::WheelLeft(1) }
    );
    assert_eq!(
        bound(MouseEventKind::HorzWheel(-3)),
        MouseEventTrigger::Down { streak: 1, button: MouseButton::WheelRight(1) }
    );
    let up = MouseEventTrigger::Up { streak: 4, button: MouseButton::WheelUp(9) };
    assert_eq!(
        normalize_trigger(up),
        MouseEventTrigger::Up { streak: 1, button: MouseButton::WheelUp(1) }
    );
    assert_eq!(normalize_trigger(normalize_trigger(up)), normalize_trigger(up));
    let plain = MouseEventTrigger::Drag { streak: 4, button: MouseButton::Left };
    assert_eq!(normalize_trigger(plain), plain);
}

#[test]
fn programs_are_told_what_happened() {
    let at = ClickPosition { column: 3, row: 4, x_pixel_offset: 5, y_pixel_offset: 6 };
    let mut e = event(MouseEventKind::Move, 0, 0);
    e.mouse_buttons = HeldButtons::RightOnly;
    e.modifiers = 5;
    let told = pane_mouse_event(e, at);
    assert_eq!(told.kind, PaneMouseKind::Move);
    assert_eq!(told.button, MouseButton::Right);
    assert_eq!((told.x, told.y, told.x_pixel_offset, told.y_pixel_offset), (3, 4, 5, 6));
    assert_eq!(told.modifiers, 5);
    e.mouse_buttons = HeldButtons::Other;
    assert_eq!(pane_mouse_event(e, at).button, MouseButton::NoButton);
    e.kind = MouseEventKind::VertWheel(-2);
    let told = pane_mouse_event(e, at);
    assert_eq!((told.kind, told.button), (PaneMouseKind::Press, MouseButton::WheelDown(2)));
    e.kind = MouseEventKind::Release(MousePress::Middle);
    let told = pane_mouse_event(e, at);
    assert_eq!((told.kind, told.button), (PaneMouseKind::Release, MouseButton::Middle));
}

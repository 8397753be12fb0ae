use wezterm_core::command::{Command, MouseCursor, PaneMouse};
use wezterm_core::geometry::{Point, ScreenPoint};
use wezterm_core::input::{
    ClickPosition, HeldButtons, LastMouseClick, MouseButton, MouseEvent, MouseEventKind,
    MouseEventTrigger, MouseEventTriggerMods, MousePress, PaneMouseEvent, PaneMouseKind,
};
use wezterm_core::pane_events::{find_current_link, PanePosition};
use wezterm_core::termwindow::{Settings, TermWindow};
use wezterm_core::ui::MouseCapture;

const SETTINGS: Settings = Settings {
    use_fancy_tab_bar: true,
    tab_bar_at_bottom: false,
    mouse_wheel_scrolls_tabs: true,
    pane_focus_follows_mouse: false,
    swallow_mouse_click_on_window_focus: false,
    swallow_mouse_click_on_pane_focus: false,
    bypass_mouse_reporting_modifiers: 2,
    integrated_buttons_and_resize: true,
};

const FOCUSED: Option<u128> = Some(1_000_000_000);

fn window() -> TermWindow {
    TermWindow::new(1, SETTINGS, 800, 600, 8, 16, 24)
}

fn event(kind: MouseEventKind) -> MouseEvent {
    MouseEvent {
        kind,
        coords: Point { x: 300, y: 300 },
        screen_coords: ScreenPoint { x: 400, y: 400 },
        mouse_buttons: HeldButtons::Other,
        modifiers: 0,
    }
}

fn left() -> MouseEventKind {
    MouseEventKind::Press(MousePress::Left)
}

fn at(column: usize, row: i64) -> ClickPosition {
    ClickPosition { column, row, x_pixel_offset: 3, y_pixel_offset: 5 }
}

/// Two panes side by side.
fn panes() -> Vec<PanePosition> {
    vec![
        PanePosition { index: 0, pane_id: 9, left: 0, top: 0, width: 39, height: 24 },
        PanePosition { index: 1, pane_id: 8, left: 40, top: 2, width: 40, height: 22 },
    ]
}

fn reach(w: &mut TermWindow, position: ClickPosition, kind: MouseEventKind) -> Vec<Command> {
    w.mouse_event_terminal(9, position, event(kind), false, &panes(), FOCUSED)
}

fn to(pane_id: usize, position: ClickPosition, kind: MouseEventKind, focuses: bool) -> Command {
    Command::LocateRow(PaneMouse {
        pane_id,
        position,
        event: event(kind),
        allow_action: true,
        is_click_to_focus_pane: focuses,
    })
}

fn mouse(kind: MouseEventKind) -> PaneMouse {
    PaneMouse {
        pane_id: 9,
        position: at(4, 5),
        event: event(kind),
        allow_action: true,
        is_click_to_focus_pane: false,
    }
}

fn clicked(w: &mut TermWindow) {
    w.last_mouse_click = Some(LastMouseClick {
        button: MouseButton::Left,
        position: at(4, 5),
        streak: 2,
    });
}

#[test]
fn events_reach_the_pane_under_the_mouse() {
    let mut w = window();
    assert_eq!(reach(&mut w, at(4, 5), left()), vec![to(9, at(4, 5), left(), false)]);
    assert_eq!(
        reach(&mut w, at(44, 5), left()),
        vec![Command::SetActivePane { index: 1 }, to(8, at(4, 3), left(), true)]
    );
    let wheel = MouseEventKind::VertWheel(1);
    assert_eq!(
        reach(&mut w, at(44, 5), wheel),
        vec![Command::Invalidate, to(8, at(4, 3), wheel, false)]
    );
    let across = MouseEventKind::HorzWheel(1);
    assert_eq!(reach(&mut w, at(44, 5), across), vec![to(9, at(4, 3), across, false)]);
    let up = MouseEventKind::Release(MousePress::Left);
    assert_eq!(reach(&mut w, at(44, 5), up), vec![to(9, at(4, 3), up, false)]);
}

#[test]
fn the_focus_follows_the_mouse_where_it_should() {
    let mut w = window();
    let moved = MouseEventKind::Move;
    assert_eq!(reach(&mut w, at(44, 5), moved), vec![to(9, at(4, 3), moved, false)]);
    w.config.pane_focus_follows_mouse = true;
    assert_eq!(
        reach(&mut w, at(44, 5), moved),
        vec![
            Command::SetActivePane { index: 1 },
            Command::Invalidate,
            to(8, at(4, 3), moved, false),
        ]
    );
}

#[test]
fn between_the_panes_nothing_changes() {
    let mut w = window();
    assert_eq!(reach(&mut w, at(90, 5), left()), vec![to(9, at(90, 5), left(), false)]);
    // The first pane that holds the position gets it.
    assert_eq!(reach(&mut w, at(39, 5), left()), vec![to(9, at(39, 5), left(), false)]);
}

#[test]
fn a_capture_follows_the_mouse_beyond_the_pane() {
    let mut w = window();
    w.current_mouse_capture = Some(MouseCapture::TerminalPane(8));
    let moved = MouseEventKind::Move;
    let commands = w.mouse_event_terminal(8, at(37, 0), event(moved), false, &panes(), FOCUSED);
    let position = ClickPosition {
        column: 0,
        row: 0,
        x_pixel_offset: 3 - 8 * 3,
        y_pixel_offset: 5 - 16 * 2,
    };
    assert_eq!(commands, vec![to(8, position, moved, false)]);
    let commands = w.mouse_event_terminal(8, at(50, 9), event(moved), false, &panes(), FOCUSED);
    assert_eq!(commands, vec![to(8, at(10, 7), moved, false)]);
}

#[test]
fn a_press_captures_the_mouse_for_the_pane() {
    let mut w = window();
    w.mouse_event_terminal(9, at(44, 5), event(left()), true, &panes(), FOCUSED);
    assert_eq!(w.current_mouse_capture, Some(MouseCapture::TerminalPane(8)));
}

#[test]
fn the_click_that_focuses_the_window_is_swallowed() {
    let mut w = window();
    w.config.swallow_mouse_click_on_window_focus = true;
    let soon = Some(200_000_000);
    let press = |w: &mut TermWindow, kind, focused| {
        w.mouse_event_terminal(9, at(4, 5), event(kind), false, &panes(), focused)
    };
    assert_eq!(press(&mut w, left(), soon), vec![Command::Invalidate]);
    assert!(w.is_click_to_focus_window);
    let up = MouseEventKind::Release(MousePress::Left);
    assert_eq!(press(&mut w, up, soon), vec![Command::Invalidate]);
    assert!(!w.is_click_to_focus_window);
    let allowed = |commands: Vec<Command>| match commands[..] {
        [Command::LocateRow(mouse)] => mouse.allow_action,
        _ => panic!("the event goes to the pane"),
    };
    assert!(allowed(press(&mut w, left(), Some(200_000_001))));
    assert!(!allowed(press(&mut w, MouseEventKind::Move, soon)));
    assert!(allowed(press(&mut w, MouseEventKind::VertWheel(1), soon)));
    assert!(allowed(press(&mut w, MouseEventKind::HorzWheel(1), None)));
    assert!(!allowed(press(&mut w, left(), None)));
    w.config.swallow_mouse_click_on_window_focus = false;
    assert!(allowed(press(&mut w, left(), soon)));
}

#[test]
fn rows_are_found_in_the_scrollback() {
    let w = window();
    let m = mouse(left());
    assert_eq!(
        w.locate_row(m, None, 100),
        vec![
            Command::SetMouseCoords { pane_id: 9, position: at(4, 5), stable_row: 105 },
            Command::ApplyHyperlinks { pane_id: 9, stable_row: 105 },
            Command::PaneEvent { mouse: m, stable_row: 105 },
        ]
    );
    assert_eq!(
        w.locate_row(m, Some(-3), 100)[1],
        Command::ApplyHyperlinks { pane_id: 9, stable_row: 2 }
    );
}

#[test]
fn links_are_found_in_their_line() {
    let line = vec![None, Some(7)];
    assert_eq!(find_current_link(None, 5, 1, 5, Some(&line)), Some(7));
    assert_eq!(find_current_link(Some(3), 5, 0, 5, Some(&line)), None);
    assert_eq!(find_current_link(Some(3), 5, 2, 5, Some(&line)), Some(3));
    assert_eq!(find_current_link(Some(3), 5, 1, 4, Some(&line)), Some(3));
    assert_eq!(find_current_link(Some(3), 5, 1, 5, None), Some(3));
}

#[test]
fn the_cursor_shows_what_is_under_the_mouse() {
    let mut w = window();
    let moved = mouse(MouseEventKind::Move);
    let text = Command::SetCursor(MouseCursor::Text);
    let sent = Command::SendMouse {
        pane_id: 9,
        event: PaneMouseEvent {
            kind: PaneMouseKind::Move,
            button: MouseButton::NoButton,
            x: 4,
            y: 5,
            x_pixel_offset: 3,
            y_pixel_offset: 5,
            modifiers: 0,
        },
    };
    assert_eq!(w.mouse_event_on_pane(moved, None, false, false), vec![text, sent]);
    assert_eq!(
        w.mouse_event_on_pane(moved, Some(7), false, false),
        vec![Command::Invalidate, Command::SetCursor(MouseCursor::Hand), sent]
    );
    assert_eq!(w.current_highlight, Some(7));
    assert_eq!(
        w.mouse_event_on_pane(moved, Some(7), false, false),
        vec![Command::SetCursor(MouseCursor::Hand), sent]
    );
    assert_eq!(
        w.mouse_event_on_pane(moved, None, true, false),
        vec![Command::Invalidate, Command::SetCursor(MouseCursor::Arrow), sent]
    );
    let mut outside = moved;
    outside.event.coords = Point { x: 801, y: 0 };
    assert_eq!(
        w.mouse_event_on_pane(outside, None, false, false)[0],
        Command::SetCursor(MouseCursor::Arrow)
    );
    outside.event.coords = Point { x: 800, y: 600 };
    assert_eq!(w.mouse_event_on_pane(outside, None, false, false)[0], text);
}

#[test]
fn a_wheel_that_did_not_turn_does_nothing() {
    let mut w = window();
    for kind in [MouseEventKind::VertWheel(0), MouseEventKind::HorzWheel(0)] {
        assert_eq!(
            w.mouse_event_on_pane(mouse(kind), None, false, false),
            vec![Command::SetCursor(MouseCursor::Text)]
        );
    }
    assert_eq!(w.current_event, None);
}

#[test]
fn bindings_are_looked_up_first() {
    let mut w = window();
    clicked(&mut w);
    let m = mouse(left());
    let trigger = MouseEventTrigger::Down { streak: 2, button: MouseButton::Left };
    let plain = MouseEventTriggerMods { mods: 0, mouse_reporting: false, alt_screen: false };
    assert_eq!(
        w.mouse_event_on_pane(m, None, false, false),
        vec![
            Command::SetCursor(MouseCursor::Text),
            Command::LookupMouse { mouse: m, trigger, mods: plain },
        ]
    );
    assert_eq!(w.current_event, Some(trigger));
    assert_eq!(w.binding_looked_up(m, true), vec![Command::PerformBinding { pane_id: 9 }]);
    let passed = w.binding_looked_up(m, false);
    assert_eq!(passed.len(), 2);
    assert!(matches!(passed[0], Command::SendMouse { pane_id: 9, .. }));
    assert_eq!(passed[1], Command::Invalidate);
}

#[test]
fn a_wheel_is_looked_up_by_one_notch() {
    let mut w = window();
    let m = mouse(MouseEventKind::VertWheel(-7));
    let commands = w.mouse_event_on_pane(m, None, false, true);
    assert_eq!(
        commands[1],
        Command::LookupMouse {
            mouse: m,
            trigger: MouseEventTrigger::Down { streak: 1, button: MouseButton::WheelDown(1) },
            mods: MouseEventTriggerMods { mods: 0, mouse_reporting: false, alt_screen: true },
        }
    );
    assert_eq!(
        w.current_event,
        Some(MouseEventTrigger::Down { streak: 1, button: MouseButton::WheelDown(7) })
    );
}

#[test]
fn modifiers_keep_the_mouse_from_the_program() {
    let mut w = window();
    clicked(&mut w);
    let mut m = mouse(left());
    let lookup = |commands: Vec<Command>| match commands[commands.len() - 1] {
        Command::LookupMouse { mods, .. } => (mods.mods, mods.mouse_reporting, commands.len()),
        _ => panic!("a binding is looked up"),
    };
    // The program wants the mouse: show what it draws.
    assert_eq!(lookup(w.mouse_event_on_pane(m, None, true, false)), (0, true, 3));
    m.event.modifiers = 6;
    assert_eq!(lookup(w.mouse_event_on_pane(m, None, true, false)), (4, false, 2));
    assert_eq!(lookup(w.mouse_event_on_pane(m, None, false, false)), (6, false, 2));
    m.event.modifiers = 4;
    assert_eq!(lookup(w.mouse_event_on_pane(m, None, true, false)), (4, true, 3));
}

#[test]
fn swallowed_events_are_only_painted() {
    let mut w = window();
    clicked(&mut w);
    let mut m = mouse(left());
    m.allow_action = false;
    assert_eq!(
        w.mouse_event_on_pane(m, None, false, false),
        vec![Command::SetCursor(MouseCursor::Text), Command::Invalidate]
    );
    assert_eq!(w.current_event, None);
    let mut m = mouse(left());
    m.is_click_to_focus_pane = true;
    assert_eq!(w.binding_looked_up(m, false).len(), 2);
    w.config.swallow_mouse_click_on_pane_focus = true;
    assert_eq!(w.binding_looked_up(m, false), vec![Command::Invalidate]);
}

use wezterm_core::cursor::{CursorShape, DeadKey, StableCursorPosition};
use wezterm_core::dropping::Edge;
use wezterm_core::geometry::{Coord, Point, RectF, ScreenPoint, Size};
use wezterm_core::input::{HeldButtons, MouseEvent, MouseEventKind};
use wezterm_core::paint::{
    cached_line_is_valid, pane_drag_handle, BellBlend, DragStep, Handle, HandleLook, HandlePane,
    HandleStep, LineScene, NoTitleFont, Offset, PaintSettings, PaintedPane, PaneArea, PaneStep,
    TabBarStep, Thumb,
};
use wezterm_core::termwindow::{Settings, TermWindow, WindowFrame};
use wezterm_core::ui::{
    DragDropAction, DragDropPreview, PaneDragState, TabDragState, UIItem, UIItemType,
};

const SETTINGS: Settings = Settings {
    use_fancy_tab_bar: false,
    tab_bar_at_bottom: false,
    mouse_wheel_scrolls_tabs: true,
    pane_focus_follows_mouse: false,
    swallow_mouse_click_on_window_focus: false,
    swallow_mouse_click_on_pane_focus: false,
    bypass_mouse_reporting_modifiers: 2,
    integrated_buttons_and_resize: true,
};

const PAINT: PaintSettings = PaintSettings {
    use_box_model_render: false,
    show_scroll_bar: true,
    window_background_is_empty: true,
    window_background_is_opaque: true,
    cursor_smear_duration_ms: 100,
    detect_password_input: true,
};

const FRAME: WindowFrame = WindowFrame {
    tab_bar_height: 16,
    border_left: 1,
    border_top: 2,
    border_right: 2,
    border_bottom: 3,
};

fn window() -> TermWindow {
    TermWindow::new(1, SETTINGS, 800, 600, 8, 16, 24)
}

fn pane(is_active: bool) -> PaintedPane {
    PaintedPane {
        is_active,
        left: 0,
        top: 0,
        width: 80,
        height: 24,
        physical_top: 100,
        viewport: None,
        viewport_rows: 24,
        bell_is_ringing: false,
    }
}

const fn edge(half_pixels: isize) -> Offset {
    Offset { padded: false, half_pixels }
}

const fn padded(half_pixels: isize) -> Offset {
    Offset { padded: true, half_pixels }
}

/// A pane that fills the window.
const WHOLE: PaneArea = PaneArea {
    left: edge(0),
    top: edge(36),
    right: edge(1600),
    bottom: edge(1200),
};

fn event() -> MouseEvent {
    MouseEvent {
        kind: MouseEventKind::Move,
        coords: Point { x: 0, y: 0 },
        screen_coords: ScreenPoint { x: 0, y: 0 },
        mouse_buttons: HeldButtons::Other,
        modifiers: 0,
    }
}

fn pane_drag(started: bool) -> PaneDragState {
    PaneDragState {
        pane_id: 9,
        source_tab_id: 4,
        start_event: event(),
        grab_offset: Point { x: 3, y: 4 },
        dragged_size: Size { width: 24, height: 18 },
        current_coords: Point { x: 50, y: 60 },
        preview_window: None,
        same_window_target_tab_id: None,
        started,
    }
}

#[test]
fn the_active_pane_is_painted_in_order() {
    assert_eq!(
        window().paint_pane(&pane(true), 80, &PAINT, Some(16), &FRAME),
        vec![
            PaneStep::CheckDirtyLines,
            PaneStep::UpdatePrevCursor,
            PaneStep::FillBackground { area: WHOLE, dimmed: false },
            PaneStep::ScrollBar { thumb_y_offset: 18, track_height: 579 },
            PaneStep::ApplyHyperlinks { first: 100, end: 124 },
            PaneStep::RenderLines { first: 100, end: 124 },
            PaneStep::CursorSmear { viewport_top: 100 },
        ]
    );
}

#[test]
fn other_panes_are_dimmed_and_have_no_cursor() {
    let mut p = pane(false);
    p.viewport = Some(40);
    p.bell_is_ringing = true;
    p.left = 40;
    p.width = 20;
    // From the middle of the split at its left to that of the one at its right.
    let area = PaneArea { left: padded(634), right: padded(970), ..WHOLE };
    assert_eq!(
        window().paint_pane(&p, 80, &PAINT, Some(16), &FRAME),
        vec![
            PaneStep::CheckDirtyLines,
            PaneStep::FillBackground { area, dimmed: true },
            PaneStep::FillBell { area, blend: BellBlend::Mix, dimmed: true },
            PaneStep::ApplyHyperlinks { first: 40, end: 64 },
            PaneStep::RenderLines { first: 40, end: 64 },
        ]
    );
}

#[test]
fn transparent_windows_fade_the_bell() {
    let mut p = pane(false);
    p.bell_is_ringing = true;
    let mut see_through = PAINT;
    see_through.window_background_is_opaque = false;
    assert!(see_through.window_is_transparent());
    assert_eq!(
        window().paint_pane(&p, 80, &see_through, Some(16), &FRAME)[2],
        PaneStep::FillBell { area: WHOLE, blend: BellBlend::Fade, dimmed: true }
    );
    let mut pictured = PAINT;
    pictured.window_background_is_empty = false;
    assert!(pictured.window_is_transparent());
    assert_eq!(
        window().paint_pane(&p, 80, &pictured, Some(16), &FRAME)[1],
        PaneStep::FillBell { area: WHOLE, blend: BellBlend::Fade, dimmed: true }
    );
    assert!(!PAINT.window_is_transparent());
}

#[test]
fn painting_can_be_a_box_or_fail() {
    let mut boxed = PAINT;
    boxed.use_box_model_render = true;
    assert_eq!(
        window().paint_pane(&pane(true), 80, &boxed, None, &FRAME),
        vec![PaneStep::BoxModel]
    );
    assert_eq!(
        window().paint_pane(&pane(true), 80, &PAINT, None, &FRAME),
        vec![PaneStep::CheckDirtyLines, PaneStep::Fail]
    );
    let mut bare = window();
    bare.show_tab_bar = false;
    assert_eq!(bare.paint_pane(&pane(true), 80, &PAINT, None, &FRAME).len(), 7);
    let mut still = PAINT;
    still.cursor_smear_duration_ms = 0;
    still.show_scroll_bar = false;
    assert_eq!(window().paint_pane(&pane(true), 80, &still, Some(16), &FRAME).len(), 5);
}

#[test]
fn panes_reach_the_edges_they_lie_at() {
    let w = window();
    let mut p = pane(true);
    p.top = 12;
    p.height = 11;
    let layout = w.build_pane(&p, 81, &PAINT, Some(16), &FRAME).unwrap();
    assert!(layout.own_background);
    assert_eq!(
        layout.background,
        PaneArea { left: edge(0), top: padded(404), right: padded(1290), bottom: padded(788) }
    );
    assert_eq!(
        layout.content,
        PaneArea { left: padded(-6), top: padded(404), right: padded(1274), bottom: padded(756) }
    );
    assert_eq!(w.pane_drag_bounds(&p, &FRAME), layout.content);
    p.height = 12;
    let layout = w.build_pane(&p, 80, &PAINT, Some(16), &FRAME).unwrap();
    assert_eq!(layout.background.right, edge(1600));
    assert_eq!(layout.background.bottom, edge(1200));
}

#[test]
fn a_pane_below_a_tab_bar_of_unknown_height_has_no_layout() {
    let mut w = window();
    let p = pane(true);
    assert_eq!(w.build_pane(&p, 80, &PAINT, None, &FRAME), Err(NoTitleFont));
    w.show_tab_bar = false;
    assert!(w.build_pane(&p, 80, &PAINT, None, &FRAME).is_ok());
}

#[test]
fn neighbouring_backgrounds_meet() {
    let w = window();
    let mut a = pane(true);
    a.width = 30;
    let mut b = pane(false);
    b.left = 31;
    b.width = 49;
    assert_eq!(
        w.build_pane(&a, 80, &PAINT, Some(16), &FRAME).unwrap().background.right,
        w.build_pane(&b, 80, &PAINT, Some(16), &FRAME).unwrap().background.left
    );
    a.height = 10;
    let mut c = a;
    c.top = 11;
    c.height = 13;
    assert_eq!(
        w.build_pane(&a, 80, &PAINT, Some(16), &FRAME).unwrap().background.bottom,
        w.build_pane(&c, 80, &PAINT, Some(16), &FRAME).unwrap().background.top
    );
}

#[test]
fn the_scroll_bar_has_three_parts() {
    let mut w = window();
    let thumb = w.paint_scroll_bar(18, Thumb { top: 100, height: 50 }, 10, 2);
    let part = |y, height, item_type| UIItem { x: 788, y, width: 10, height, item_type };
    assert_eq!(
        w.ui_items,
        vec![
            part(18, 100, UIItemType::AboveScrollThumb),
            part(118, 50, UIItemType::ScrollThumb),
            part(168, 432, UIItemType::BelowScrollThumb),
        ]
    );
    assert_eq!(thumb, w.ui_items[1]);
    // A thumb that reaches beyond the window leaves nothing below.
    w.paint_scroll_bar(18, Thumb { top: 600, height: 50 }, 10, 2);
    assert_eq!(w.ui_items[5].height, 0);
}

#[test]
fn the_tab_bar_is_as_high_as_its_text() {
    assert_eq!(TermWindow::tab_bar_pixel_height_impl(false, None, 16), Ok(16));
    assert_eq!(TermWindow::tab_bar_pixel_height_impl(true, Some(28), 16), Ok(28));
    assert_eq!(TermWindow::tab_bar_pixel_height_impl(true, None, 16), Err(NoTitleFont));
    assert_eq!(window().tab_bar_pixel_height(None), Ok(16));
    let mut fancy = window();
    fancy.config.use_fancy_tab_bar = true;
    assert_eq!(fancy.tab_bar_pixel_height(Some(28)), Ok(28));
    assert_eq!(fancy.tab_bar_pixel_height(None), Err(NoTitleFont));
}

#[test]
fn the_tab_bar_is_painted_where_it_belongs() {
    let mut w = window();
    assert_eq!(
        w.paint_tab_bar(false, &PAINT, Some(16), 2, 3),
        vec![
            TabBarStep::RegisterItems { y: 2, cell_height: 16, cell_width: 8 },
            TabBarStep::RenderLine { y: 2, cols: 100, transparent: false },
        ]
    );
    w.config.tab_bar_at_bottom = true;
    assert_eq!(w.tab_bar_y(16, 2, 3), 581);
    assert_eq!(w.tab_bar_y(16, 2, 590), 0);
    assert_eq!(w.tab_bar_drop_bounds(Some(16), 2, 3), Some((581, 800, 16)));
    assert_eq!(w.tab_bar_drop_bounds(None, 2, 3), None);
    assert_eq!(w.paint_tab_bar(false, &PAINT, None, 2, 3), vec![TabBarStep::Fail]);
    w.show_tab_bar = false;
    assert_eq!(w.tab_bar_drop_bounds(Some(16), 2, 3), None);
    w.config.use_fancy_tab_bar = true;
    assert_eq!(
        w.paint_tab_bar(false, &PAINT, None, 2, 3),
        vec![TabBarStep::BuildFancy, TabBarStep::PaintFancy]
    );
    assert_eq!(w.paint_tab_bar(true, &PAINT, None, 2, 3), vec![TabBarStep::PaintFancy]);
}

#[test]
fn parts_are_registered_above_the_others() {
    let mut w = window();
    let part = |x| UIItem { x, y: 0, width: 8, height: 16, item_type: UIItemType::ScrollThumb };
    w.register_ui_items(vec![part(0)]);
    w.register_ui_items(vec![part(8), part(16)]);
    assert_eq!(w.ui_items, vec![part(0), part(8), part(16)]);
}

#[test]
fn drags_are_shown() {
    let mut w = window();
    assert!(w.paint_drag_effects().is_empty());
    let coord = |rank| Coord { rank };
    let rect = RectF { x: coord(1), y: coord(2), width: coord(3), height: coord(4) };
    w.drag_drop_preview = Some(DragDropPreview {
        action: DragDropAction::Merge { destination_index: 0 },
        rect,
    });
    w.pane_drag = Some(pane_drag(true));
    assert_eq!(
        w.paint_drag_effects(),
        vec![
            DragStep::FillPreview(rect),
            DragStep::FillBorder { rect, edge: Edge::Top },
            DragStep::FillBorder { rect, edge: Edge::Bottom },
            DragStep::FillBorder { rect, edge: Edge::Left },
            DragStep::FillBorder { rect, edge: Edge::Right },
            DragStep::FillGhost {
                at: Point { x: 47, y: 56 },
                size: Size { width: 24, height: 18 },
            },
        ]
    );
    w.drag_drop_preview = None;
    w.pane_drag = Some(pane_drag(false));
    assert!(w.paint_drag_effects().is_empty());
}

#[test]
fn a_dragged_tab_is_shown_before_a_pane() {
    let mut w = window();
    w.pane_drag = Some(pane_drag(true));
    let tab = |started, width| {
        Some(TabDragState {
            tab_id: 4,
            start_event: event(),
            grab_offset: Point { x: 0, y: 0 },
            dragged_size: Size { width, height: 20 },
            current_coords: Point { x: 1, y: 2 },
            preview_window: None,
            same_window_target_tab_id: None,
            started,
        })
    };
    w.tab_drag = tab(true, 100);
    assert_eq!(
        w.paint_drag_effects(),
        vec![DragStep::FillGhost {
            at: Point { x: 1, y: 2 },
            size: Size { width: 100, height: 20 },
        }]
    );
    w.tab_drag = tab(true, 0);
    assert!(w.paint_drag_effects().is_empty());
    w.tab_drag = tab(false, 100);
    assert_eq!(w.paint_drag_effects().len(), 1);
}

#[test]
fn handles_fit_their_panes() {
    assert_eq!(
        pane_drag_handle(640, 384),
        Some(Handle { x: 610, y: 6, width: 24, height: 18 })
    );
    assert_eq!(pane_drag_handle(28, 20), Some(Handle { x: 0, y: 2, width: 24, height: 18 }));
    assert_eq!(pane_drag_handle(8, 16), Some(Handle { x: 0, y: 0, width: 8, height: 16 }));
    assert_eq!(pane_drag_handle(0, 16), None);
    assert_eq!(pane_drag_handle(8, 0), None);
}

#[test]
fn handles_are_painted_when_they_matter() {
    let handle = Handle { x: 296, y: 6, width: 24, height: 18 };
    let pane = |pane_id, is_active| HandlePane {
        pane_id,
        is_active,
        pane_width: 326,
        pane_height: 384,
        handle_x: 300,
        handle_y: 28,
    };
    let part = |pane_id| UIItem {
        x: 300,
        y: 28,
        width: 24,
        height: 18,
        item_type: UIItemType::PaneDragHandle(pane_id),
    };
    let mut flat = pane(7, true);
    flat.pane_height = 0;
    let panes = || Some(vec![pane(9, false), flat, pane(8, true), pane(6, false)]);
    let mut w = window();
    assert_eq!(
        w.paint_pane_drag_handles(panes()),
        vec![HandleStep { pane: 2, handle, look: HandleLook::Idle }]
    );
    assert_eq!(w.ui_items, vec![part(9), part(8), part(6)]);
    w.last_ui_item = Some(part(8));
    w.pane_drag = Some(pane_drag(false));
    assert_eq!(
        w.paint_pane_drag_handles(panes()),
        vec![
            HandleStep { pane: 0, handle, look: HandleLook::Highlighted },
            HandleStep { pane: 2, handle, look: HandleLook::Highlighted },
        ]
    );
    w.ui_items.clear();
    assert!(w.paint_pane_drag_handles(None).is_empty());
    w.tab_drag = Some(TabDragState {
        tab_id: 4,
        start_event: event(),
        grab_offset: Point { x: 0, y: 0 },
        dragged_size: Size { width: 1, height: 1 },
        current_coords: Point { x: 0, y: 0 },
        preview_window: None,
        same_window_target_tab_id: None,
        started: false,
    });
    assert!(w.paint_pane_drag_handles(panes()).is_empty());
    assert!(w.ui_items.is_empty());
}

fn scene(dead_key: DeadKey) -> LineScene {
    LineScene {
        is_active: true,
        cols: 80,
        cursor: StableCursorPosition {
            x: 4,
            y: 103,
            shape: CursorShape::SteadyBar,
            visible: true,
        },
        dead_key,
        composition: "ni".to_string(),
        leader_is_active: false,
        detect_password_input: true,
        password_input: Some(true),
    }
}

#[test]
fn the_line_of_the_cursor_is_special() {
    let plan = scene(DeadKey::Composing).render_line(100, 3, Some((10, 200)));
    assert_eq!(plan.stable_row, 103);
    assert_eq!(plan.selection, (10, 80));
    assert_eq!(plan.cursor.unwrap().y, 0);
    assert_eq!(plan.cursor.unwrap().x, 4);
    assert!(plan.dead_key_or_leader && plan.password_input);
    assert_eq!(plan.composing, Some("ni".to_string()));
    let plan = scene(DeadKey::Composing).render_line(100, 4, Some((10, 20)));
    assert_eq!(plan.selection, (10, 20));
    assert!(plan.cursor.is_none() && plan.composing.is_none());
    assert!(!plan.dead_key_or_leader && !plan.password_input);
    let plan = scene(DeadKey::Holding).render_line(103, 0, None);
    assert_eq!(plan.selection, (0, 0));
    assert!(plan.dead_key_or_leader && plan.composing.is_none());
    let mut inactive = scene(DeadKey::Composing);
    inactive.is_active = false;
    inactive.password_input = None;
    let plan = inactive.render_line(103, 0, None);
    assert!(plan.composing.is_none() && plan.dead_key_or_leader && !plan.password_input);
    let mut leader = scene(DeadKey::Idle);
    leader.detect_password_input = false;
    assert!(!leader.render_line(103, 0, None).dead_key_or_leader);
    leader.leader_is_active = true;
    let plan = leader.render_line(103, 0, None);
    assert!(plan.dead_key_or_leader && !plan.password_input);
}

#[test]
fn cached_lines_expire() {
    assert!(cached_line_is_valid(None, 50, false, false));
    assert!(cached_line_is_valid(Some(51), 50, false, false));
    assert!(!cached_line_is_valid(Some(50), 50, false, false));
    assert!(!cached_line_is_valid(None, 50, true, false));
    assert!(cached_line_is_valid(None, 50, true, true));
}

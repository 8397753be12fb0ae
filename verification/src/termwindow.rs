//! The window: its state, and how mouse events reach the parts of it.

use vstd::prelude::*;
use crate::command::{Command, MouseCursor};
use crate::geometry::{ScreenPoint, ScreenRect};
use crate::input;
use crate::input::{
    mouse_press_to_tmb, take_out, ClickPosition, LastMouseClick, MouseEvent, MouseEventKind,
    MouseEventTrigger, MousePress,
};
use crate::ui::{
    DragDropPreview, IntegratedTitleButton, MouseCapture, PaneDragState, TabBarItem, TabDragState,
    UIItem, UIItemType,
};

verus! {

/// The settings that the window acts by.
#[derive(Clone, Copy, Debug, PartialEq, Eq, Structural)]
pub struct Settings {
    pub use_fancy_tab_bar: bool,
    pub tab_bar_at_bottom: bool,
    pub mouse_wheel_scrolls_tabs: bool,
    pub pane_focus_follows_mouse: bool,
    pub swallow_mouse_click_on_window_focus: bool,
    pub swallow_mouse_click_on_pane_focus: bool,
    /// The modifier keys that keep the mouse from the program in the pane.
    pub bypass_mouse_reporting_modifiers: u16,
    /// Whether the window has the resizable frame with buttons in the tab bar.
    pub integrated_buttons_and_resize: bool,
}

/// The window.
pub struct TermWindow {
    pub mux_window_id: usize,
    pub config: Settings,
    /// Whether the window exists on the screen yet.
    pub has_window: bool,
    pub show_tab_bar: bool,
    /// Whether the window is maximized or fills the screen.
    pub maximized: bool,
    pub pixel_width: usize,
    pub pixel_height: usize,
    pub cell_width: isize,
    pub cell_height: isize,
    /// The number of rows of the terminal.
    pub rows: usize,
    /// The parts that react to the mouse, later ones above earlier ones.
    pub ui_items: Vec<UIItem>,
    pub last_ui_item: Option<UIItem>,
    pub current_mouse_event: Option<MouseEvent>,
    pub last_mouse_coords: (usize, i64),
    pub current_mouse_capture: Option<MouseCapture>,
    pub current_mouse_buttons: Vec<MousePress>,
    pub last_mouse_click: Option<LastMouseClick>,
    pub pane_drag: Option<PaneDragState>,
    pub tab_drag: Option<TabDragState>,
    /// The event that a drag of the window itself started with.
    pub window_drag_position: Option<MouseEvent>,
    /// The split or thumb that is being dragged, and the event it started with.
    pub dragging: Option<(UIItem, MouseEvent)>,
    pub drag_drop_preview: Option<DragDropPreview>,
    /// The link under the mouse, known by a number.
    pub current_highlight: Option<u64>,
    pub is_click_to_focus_window: bool,
    pub current_event: Option<MouseEventTrigger>,
}

/// What is known of the active pane when an event comes in.
#[derive(Clone, Copy, Debug, PartialEq, Eq, Structural)]
pub struct ActivePane {
    pub pane_id: usize,
    /// Whether the program in it wants the mouse.
    pub mouse_grabbed: bool,
    /// The row at its top while it is not scrolled back.
    pub physical_top: isize,
    /// The row at its top while it is.
    pub viewport: Option<isize>,
}

/// What surrounds the panes and the scroll bar, in whole pixels.
#[derive(Clone, Copy, Debug, PartialEq, Eq, Structural)]
pub struct WindowFrame {
    pub tab_bar_height: usize,
    pub border_left: usize,
    pub border_top: usize,
    pub border_right: usize,
    pub border_bottom: usize,
}

/// Where the cells of the window lie when an event comes in, in whole pixels.
#[derive(Clone, Copy, Debug, PartialEq, Eq, Structural)]
pub struct MouseFrame {
    pub tab_bar_height: isize,
    pub border_top: isize,
    pub padding_top: isize,
    /// The left padding and the left border together.
    pub left: isize,
    /// The column whose left edge is nearest to the mouse.
    pub nearest_column: usize,
    /// The column that holds the mouse.
    pub containing_column: usize,
}

/// The topmost part that is hit, `hits` saying of each whether it is.
pub open spec fn topmost(items: Seq<UIItem>, hits: Seq<bool>) -> Option<UIItem>
    decreases items.len(),
{
    if items.len() == 0 {
        None
    } else if hits[items.len() - 1] {
        Some(items.last())
    } else {
        topmost(items.drop_last(), hits)
    }
}

/// The part that is found is hit, and none above it is.
pub proof fn topmost_is_hit(items: Seq<UIItem>, hits: Seq<bool>)
    requires
        items.len() <= hits.len(),
    ensures
        match topmost(items, hits) {
            Some(item) => exists|k: int|
                0 <= k < items.len() && #[trigger] items[k] == item && hits[k] && forall|j: int|
                    k < j < items.len() ==> !hits[j],
            None => forall|j: int| 0 <= j < items.len() ==> !hits[j],
        },
    decreases items.len(),
{
    if items.len() > 0 {
        if hits[items.len() - 1] {
            assert(items[items.len() - 1] == items.last());
        } else {
            let front = items.drop_last();
            topmost_is_hit(front, hits);
            match topmost(front, hits) {
                Some(item) => {
                    let k = choose|k: int|
                        0 <= k < front.len() && #[trigger] front[k] == item && hits[k] && forall|
                            j: int,
                        |
                            k < j < front.len() ==> !hits[j];
                    assert(items[k] == item);
                },
                None => {},
            }
        }
    }
}

/// What leaving a part of the window asks for.
pub open spec fn leave_commands(item: UIItem) -> Seq<Command> {
    if item.item_type is TabBar {
        seq![Command::UpdateTitlePostStatus]
    } else {
        seq![]
    }
}

/// What it asks for that the mouse goes from one part of the window, or none, to
/// another, or none. The plain tab bar is painted anew on every movement.
pub open spec fn hover_commands(
    prior: Option<UIItem>,
    item: Option<UIItem>,
    fancy: bool,
) -> Seq<Command> {
    if prior is None && item is None {
        seq![]
    } else if prior is None {
        seq![Command::Invalidate]
    } else if item is Some && prior == item && fancy {
        seq![]
    } else {
        leave_commands(prior->0).push(Command::Invalidate)
    }
}

/// Where the window goes when it is dragged: the top left corner moves as the
/// mouse did.
pub open spec fn dragged_to(start: MouseEvent, event: MouseEvent) -> ScreenPoint {
    ScreenPoint {
        x: (event.screen_coords.x - start.coords.x) as isize,
        y: (event.screen_coords.y - start.coords.y) as isize,
    }
}

/// Pixel positions can hold every step of the way there.
pub open spec fn drag_fits(start: MouseEvent, event: MouseEvent) -> bool {
    &&& isize::MIN <= start.screen_coords.x - event.screen_coords.x <= isize::MAX
    &&& isize::MIN <= start.screen_coords.y - event.screen_coords.y <= isize::MAX
    &&& isize::MIN <= start.screen_coords.x - start.coords.x <= isize::MAX
    &&& isize::MIN <= start.screen_coords.y - start.coords.y <= isize::MAX
    &&& isize::MIN <= event.screen_coords.x - start.coords.x <= isize::MAX
    &&& isize::MIN <= event.screen_coords.y - start.coords.y <= isize::MAX
}

/// Where on the screen a part of the window lies, told by an event in it.
pub open spec fn on_screen(item: UIItem, event: MouseEvent) -> ScreenRect {
    ScreenRect {
        x: (item.x - (event.coords.x - event.screen_coords.x)) as isize,
        y: (item.y - (event.coords.y - event.screen_coords.y)) as isize,
        width: item.width as isize,
        height: item.height as isize,
    }
}

/// Pixel positions can hold where the part lies on the screen.
pub open spec fn on_screen_fits(item: UIItem, event: MouseEvent) -> bool {
    &&& isize::MIN <= event.coords.x - event.screen_coords.x <= isize::MAX
    &&& isize::MIN <= event.coords.y - event.screen_coords.y <= isize::MAX
    &&& isize::MIN <= item.x - (event.coords.x - event.screen_coords.x) <= isize::MAX
    &&& isize::MIN <= item.y - (event.coords.y - event.screen_coords.y) <= isize::MAX
}

/// Whether the event tells where the maximize button is.
pub open spec fn over_maximize(item: TabBarItem, event: MouseEvent) -> bool {
    item == TabBarItem::WindowButton(IntegratedTitleButton::Maximize) && event.kind is Move
}

/// Whether a left button goes down.
pub open spec fn left_press(event: MouseEvent) -> bool {
    event.kind == MouseEventKind::Press(MousePress::Left)
}

impl TermWindow {
    /// Cells have an area, numbers fit where they are used, every part of the
    /// window lies where it can be reached, and no button is held twice.
    pub open spec fn well_formed(self) -> bool {
        &&& self.cell_width > 0
        &&& self.cell_height > 0
        &&& self.rows <= isize::MAX
        &&& self.pixel_width <= isize::MAX
        &&& self.pixel_height <= isize::MAX
        &&& forall|i: int|
            0 <= i < self.ui_items@.len() ==> (#[trigger] self.ui_items@[i]).well_formed()
        &&& self.last_ui_item is Some ==> self.last_ui_item->0.well_formed()
        &&& self.dragging is Some ==> (self.dragging->0).0.well_formed()
        &&& input::distinct(self.current_mouse_buttons@)
    }

    /// A window that nothing has happened to yet.
    pub fn new(
        mux_window_id: usize,
        config: Settings,
        pixel_width: usize,
        pixel_height: usize,
        cell_width: isize,
        cell_height: isize,
        rows: usize,
    ) -> (r: Self)
        requires
            cell_width > 0,
            cell_height > 0,
            rows <= isize::MAX,
            pixel_width <= isize::MAX,
            pixel_height <= isize::MAX,
        ensures
            r.well_formed(),
            r.ui_items@ == Seq::<UIItem>::empty(),
            r.current_mouse_buttons@ == Seq::<MousePress>::empty(),
            r == (TermWindow {
                mux_window_id,
                config,
                has_window: true,
                show_tab_bar: true,
                maximized: false,
                pixel_width,
                pixel_height,
                cell_width,
                cell_height,
                rows,
                ui_items: r.ui_items,
                last_ui_item: None,
                current_mouse_event: None,
                last_mouse_coords: (0, 0),
                current_mouse_capture: None,
                current_mouse_buttons: r.current_mouse_buttons,
                last_mouse_click: None,
                pane_drag: None,
                tab_drag: None,
                window_drag_position: None,
                dragging: None,
                drag_drop_preview: None,
                current_highlight: None,
                is_click_to_focus_window: false,
                current_event: None,
            }),
    {
        TermWindow {
            mux_window_id,
            config,
            has_window: true,
            show_tab_bar: true,
            maximized: false,
            pixel_width,
            pixel_height,
            cell_width,
            cell_height,
            rows,
            ui_items: Vec::new(),
            last_ui_item: None,
            current_mouse_event: None,
            last_mouse_coords: (0, 0),
            current_mouse_capture: None,
            current_mouse_buttons: Vec::new(),
            last_mouse_click: None,
            pane_drag: None,
            tab_drag: None,
            window_drag_position: None,
            dragging: None,
            drag_drop_preview: None,
            current_highlight: None,
            is_click_to_focus_window: false,
            current_event: None,
        }
    }

    /// The part of the window that an event hits.
    pub fn resolve_ui_item(&self, hits: &Vec<bool>) -> (r: Option<UIItem>)
        requires
            hits@.len() == self.ui_items@.len(),
        ensures
            r == topmost(self.ui_items@, hits@),
            self.well_formed() && r is Some ==> r->0.well_formed(),
    {
        let mut i: usize = self.ui_items.len();
        assert(self.ui_items@.take(i as int) =~= self.ui_items@);
        while i > 0
            invariant
                i <= self.ui_items@.len(),
                hits@.len() == self.ui_items@.len(),
                topmost(self.ui_items@, hits@) == topmost(self.ui_items@.take(i as int), hits@),
            decreases i,
        {
            i = i - 1;
            assert(self.ui_items@.take(i + 1).drop_last() =~= self.ui_items@.take(i as int));
            if hits[i] {
                return Some(self.ui_items[i]);
            }
        }
        None
    }

    /// The mouse leaves a part of the window.
    pub fn leave_ui_item(&self, item: &UIItem) -> (r: Vec<Command>)
        ensures
            r@ == leave_commands(*item),
    {
        match item.item_type {
            UIItemType::TabBar(_) => vec![Command::UpdateTitlePostStatus],
            UIItemType::CloseTab(_)
            | UIItemType::AboveScrollThumb
            | UIItemType::BelowScrollThumb
            | UIItemType::ScrollThumb
            | UIItemType::Split(_)
            | UIItemType::PaneDragHandle(_) => Vec::new(),
        }
    }

    /// The mouse enters a part of the window: nothing happens.
    pub fn enter_ui_item(&self, item: &UIItem) -> (r: Vec<Command>)
        ensures
            r@ == Seq::<Command>::empty(),
    {
        match item.item_type {
            UIItemType::TabBar(_) => Vec::new(),
            UIItemType::CloseTab(_)
            | UIItemType::AboveScrollThumb
            | UIItemType::BelowScrollThumb
            | UIItemType::ScrollThumb
            | UIItemType::Split(_)
            | UIItemType::PaneDragHandle(_) => Vec::new(),
        }
    }

    /// The pixel row that the first line of cells starts at.
    pub open spec fn first_line_offset(self, frame: MouseFrame) -> int {
        (if self.show_tab_bar && !self.config.tab_bar_at_bottom {
            frame.tab_bar_height as int
        } else {
            0
        }) + frame.border_top
    }

    /// How far below the first line of cells the mouse is.
    pub open spec fn below(self, event: MouseEvent, frame: MouseFrame) -> int {
        event.coords.y - frame.padding_top - self.first_line_offset(frame)
    }

    /// Pixel positions can hold how far the mouse is from the first cell.
    pub open spec fn frame_fits(self, event: MouseEvent, frame: MouseFrame) -> bool {
        &&& isize::MIN <= self.first_line_offset(frame) <= isize::MAX
        &&& isize::MIN <= event.coords.y - frame.padding_top <= isize::MAX
        &&& isize::MIN <= self.below(event, frame) <= isize::MAX
        &&& isize::MIN <= event.coords.x - frame.left <= isize::MAX
    }

    /// The cell that the mouse is on, and where in it. Above and left of the
    /// first cell the offsets are negative. A program that wants the mouse gets
    /// the cell under it; else the column counts from the middle of a cell.
    pub open spec fn position(
        self,
        event: MouseEvent,
        frame: MouseFrame,
        mouse_grabbed: bool,
    ) -> ClickPosition {
        let dy = self.below(event, frame);
        let dx = event.coords.x - frame.left;
        let row = if dy > 0 {
            dy / self.cell_height as int
        } else {
            0
        };
        let column = if mouse_grabbed {
            frame.containing_column
        } else {
            frame.nearest_column
        };
        ClickPosition {
            column,
            row: row as i64,
            x_pixel_offset: (if column > 0 {
                if dx > 0 {
                    dx % self.cell_width as int
                } else {
                    0
                }
            } else {
                dx
            }) as isize,
            y_pixel_offset: (if row > 0 {
                dy % self.cell_height as int
            } else {
                dy
            }) as isize,
        }
    }

    /// The cell that the mouse is on, and where in it.
    pub fn click_position(&self, event: &MouseEvent, frame: &MouseFrame, mouse_grabbed: bool) -> (r:
        ClickPosition)
        requires
            self.well_formed(),
            self.frame_fits(*event, *frame),
        ensures
            r == self.position(*event, *frame, mouse_grabbed),
    {
        let first_line_offset: isize = if self.show_tab_bar && !self.config.tab_bar_at_bottom {
            frame.tab_bar_height + frame.border_top
        } else {
            frame.border_top
        };
        let dy: isize = event.coords.y - frame.padding_top - first_line_offset;
        let dx: isize = event.coords.x - frame.left;
        let down: isize = if dy > 0 {
            dy
        } else {
            0
        };
        let across: isize = if dx > 0 {
            dx
        } else {
            0
        };
        proof {
            assert(0 <= down / self.cell_height <= down) by (nonlinear_arith)
                requires
                    0 <= down,
                    0 < self.cell_height,
            ;
            if dy <= 0 {
                assert(0int / self.cell_height as int == 0) by (nonlinear_arith)
                    requires
                        0 < self.cell_height,
                ;
            }
        }
        let row: i64 = (down / self.cell_height) as i64;
        let column = if mouse_grabbed {
            frame.containing_column
        } else {
            frame.nearest_column
        };
        proof {
            if dx <= 0 {
                assert(0int % self.cell_width as int == 0) by (nonlinear_arith)
                    requires
                        0 < self.cell_width,
                ;
            }
        }
        ClickPosition {
            column,
            row,
            x_pixel_offset: if column > 0 {
                across % self.cell_width
            } else {
                dx
            },
            y_pixel_offset: if row > 0 {
                down % self.cell_height
            } else {
                dy
            },
        }
    }

    /// The buttons held after an event.
    pub open spec fn held_after(self, event: MouseEvent) -> Seq<MousePress> {
        match event.kind {
            MouseEventKind::Press(p) => input::without(self.current_mouse_buttons@, p).push(p),
            MouseEventKind::Release(p) => input::without(self.current_mouse_buttons@, p),
            _ => self.current_mouse_buttons@,
        }
    }

    /// What the drags make of an event; nothing if none of them takes it. A
    /// release of the left button ends a drag, a movement goes on with it.
    pub open spec fn drag_commands(self, event: MouseEvent, at: ClickPosition) -> Option<
        Seq<Command>,
    > {
        let done = seq![Command::SetCursor(MouseCursor::Arrow), Command::Invalidate];
        match event.kind {
            MouseEventKind::Release(MousePress::Left) => if self.pane_drag is Some {
                let drag = self.pane_drag->0;
                Some(
                    if drag.started {
                        seq![Command::FinishPaneDrag { drag, event }] + done
                    } else {
                        done
                    },
                )
            } else if self.tab_drag is Some {
                let drag = self.tab_drag->0;
                Some(
                    if drag.started {
                        seq![Command::FinishTabDrag { drag, event }] + done
                    } else {
                        done
                    },
                )
            } else if self.window_drag_position is Some || self.dragging is Some {
                Some(seq![])
            } else {
                None
            },
            MouseEventKind::Move => if self.pane_drag is Some {
                Some(seq![Command::DragPane { drag: self.pane_drag->0, event }])
            } else if self.tab_drag is Some {
                Some(seq![Command::DragTab { drag: self.tab_drag->0, event }])
            } else if self.window_drag_position is Some {
                Some(
                    seq![
                        Command::SetWindowPosition(dragged_to(self.window_drag_position->0, event)),
                    ],
                )
            } else if self.dragging is Some {
                Some(
                    seq![
                        Command::DragUiItem {
                            item: (self.dragging->0).0,
                            start_event: (self.dragging->0).1,
                            column: at.column,
                            row: at.row,
                            event,
                        },
                    ],
                )
            } else {
                None
            },
            _ => None,
        }
    }

    /// Whether the event moves the window itself.
    pub open spec fn moves_window(self, event: MouseEvent) -> bool {
        event.kind is Move && self.pane_drag is None && self.tab_drag is None
            && self.window_drag_position is Some
    }

    /// The window when it has taken note of an event and no part of it has seen
    /// the event yet. The drag that takes the event is handed on with it.
    pub open spec fn noted(
        self,
        event: MouseEvent,
        at: ClickPosition,
        streak: usize,
        held: Vec<MousePress>,
    ) -> TermWindow {
        let left_up = event.kind == MouseEventKind::Release(MousePress::Left);
        let takes_pane = left_up || event.kind is Move;
        let takes_tab = takes_pane && self.pane_drag is None;
        let free = self.pane_drag is None && self.tab_drag is None;
        let takes_item = takes_pane && free && self.window_drag_position is None;
        TermWindow {
            current_mouse_event: Some(event),
            last_mouse_coords: (at.column, at.row),
            current_mouse_capture: if event.kind is Release {
                None
            } else {
                self.current_mouse_capture
            },
            current_mouse_buttons: held,
            last_mouse_click: match event.kind {
                MouseEventKind::Press(p) => Some(
                    LastMouseClick { button: input::button_of(p), position: at, streak },
                ),
                _ => self.last_mouse_click,
            },
            pane_drag: if takes_pane {
                None
            } else {
                self.pane_drag
            },
            tab_drag: if takes_tab {
                None
            } else {
                self.tab_drag
            },
            window_drag_position: if left_up && free {
                None
            } else {
                self.window_drag_position
            },
            dragging: if takes_item {
                None
            } else {
                self.dragging
            },
            ..self
        }
    }

    /// The part of the window under the mouse, none while a pane has the mouse.
    pub open spec fn hovered(self, hits: Seq<bool>) -> Option<UIItem> {
        if self.current_mouse_capture is Some && self.current_mouse_capture->0 is TerminalPane {
            None
        } else {
            topmost(self.ui_items@, hits)
        }
    }

    /// What an event asks for that no drag takes: the part of the window under
    /// the mouse gets it, or else the panes, and the title follows the mouse.
    pub open spec fn delivery(
        self,
        pane: ActivePane,
        event: MouseEvent,
        at: ClickPosition,
        hits: Seq<bool>,
    ) -> Seq<Command> {
        let prior = self.last_ui_item;
        let item = self.hovered(hits);
        let capture_mouse = event.kind is Press;
        let on_pane = self.current_mouse_capture is Some
            && self.current_mouse_capture->0 is TerminalPane;
        (if on_pane {
            seq![]
        } else {
            hover_commands(prior, item, self.config.use_fancy_tab_bar)
        }) + (if item is Some {
            self.ui_item_commands(item->0, pane, event)
        } else if on_pane || self.current_mouse_capture is None {
            seq![
                Command::Terminal { pane_id: pane.pane_id, position: at, event, capture_mouse },
            ]
        } else {
            seq![]
        }) + (if prior != item {
            seq![Command::UpdateTitlePostStatus]
        } else {
            seq![]
        })
    }

    /// The window after an event that no drag takes.
    pub open spec fn delivered(self, event: MouseEvent, hits: Seq<bool>) -> TermWindow {
        let item = self.hovered(hits);
        let on_pane = self.current_mouse_capture is Some
            && self.current_mouse_capture->0 is TerminalPane;
        if item is Some {
            (TermWindow {
                current_mouse_capture: if event.kind is Press {
                    Some(MouseCapture::UI)
                } else {
                    self.current_mouse_capture
                },
                ..self
            }).after_ui_item(item->0, event)
        } else {
            TermWindow {
                last_ui_item: if on_pane {
                    self.last_ui_item
                } else {
                    None
                },
                ..self
            }
        }
    }

    /// An event of the mouse. `hits` says of each part of the window whether the
    /// mouse is in it, and `streak` how many clicks in a row a press makes.
    pub fn mouse_event_impl(
        &mut self,
        event: MouseEvent,
        pane: Option<ActivePane>,
        frame: MouseFrame,
        streak: usize,
        hits: &Vec<bool>,
    ) -> (r: Vec<Command>)
        requires
            old(self).well_formed(),
            hits@.len() == old(self).ui_items@.len(),
            pane is Some ==> old(self).frame_fits(event, frame),
            pane is Some && old(self).moves_window(event) ==> drag_fits(
                old(self).window_drag_position->0,
                event,
            ),
            pane is Some && event.kind is Move && old(self).pane_drag is None
                && old(self).tab_drag is None && old(self).window_drag_position is None
                && old(self).dragging is None ==> match old(self).hovered(hits@) {
                Some(item) => item.item_type is TabBar && over_maximize(
                    item.item_type->TabBar_0,
                    event,
                ) ==> on_screen_fits(item, event),
                None => true,
            },
        ensures
            final(self).well_formed(),
            final(self).ui_items == old(self).ui_items,
            pane is None ==> r@ == Seq::<Command>::empty() && *final(self) == *old(self),
            pane is Some ==> {
                let at = old(self).position(event, frame, pane->0.mouse_grabbed);
                let noted = old(self).noted(
                    event,
                    at,
                    streak,
                    final(self).current_mouse_buttons,
                );
                let taken = old(self).drag_commands(event, at);
                &&& final(self).current_mouse_buttons@ == old(self).held_after(event)
                &&& taken is Some ==> r@ == taken->0 && *final(self) == noted
                &&& taken is None ==> r@ == noted.delivery(pane->0, event, at, hits@)
                    && *final(self) == noted.delivered(event, hits@)
            },
    {
        let pane = match pane {
            Some(pane) => pane,
            None => {
                return Vec::new();
            },
        };
        let at = self.click_position(&event, &frame, pane.mouse_grabbed);
        match self.note(event, at, streak) {
            Some(commands) => commands,
            None => self.deliver(pane, event, at, hits),
        }
    }

    /// Takes note of an event, and hands it to the drag that takes it, if one
    /// does.
    fn note(&mut self, event: MouseEvent, at: ClickPosition, streak: usize) -> (r: Option<
        Vec<Command>,
    >)
        requires
            old(self).well_formed(),
            old(self).moves_window(event) ==> drag_fits(
                old(self).window_drag_position->0,
                event,
            ),
        ensures
            final(self).well_formed(),
            final(self).current_mouse_buttons@ == old(self).held_after(event),
            *final(self) == old(self).noted(
                event,
                at,
                streak,
                final(self).current_mouse_buttons,
            ),
            match old(self).drag_commands(event, at) {
                Some(commands) => r is Some && r->0@ == commands,
                None => r is None,
            },
    {
        self.current_mouse_event = Some(event);
        self.last_mouse_coords = (at.column, at.row);
        match event.kind {
            MouseEventKind::Release(press) => {
                self.current_mouse_capture = None;
                proof {
                    input::without_keeps_the_others(self.current_mouse_buttons@, press);
                }
                take_out(&mut self.current_mouse_buttons, press);
                if press == MousePress::Left {
                    if let Some(drag) = self.pane_drag {
                        self.pane_drag = None;
                        let mut commands: Vec<Command> = Vec::new();
                        if drag.started {
                            commands.push(Command::FinishPaneDrag { drag, event });
                        }
                        commands.push(Command::SetCursor(MouseCursor::Arrow));
                        commands.push(Command::Invalidate);
                        assert(commands@ =~= old(self).drag_commands(event, at)->0);
                        return Some(commands);
                    }
                    if let Some(drag) = self.tab_drag {
                        self.tab_drag = None;
                        let mut commands: Vec<Command> = Vec::new();
                        if drag.started {
                            commands.push(Command::FinishTabDrag { drag, event });
                        }
                        commands.push(Command::SetCursor(MouseCursor::Arrow));
                        commands.push(Command::Invalidate);
                        assert(commands@ =~= old(self).drag_commands(event, at)->0);
                        return Some(commands);
                    }
                    if self.window_drag_position.is_some() {
                        self.window_drag_position = None;
                        return Some(Vec::new());
                    }
                    if self.dragging.is_some() {
                        self.dragging = None;
                        return Some(Vec::new());
                    }
                }
            },
            MouseEventKind::Press(press) => {
                self.last_mouse_click = Some(
                    LastMouseClick { button: mouse_press_to_tmb(press), position: at, streak },
                );
                proof {
                    input::a_press_goes_last(self.current_mouse_buttons@, press);
                }
                take_out(&mut self.current_mouse_buttons, press);
                self.current_mouse_buttons.push(press);
            },
            MouseEventKind::Move => {
                if let Some(drag) = self.pane_drag {
                    self.pane_drag = None;
                    return Some(vec![Command::DragPane { drag, event }]);
                }
                if let Some(drag) = self.tab_drag {
                    self.tab_drag = None;
                    return Some(vec![Command::DragTab { drag, event }]);
                }
                if let Some(start) = self.window_drag_position {
                    // The position of the window is not known as such. The event
                    // that the drag started with tells where it was; it has
                    // moved since as the mouse has.
                    let delta_x: isize = start.screen_coords.x - event.screen_coords.x;
                    let delta_y: isize = start.screen_coords.y - event.screen_coords.y;
                    let top_left = ScreenPoint {
                        x: (start.screen_coords.x - start.coords.x) - delta_x,
                        y: (start.screen_coords.y - start.coords.y) - delta_y,
                    };
                    return Some(vec![Command::SetWindowPosition(top_left)]);
                }
                if let Some((item, start_event)) = self.dragging {
                    self.dragging = None;
                    return Some(
                        vec![
                            Command::DragUiItem {
                                item,
                                start_event,
                                column: at.column,
                                row: at.row,
                                event,
                            },
                        ],
                    );
                }
            },
            _ => {},
        }
        None
    }

    /// What it asks for that the mouse goes from one part of the window to
    /// another.
    fn hover(&self, prior: Option<UIItem>, item: Option<UIItem>) -> (r: Vec<Command>)
        ensures
            r@ == hover_commands(prior, item, self.config.use_fancy_tab_bar),
    {
        let mut commands: Vec<Command> = Vec::new();
        match (prior, item) {
            (Some(prior), Some(item)) => {
                if prior != item || !self.config.use_fancy_tab_bar {
                    let mut left = self.leave_ui_item(&prior);
                    commands.append(&mut left);
                    let mut entered = self.enter_ui_item(&item);
                    commands.append(&mut entered);
                    commands.push(Command::Invalidate);
                }
            },
            (Some(prior), None) => {
                let mut left = self.leave_ui_item(&prior);
                commands.append(&mut left);
                commands.push(Command::Invalidate);
            },
            (None, Some(item)) => {
                let mut entered = self.enter_ui_item(&item);
                commands.append(&mut entered);
                commands.push(Command::Invalidate);
            },
            (None, None) => {},
        }
        assert(commands@ =~= hover_commands(prior, item, self.config.use_fancy_tab_bar));
        commands
    }

    /// Hands an event that no drag takes to the part of the window under the
    /// mouse, or else to the panes.
    fn deliver(
        &mut self,
        pane: ActivePane,
        event: MouseEvent,
        at: ClickPosition,
        hits: &Vec<bool>,
    ) -> (r: Vec<Command>)
        requires
            old(self).well_formed(),
            hits@.len() == old(self).ui_items@.len(),
            match old(self).hovered(hits@) {
                Some(item) => item.item_type is TabBar && over_maximize(
                    item.item_type->TabBar_0,
                    event,
                ) ==> on_screen_fits(item, event),
                None => true,
            },
        ensures
            final(self).well_formed(),
            r@ == old(self).delivery(pane, event, at, hits@),
            *final(self) == old(self).delivered(event, hits@),
    {
        let prior = self.last_ui_item;
        let mut commands: Vec<Command> = Vec::new();
        let capture_mouse = match event.kind {
            MouseEventKind::Press(_) => true,
            _ => false,
        };
        let on_pane = match self.current_mouse_capture {
            Some(MouseCapture::TerminalPane(_)) => true,
            _ => false,
        };
        let ui_item = if on_pane {
            None
        } else {
            self.resolve_ui_item(hits)
        };
        if !on_pane {
            self.last_ui_item = None;
            commands = self.hover(prior, ui_item);
        }
        if let Some(item) = ui_item {
            if capture_mouse {
                self.current_mouse_capture = Some(MouseCapture::UI);
            }
            let mut handled = self.mouse_event_ui_item(item, pane, event);
            assert(handled@ == old(self).ui_item_commands(item, pane, event));
            commands.append(&mut handled);
        } else if on_pane || self.current_mouse_capture.is_none() {
            commands.push(
                Command::Terminal { pane_id: pane.pane_id, position: at, event, capture_mouse },
            );
        }
        if prior != ui_item {
            commands.push(Command::UpdateTitlePostStatus);
        }
        assert(commands@ =~= old(self).delivery(pane, event, at, hits@));
        commands
    }

    /// The mouse leaves the window.
    pub fn mouse_leave_impl(&mut self) -> (r: Vec<Command>)
        ensures
            r@ == seq![
                Command::UpdateTitle,
                Command::SetCursor(MouseCursor::Arrow),
                Command::Invalidate,
            ],
            *final(self) == (TermWindow { current_mouse_event: None, ..*old(self) }),
    {
        self.current_mouse_event = None;
        vec![
            Command::UpdateTitle,
            Command::SetCursor(MouseCursor::Arrow),
            Command::Invalidate,
        ]
    }
}

/// A release of any button ends the capture of the mouse, whoever gets the
/// event.
pub proof fn a_release_ends_the_capture(
    window: TermWindow,
    event: MouseEvent,
    at: ClickPosition,
    streak: usize,
    held: Vec<MousePress>,
    hits: Seq<bool>,
)
    requires
        event.kind is Release,
    ensures
        window.noted(event, at, streak, held).current_mouse_capture is None,
        window.noted(event, at, streak, held).delivered(event, hits).current_mouse_capture is None,
{
}

/// Until then, where a pane has captured the mouse, the panes get every event
/// that no drag takes, whatever part of the window is under the mouse.
pub proof fn a_captured_mouse_goes_to_the_pane(
    window: TermWindow,
    pane: ActivePane,
    event: MouseEvent,
    at: ClickPosition,
    hits: Seq<bool>,
)
    requires
        window.current_mouse_capture is Some,
        window.current_mouse_capture->0 is TerminalPane,
    ensures
        ({
            let commands = window.delivery(pane, event, at, hits);
            &&& commands.len() >= 1
            &&& commands[0] == (Command::Terminal {
                pane_id: pane.pane_id,
                position: at,
                event,
                capture_mouse: event.kind is Press,
            })
        }),
        window.delivered(event, hits).last_ui_item == window.last_ui_item,
{
}

/// A press and a release of the same button leave the other buttons as they
/// were, and that button up.
pub proof fn a_click_leaves_the_button_up(
    window: TermWindow,
    press: MouseEvent,
    button: MousePress,
    pressed: Seq<MousePress>,
)
    requires
        window.well_formed(),
        press.kind == MouseEventKind::Press(button),
        pressed == window.held_after(press),
    ensures
        input::distinct(pressed),
        pressed.last() == button,
        input::without(pressed, button) == input::without(window.current_mouse_buttons@, button),
        !input::without(pressed, button).contains(button),
{
    input::a_press_goes_last(window.current_mouse_buttons@, button);
    input::without_keeps_the_others(window.current_mouse_buttons@, button);
}

/// While the window is dragged it moves by as much as the mouse does.
pub proof fn the_window_follows_the_mouse(start: MouseEvent, a: MouseEvent, b: MouseEvent)
    requires
        drag_fits(start, a),
        drag_fits(start, b),
    ensures
        dragged_to(start, b).x - dragged_to(start, a).x == b.screen_coords.x - a.screen_coords.x,
        dragged_to(start, b).y - dragged_to(start, a).y == b.screen_coords.y - a.screen_coords.y,
{
}

/// Hovering in the same place asks for nothing new under the fancy tab bar, and
/// entering or leaving a part always paints.
pub proof fn hovering_paints_on_change(prior: Option<UIItem>, item: Option<UIItem>, fancy: bool)
    ensures
        fancy && prior == item ==> hover_commands(prior, item, fancy) == Seq::<Command>::empty(),
        prior != item ==> hover_commands(prior, item, fancy).len() > 0 && hover_commands(
            prior,
            item,
            fancy,
        ).last() == Command::Invalidate,
{
}

/// The row and the offset in it make up how far the mouse is below the first line of
/// cells, which lies below the border, the padding and the tab bar, where that is
/// shown at the top. From the first line on the offset stays within a cell; above it
/// the row is the first one.
pub proof fn rows_and_offsets_add_up(
    window: TermWindow,
    event: MouseEvent,
    frame: MouseFrame,
    mouse_grabbed: bool,
    from_top: int,
)
    requires
        window.well_formed(),
        window.frame_fits(event, frame),
        window.show_tab_bar && !window.config.tab_bar_at_bottom ==> from_top == event.coords.y
            - frame.padding_top - frame.border_top - frame.tab_bar_height,
        !window.show_tab_bar || window.config.tab_bar_at_bottom ==> from_top == event.coords.y
            - frame.padding_top - frame.border_top,
    ensures
        ({
            let at = window.position(event, frame, mouse_grabbed);
            &&& at.row * window.cell_height + at.y_pixel_offset == from_top
            &&& from_top >= 0 ==> 0 <= at.y_pixel_offset < window.cell_height
            &&& from_top <= 0 ==> at.row == 0
            &&& 0 <= at.row
        }),
{
    let height = window.cell_height as int;
    if from_top > 0 {
        let row = from_top / height;
        assert(row * height + from_top % height == from_top && 0 <= from_top % height < height && 0
            <= row <= from_top) by (nonlinear_arith)
            requires
                row == from_top / height,
                0 < height,
                0 < from_top,
        ;
        if row == 0 {
            assert(0 * height == 0);
        }
        assert(window.position(event, frame, mouse_grabbed).row == row);
    } else {
        assert(0 * height == 0);
    }
}

/// A program that wants the mouse is told the column that holds it; else the column is
/// the one whose edge is nearest. In the first column the offset tells how far the
/// mouse is from the left edge of the cells; in any other it is what is left of that
/// distance beside whole cells, and none left of the edge.
pub proof fn columns_and_offsets_are_apart(
    window: TermWindow,
    event: MouseEvent,
    frame: MouseFrame,
    mouse_grabbed: bool,
) -> (cells: int)
    requires
        window.well_formed(),
        window.frame_fits(event, frame),
    ensures
        ({
            let at = window.position(event, frame, mouse_grabbed);
            let from_left = event.coords.x - frame.left;
            &&& mouse_grabbed ==> at.column == frame.containing_column
            &&& !mouse_grabbed ==> at.column == frame.nearest_column
            &&& at.column == 0 ==> at.x_pixel_offset == from_left
            &&& at.column > 0 && from_left <= 0 ==> at.x_pixel_offset == 0
            &&& at.column > 0 && from_left > 0 ==> {
                &&& cells * window.cell_width + at.x_pixel_offset == from_left
                &&& 0 <= at.x_pixel_offset < window.cell_width
                &&& 0 <= cells
            }
        }),
{
    let width = window.cell_width as int;
    let from_left = event.coords.x - frame.left;
    let cells = from_left / width;
    if from_left > 0 {
        assert(cells * width + from_left % width == from_left && 0 <= from_left % width < width && 0
            <= cells) by (nonlinear_arith)
            requires
                cells == from_left / width,
                0 < width,
                0 < from_left,
        ;
    }
    cells
}

/// A window that is dragged is placed so that the mouse is at the point of it that it
/// grabbed.
pub proof fn a_dragged_window_is_held_as_before(start: MouseEvent, event: MouseEvent)
    requires
        drag_fits(start, event),
    ensures
        dragged_to(start, event).x + start.coords.x == event.screen_coords.x,
        dragged_to(start, event).y + start.coords.y == event.screen_coords.y,
{
}

/// The title is told when the mouse leaves a part of the tab bar, and only then; the
/// window is painted when the mouse goes from part to part, and on every movement over
/// a part where the tab bar is the plain one.
pub proof fn hovering_tells_the_title(prior: Option<UIItem>, item: Option<UIItem>, fancy: bool)
    ensures
        ({
            let commands = hover_commands(prior, item, fancy);
            let paints = prior != item || prior is Some && !fancy;
            let told = paints && prior is Some && prior->0.item_type is TabBar;
            &&& !paints ==> commands.len() == 0
            &&& paints && told ==> commands == seq![
                Command::UpdateTitlePostStatus,
                Command::Invalidate,
            ]
            &&& paints && !told ==> commands == seq![Command::Invalidate]
        }),
{
}

/// A button that goes down is among those held, as the last of them; one that comes
/// up is not; the others are held as before, and no other event changes that.
pub proof fn buttons_are_held_from_press_to_release(
    window: TermWindow,
    event: MouseEvent,
    button: MousePress,
    other: MousePress,
)
    requires
        other != button,
    ensures
        ({
            let before = window.current_mouse_buttons@;
            let after = window.held_after(event);
            &&& event.kind == MouseEventKind::Press(button) ==> {
                &&& after.len() > 0 && after[after.len() - 1] == button
                &&& after.contains(other) <==> before.contains(other)
            }
            &&& event.kind == MouseEventKind::Release(button) ==> {
                &&& !after.contains(button)
                &&& after.contains(other) <==> before.contains(other)
            }
            &&& event.kind is Move || event.kind is VertWheel || event.kind is HorzWheel ==> after
                == before
        }),
{
    let before = window.current_mouse_buttons@;
    input::without_keeps_the_others(before, button);
    let rest = input::without(before, button);
    let all = rest.push(button);
    if rest.contains(other) {
        let k = rest.index_of(other);
        assert(all[k] == other);
    }
    if all.contains(other) {
        let k = all.index_of(other);
        assert(rest[k] == other);
    }
}

/// A movement goes to the drag that is going on: that of a pane before that of a tab,
/// that before one of the window, and that before one of a split or thumb. A press or
/// a wheel goes to none, and no event does while nothing is dragged.
pub proof fn a_movement_goes_on_with_the_drag(
    window: TermWindow,
    event: MouseEvent,
    at: ClickPosition,
)
    ensures
        ({
            let taken = window.drag_commands(event, at);
            let pane = window.pane_drag is Some;
            let tab = !pane && window.tab_drag is Some;
            let whole = !pane && !tab && window.window_drag_position is Some;
            let item = !pane && !tab && !whole && window.dragging is Some;
            &&& event.kind is Press || event.kind is VertWheel || event.kind is HorzWheel ==> taken
                is None
            &&& !pane && !tab && !whole && !item ==> taken is None
            &&& event.kind is Move && (pane || tab || whole || item) ==> taken is Some
                && taken->0.len() == 1
            &&& event.kind is Move && pane ==> taken->0[0] == (Command::DragPane {
                drag: window.pane_drag->0,
                event,
            })
            &&& event.kind is Move && tab ==> taken->0[0] == (Command::DragTab {
                drag: window.tab_drag->0,
                event,
            })
            &&& event.kind is Move && whole && drag_fits(window.window_drag_position->0, event) ==> (
            taken->0[0] matches Command::SetWindowPosition(corner) && corner.x
                + window.window_drag_position->0.coords.x == event.screen_coords.x && corner.y
                + window.window_drag_position->0.coords.y == event.screen_coords.y)
            &&& event.kind is Move && item ==> taken->0[0] == (Command::DragUiItem {
                item: (window.dragging->0).0,
                start_event: (window.dragging->0).1,
                column: at.column,
                row: at.row,
                event,
            })
        }),
{
}

/// When the left button comes up, the drag is over: a pane or a tab that was moved far
/// enough is let go, and the cursor is an arrow again. Another button ends no drag.
pub proof fn a_release_ends_the_drag(window: TermWindow, event: MouseEvent, at: ClickPosition)
    requires
        event.kind is Release,
    ensures
        ({
            let taken = window.drag_commands(event, at);
            let left = event.kind == MouseEventKind::Release(MousePress::Left);
            let arrow = Command::SetCursor(MouseCursor::Arrow);
            let pane = window.pane_drag is Some;
            let tab = !pane && window.tab_drag is Some;
            let rest = !pane && !tab && (window.window_drag_position is Some || window.dragging
                is Some);
            &&& !left ==> taken is None
            &&& taken is Some <==> left && (pane || tab || rest)
            &&& left && pane && window.pane_drag->0.started ==> taken->0 == seq![
                Command::FinishPaneDrag { drag: window.pane_drag->0, event },
                arrow,
                Command::Invalidate,
            ]
            &&& left && pane && !window.pane_drag->0.started ==> taken->0 == seq![
                arrow,
                Command::Invalidate,
            ]
            &&& left && tab && window.tab_drag->0.started ==> taken->0 == seq![
                Command::FinishTabDrag { drag: window.tab_drag->0, event },
                arrow,
                Command::Invalidate,
            ]
            &&& left && tab && !window.tab_drag->0.started ==> taken->0 == seq![
                arrow,
                Command::Invalidate,
            ]
            &&& left && rest ==> taken->0 == Seq::<Command>::empty()
        }),
{
    let left = event.kind == MouseEventKind::Release(MousePress::Left);
    if left && window.pane_drag is Some && window.pane_drag->0.started {
        assert(window.drag_commands(event, at)->0 =~= seq![
            Command::FinishPaneDrag { drag: window.pane_drag->0, event },
            Command::SetCursor(MouseCursor::Arrow),
            Command::Invalidate,
        ]);
    } else if left && window.pane_drag is None && window.tab_drag is Some
        && window.tab_drag->0.started {
        assert(window.drag_commands(event, at)->0 =~= seq![
            Command::FinishTabDrag { drag: window.tab_drag->0, event },
            Command::SetCursor(MouseCursor::Arrow),
            Command::Invalidate,
        ]);
    }
}

/// The window remembers the last event and the cell it was in. The last click is that
/// of the button that went down, with its place and its count, and stays so until the
/// next press.
pub proof fn the_last_event_is_remembered(
    window: TermWindow,
    event: MouseEvent,
    at: ClickPosition,
    streak: usize,
    held: Vec<MousePress>,
)
    ensures
        ({
            let after = window.noted(event, at, streak, held);
            &&& after.current_mouse_event == Some(event)
            &&& after.last_mouse_coords.0 == at.column && after.last_mouse_coords.1 == at.row
            &&& after.current_mouse_buttons == held
            &&& event.kind is Press ==> {
                &&& after.last_mouse_click is Some
                &&& after.last_mouse_click->0.position == at
                &&& after.last_mouse_click->0.streak == streak
                &&& event.kind == MouseEventKind::Press(MousePress::Left)
                    <==> after.last_mouse_click->0.button is Left
                &&& event.kind == MouseEventKind::Press(MousePress::Right)
                    <==> after.last_mouse_click->0.button is Right
                &&& event.kind == MouseEventKind::Press(MousePress::Middle)
                    <==> after.last_mouse_click->0.button is Middle
            }
            &&& !(event.kind is Press) ==> after.last_mouse_click == window.last_mouse_click
            &&& event.kind is Release ==> after.current_mouse_capture is None
            &&& !(event.kind is Release) ==> after.current_mouse_capture
                == window.current_mouse_capture
            &&& after.last_ui_item == window.last_ui_item
            &&& after.ui_items == window.ui_items
            &&& after.drag_drop_preview == window.drag_drop_preview
        }),
{
}

/// The drag that takes an event is no longer the window's, but for a drag of the window
/// itself, which goes on until the left button comes up; the drags that do not take it
/// stay.
pub proof fn the_drag_goes_with_the_event(
    window: TermWindow,
    event: MouseEvent,
    at: ClickPosition,
    streak: usize,
    held: Vec<MousePress>,
)
    ensures
        ({
            let after = window.noted(event, at, streak, held);
            let left_up = event.kind == MouseEventKind::Release(MousePress::Left);
            let goes_on = left_up || event.kind is Move;
            &&& !goes_on ==> after.pane_drag == window.pane_drag && after.tab_drag
                == window.tab_drag && after.window_drag_position == window.window_drag_position
                && after.dragging == window.dragging
            &&& goes_on ==> after.pane_drag is None
            &&& goes_on && window.pane_drag is Some ==> after.tab_drag == window.tab_drag
                && after.window_drag_position == window.window_drag_position && after.dragging
                == window.dragging
            &&& goes_on && window.pane_drag is None ==> after.tab_drag is None
            &&& goes_on && window.pane_drag is None && window.tab_drag is Some
                ==> after.window_drag_position == window.window_drag_position && after.dragging
                == window.dragging
            &&& left_up && window.pane_drag is None && window.tab_drag is None
                ==> after.window_drag_position is None
            &&& event.kind is Move ==> after.window_drag_position == window.window_drag_position
            &&& goes_on && window.pane_drag is None && window.tab_drag is None
                && window.window_drag_position is Some ==> after.dragging == window.dragging
            &&& goes_on && window.pane_drag is None && window.tab_drag is None
                && window.window_drag_position is None ==> after.dragging is None
        }),
{
}

/// An event that no drag takes goes to the topmost part under the mouse, unless a pane
/// has the mouse, and where there is none to the active pane, which gets the mouse with
/// a press. While the rest of the window has the mouse, an event off its parts goes
/// nowhere.
pub proof fn events_go_to_what_is_under_the_mouse(
    window: TermWindow,
    pane: ActivePane,
    event: MouseEvent,
    at: ClickPosition,
    hits: Seq<bool>,
)
    requires
        window.ui_items@.len() <= hits.len(),
    ensures
        ({
            let on_pane = window.current_mouse_capture is Some && window.current_mouse_capture->0
                is TerminalPane;
            let item = window.hovered(hits);
            let commands = window.delivery(pane, event, at, hits);
            let hit = exists|i: int| 0 <= i < window.ui_items@.len() && #[trigger] hits[i];
            let terminal = Command::Terminal {
                pane_id: pane.pane_id,
                position: at,
                event,
                capture_mouse: event.kind is Press,
            };
            &&& item is Some <==> hit && !on_pane
            &&& item is None && (on_pane || window.current_mouse_capture is None)
                ==> commands.contains(terminal)
            &&& item is None && !(on_pane || window.current_mouse_capture is None) ==> forall|
                i: int,
            |
                0 <= i < commands.len() ==> !(#[trigger] commands[i] is Terminal)
        }),
{
    topmost_is_hit(window.ui_items@, hits);
    let item = window.hovered(hits);
    let prior = window.last_ui_item;
    let on_pane = window.current_mouse_capture is Some && window.current_mouse_capture->0
        is TerminalPane;
    let hover = if on_pane {
        Seq::<Command>::empty()
    } else {
        hover_commands(prior, item, window.config.use_fancy_tab_bar)
    };
    let commands = window.delivery(pane, event, at, hits);
    if item is None && (on_pane || window.current_mouse_capture is None) {
        assert(commands[hover.len() as int] is Terminal);
        assert(commands.contains(commands[hover.len() as int]));
    }
}

/// A press on a part of the window gives the mouse to the window's parts until the
/// button comes up; what else changes is what the part makes of the event. An event off
/// the parts forgets the last part, unless a pane has the mouse.
pub proof fn a_press_on_a_part_captures(window: TermWindow, event: MouseEvent, hits: Seq<bool>)
    ensures
        ({
            let item = window.hovered(hits);
            let after = window.delivered(event, hits);
            let on_pane = window.current_mouse_capture is Some && window.current_mouse_capture->0
                is TerminalPane;
            &&& item is Some ==> after.last_ui_item == item
            &&& item is Some && event.kind is Press ==> after.current_mouse_capture == Some(
                MouseCapture::UI,
            )
            &&& !(item is Some && event.kind is Press) ==> after.current_mouse_capture
                == window.current_mouse_capture
            &&& item is None && on_pane ==> after.last_ui_item == window.last_ui_item
            &&& item is None && !on_pane ==> after.last_ui_item is None
            &&& item is None ==> after.dragging == window.dragging && after.window_drag_position
                == window.window_drag_position
            &&& after.pane_drag == window.pane_drag && after.tab_drag == window.tab_drag
            &&& after.current_mouse_event == window.current_mouse_event
            &&& after.last_mouse_click == window.last_mouse_click
        }),
{
}

/// The title is told last when the part under the mouse is another one than before.
pub proof fn the_title_follows_the_mouse(
    window: TermWindow,
    pane: ActivePane,
    event: MouseEvent,
    at: ClickPosition,
    hits: Seq<bool>,
)
    requires
        window.last_ui_item != window.hovered(hits),
    ensures
        window.delivery(pane, event, at, hits).len() > 0,
        window.delivery(pane, event, at, hits).last() == Command::UpdateTitlePostStatus,
{
}

/// A part of the window is as far from the mouse on the screen as it is in the window, and
/// as large.
pub proof fn parts_keep_their_distance_on_the_screen(item: UIItem, event: MouseEvent)
    requires
        item.well_formed(),
        on_screen_fits(item, event),
    ensures
        on_screen(item, event).x - event.screen_coords.x == item.x - event.coords.x,
        on_screen(item, event).y - event.screen_coords.y == item.y - event.coords.y,
        on_screen(item, event).width == item.width,
        on_screen(item, event).height == item.height,
{
}

} // verus!

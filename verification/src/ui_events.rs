//! What the mouse does on the parts of the window that are not panes.

use vstd::prelude::*;
use crate::command::{Command, MouseCursor, NewTabAction};
use crate::geometry;
use crate::geometry::{difference, sum, Point, ScreenRect, Size};
use crate::input::{MouseEvent, MouseEventKind, MousePress};
use crate::termwindow;
use crate::termwindow::{ActivePane, TermWindow, WindowFrame};
use crate::ui::{
    IntegratedTitleButton, PaneDragState, PositionedSplit, SplitDirection, TabBarItem,
    TabDragState, TabStrip, UIItem, UIItemType,
};

verus! {

/// A pane of a tab: its id, and its index in the tab.
#[derive(Clone, Copy, Debug, PartialEq, Eq, Structural)]
pub struct TabPane {
    pub pane_id: usize,
    pub index: usize,
}

/// Where a pane is.
#[derive(Clone, Copy, Debug, PartialEq, Eq, Structural)]
pub struct PaneHome {
    pub window_id: usize,
    pub tab_id: usize,
}

/// What a click on the button for new tabs does by default.
pub open spec fn default_new_tab_action(button: MousePress) -> Option<NewTabAction> {
    match button {
        MousePress::Left => Some(NewTabAction::SpawnTab),
        MousePress::Right => Some(NewTabAction::ShowLauncher),
        MousePress::Middle => None,
    }
}

/// What is left to do when the user's script has seen a click on the button for
/// new tabs: the default action, if there is one and the script allows it.
pub fn after_new_tab_button_click(default_action: bool, action: Option<NewTabAction>) -> (r: Option<
    NewTabAction,
>)
    ensures
        r == (if default_action {
            action
        } else {
            None
        }),
{
    if default_action {
        action
    } else {
        None
    }
}

/// Zooms the window, or takes it back.
pub open spec fn toggle_maximized(maximized: bool) -> Command {
    if maximized {
        Command::RestoreWindow
    } else {
        Command::MaximizeWindow
    }
}

/// What a movement of the mouse shapes the cursor to, over a split.
pub open spec fn split_cursor(direction: SplitDirection) -> MouseCursor {
    match direction {
        SplitDirection::Horizontal => MouseCursor::SizeLeftRight,
        SplitDirection::Vertical => MouseCursor::SizeUpDown,
    }
}

/// By how many cells a split is dragged.
pub open spec fn split_delta(split: PositionedSplit, column: int, row: int) -> isize {
    match split.direction {
        SplitDirection::Horizontal => geometry::clip(column - split.left),
        SplitDirection::Vertical => geometry::clip(row - split.top),
    }
}

/// The index of the first entry for the pane, from entry `i` on.
pub open spec fn pane_index(panes: Seq<TabPane>, pane_id: usize, i: nat) -> Option<usize>
    decreases panes.len() - i,
{
    if i >= panes.len() {
        None
    } else if panes[i as int].pane_id == pane_id {
        Some(panes[i as int].index)
    } else {
        pane_index(panes, pane_id, i + 1)
    }
}

/// The index of a pane in its tab.
fn find_pane(panes: &Vec<TabPane>, pane_id: usize) -> (r: Option<usize>)
    ensures
        r == pane_index(panes@, pane_id, 0),
{
    let mut i: usize = 0;
    while i < panes.len()
        invariant
            i <= panes@.len(),
            pane_index(panes@, pane_id, 0) == pane_index(panes@, pane_id, i as nat),
        decreases panes@.len() - i,
    {
        if panes[i].pane_id == pane_id {
            return Some(panes[i].index);
        }
        i = i + 1;
    }
    None
}

impl TermWindow {
    /// What an event in the tab bar asks for, besides the cursor.
    pub open spec fn tab_bar_commands(self, item: TabBarItem, event: MouseEvent) -> Seq<Command> {
        match event.kind {
            MouseEventKind::Press(MousePress::Left) => match item {
                TabBarItem::Tab { tab_idx, .. } => seq![Command::ActivateTab { tab_idx, event }],
                TabBarItem::NewTabButton => seq![Command::NewTabButton(MousePress::Left)],
                TabBarItem::Blank | TabBarItem::LeftStatus | TabBarItem::RightStatus => (
                if self.has_window && self.config.integrated_buttons_and_resize
                    && self.last_mouse_click is Some && self.last_mouse_click->0.streak == 2 {
                    seq![toggle_maximized(self.maximized)]
                } else {
                    seq![]
                }).push(Command::RequestDragMove),
                TabBarItem::WindowButton(button) => if self.has_window {
                    seq![
                        match button {
                            IntegratedTitleButton::Hide => Command::HideWindow,
                            IntegratedTitleButton::Maximize => toggle_maximized(self.maximized),
                            IntegratedTitleButton::Close => Command::CloseRequested,
                        },
                    ]
                } else {
                    seq![]
                },
            },
            MouseEventKind::Press(MousePress::Middle) => match item {
                TabBarItem::Tab { tab_idx, .. } => seq![
                    Command::CloseTab { tab_idx, confirm: true },
                ],
                TabBarItem::NewTabButton => seq![Command::NewTabButton(MousePress::Middle)],
                _ => seq![],
            },
            MouseEventKind::Press(MousePress::Right) => match item {
                TabBarItem::Tab { .. } => seq![Command::ShowTabNavigator],
                TabBarItem::NewTabButton => seq![Command::NewTabButton(MousePress::Right)],
                _ => seq![],
            },
            MouseEventKind::Move => match item {
                TabBarItem::Blank | TabBarItem::LeftStatus | TabBarItem::RightStatus => seq![
                    Command::SetWindowDragPosition(event.screen_coords),
                ],
                TabBarItem::WindowButton(IntegratedTitleButton::Maximize) => seq![
                    Command::SetMaximizeButtonPosition(
                        termwindow::on_screen(self.last_ui_item->0, event),
                    ),
                ],
                _ => seq![],
            },
            MouseEventKind::VertWheel(n) => if self.config.mouse_wheel_scrolls_tabs {
                seq![
                    Command::ActivateTabRelative {
                        delta: if n < 1 {
                            1
                        } else {
                            (-1) as isize
                        },
                        wrap: true,
                    },
                ]
            } else {
                seq![]
            },
            _ => seq![],
        }
    }

    /// Whether the event starts a drag of the window itself.
    pub open spec fn grabs_window(self, item: TabBarItem, event: MouseEvent) -> bool {
        &&& termwindow::left_press(event)
        &&& item is Blank || item is LeftStatus || item is RightStatus
        &&& !self.maximized
    }

    /// An event in the tab bar.
    pub fn mouse_event_tab_bar(&mut self, item: TabBarItem, event: MouseEvent) -> (r: Vec<Command>)
        requires
            termwindow::over_maximize(item, event) ==> old(self).last_ui_item is Some
                && old(self).last_ui_item->0.well_formed() && termwindow::on_screen_fits(
                old(self).last_ui_item->0,
                event,
            ),
        ensures
            old(self).well_formed() ==> final(self).well_formed(),
            r@ == old(self).tab_bar_commands(item, event).push(
                Command::SetCursor(MouseCursor::Arrow),
            ),
            *final(self) == (TermWindow {
                window_drag_position: if old(self).grabs_window(item, event) {
                    Some(event)
                } else {
                    old(self).window_drag_position
                },
                ..*old(self)
            }),
    {
        let mut commands: Vec<Command> = Vec::new();
        match event.kind {
            MouseEventKind::Press(MousePress::Left) => match item {
                TabBarItem::Tab { tab_idx, .. } => {
                    commands.push(Command::ActivateTab { tab_idx, event });
                },
                TabBarItem::NewTabButton => {
                    commands.push(Command::NewTabButton(MousePress::Left));
                },
                TabBarItem::Blank | TabBarItem::LeftStatus | TabBarItem::RightStatus => {
                    let double_click = match self.last_mouse_click {
                        Some(click) => click.streak == 2,
                        None => false,
                    };
                    if self.has_window && self.config.integrated_buttons_and_resize
                        && double_click {
                        commands.push(
                            if self.maximized {
                                Command::RestoreWindow
                            } else {
                                Command::MaximizeWindow
                            },
                        );
                    }
                    // A drag of the window may be starting.
                    if !self.maximized {
                        self.window_drag_position = Some(event);
                    }
                    commands.push(Command::RequestDragMove);
                },
                TabBarItem::WindowButton(button) => {
                    if self.has_window {
                        commands.push(
                            match button {
                                IntegratedTitleButton::Hide => Command::HideWindow,
                                IntegratedTitleButton::Maximize => if self.maximized {
                                    Command::RestoreWindow
                                } else {
                                    Command::MaximizeWindow
                                },
                                IntegratedTitleButton::Close => Command::CloseRequested,
                            },
                        );
                    }
                },
            },
            MouseEventKind::Press(MousePress::Middle) => match item {
                TabBarItem::Tab { tab_idx, .. } => {
                    commands.push(Command::CloseTab { tab_idx, confirm: true });
                },
                TabBarItem::NewTabButton => {
                    commands.push(Command::NewTabButton(MousePress::Middle));
                },
                TabBarItem::Blank
                | TabBarItem::LeftStatus
                | TabBarItem::RightStatus
                | TabBarItem::WindowButton(_) => {},
            },
            MouseEventKind::Press(MousePress::Right) => match item {
                TabBarItem::Tab { .. } => {
                    commands.push(Command::ShowTabNavigator);
                },
                TabBarItem::NewTabButton => {
                    commands.push(Command::NewTabButton(MousePress::Right));
                },
                TabBarItem::Blank
                | TabBarItem::LeftStatus
                | TabBarItem::RightStatus
                | TabBarItem::WindowButton(_) => {},
            },
            MouseEventKind::Move => match item {
                TabBarItem::Blank | TabBarItem::LeftStatus | TabBarItem::RightStatus => {
                    commands.push(Command::SetWindowDragPosition(event.screen_coords));
                },
                TabBarItem::WindowButton(IntegratedTitleButton::Maximize) => {
                    if let Some(button) = self.last_ui_item {
                        let bounds = ScreenRect {
                            x: button.x as isize - (event.coords.x - event.screen_coords.x),
                            y: button.y as isize - (event.coords.y - event.screen_coords.y),
                            width: button.width as isize,
                            height: button.height as isize,
                        };
                        commands.push(Command::SetMaximizeButtonPosition(bounds));
                    }
                },
                TabBarItem::WindowButton(_)
                | TabBarItem::Tab { .. }
                | TabBarItem::NewTabButton => {},
            },
            MouseEventKind::VertWheel(n) => {
                if self.config.mouse_wheel_scrolls_tabs {
                    let delta: isize = if n < 1 {
                        1
                    } else {
                        -1
                    };
                    commands.push(Command::ActivateTabRelative { delta, wrap: true });
                }
            },
            _ => {},
        }
        let ghost asked = commands@;
        commands.push(Command::SetCursor(MouseCursor::Arrow));
        assert(asked =~= old(self).tab_bar_commands(item, event));
        commands
    }

    /// An event on the button that closes a tab.
    pub fn mouse_event_close_tab(&self, idx: usize, event: MouseEvent) -> (r: Vec<Command>)
        ensures
            r@ == (if termwindow::left_press(event) {
                seq![
                    Command::CloseTab { tab_idx: idx, confirm: true },
                    Command::SetCursor(MouseCursor::Arrow),
                ]
            } else {
                seq![Command::SetCursor(MouseCursor::Arrow)]
            }),
    {
        let mut commands: Vec<Command> = Vec::new();
        if event.kind == MouseEventKind::Press(MousePress::Left) {
            commands.push(Command::CloseTab { tab_idx: idx, confirm: true });
        }
        commands.push(Command::SetCursor(MouseCursor::Arrow));
        commands
    }

    /// The row that a page further up or down starts at.
    pub open spec fn page(self, pane: ActivePane, up: bool) -> isize {
        let top = if pane.viewport is Some {
            pane.viewport->0
        } else {
            pane.physical_top
        };
        geometry::clip(
            if up {
                top - self.rows
            } else {
                top + self.rows
            },
        )
    }

    /// What an event beside the scroll thumb asks for.
    pub open spec fn page_commands(
        self,
        pane: ActivePane,
        event: MouseEvent,
        up: bool,
    ) -> Seq<Command> {
        if termwindow::left_press(event) {
            seq![
                Command::SetViewport { pane_id: pane.pane_id, row: self.page(pane, up) },
                Command::Invalidate,
                Command::SetCursor(MouseCursor::Arrow),
            ]
        } else {
            seq![Command::SetCursor(MouseCursor::Arrow)]
        }
    }

    /// An event above the scroll thumb: a click goes one page up.
    pub fn mouse_event_above_scroll_thumb(&self, pane: ActivePane, event: MouseEvent) -> (r: Vec<
        Command,
    >)
        requires
            self.well_formed(),
        ensures
            r@ == self.page_commands(pane, event, true),
    {
        let mut commands: Vec<Command> = Vec::new();
        if event.kind == MouseEventKind::Press(MousePress::Left) {
            let top = match pane.viewport {
                Some(row) => row,
                None => pane.physical_top,
            };
            commands.push(
                Command::SetViewport {
                    pane_id: pane.pane_id,
                    row: difference(top, self.rows as isize),
                },
            );
            commands.push(Command::Invalidate);
        }
        commands.push(Command::SetCursor(MouseCursor::Arrow));
        commands
    }

    /// An event below the scroll thumb: a click goes one page down.
    pub fn mouse_event_below_scroll_thumb(&self, pane: ActivePane, event: MouseEvent) -> (r: Vec<
        Command,
    >)
        requires
            self.well_formed(),
        ensures
            r@ == self.page_commands(pane, event, false),
    {
        let mut commands: Vec<Command> = Vec::new();
        if event.kind == MouseEventKind::Press(MousePress::Left) {
            let top = match pane.viewport {
                Some(row) => row,
                None => pane.physical_top,
            };
            commands.push(
                Command::SetViewport {
                    pane_id: pane.pane_id,
                    row: sum(top, self.rows as isize),
                },
            );
            commands.push(Command::Invalidate);
        }
        commands.push(Command::SetCursor(MouseCursor::Arrow));
        commands
    }

    /// An event on the scroll thumb: a click starts to drag it.
    pub fn mouse_event_scroll_thumb(&mut self, item: UIItem, event: MouseEvent) -> (r: Vec<Command>)
        ensures
            old(self).well_formed() && item.well_formed() ==> final(self).well_formed(),
            r@ == seq![Command::SetCursor(MouseCursor::Arrow)],
            *final(self) == (TermWindow {
                dragging: if termwindow::left_press(event) {
                    Some((item, event))
                } else {
                    old(self).dragging
                },
                ..*old(self)
            }),
    {
        if event.kind == MouseEventKind::Press(MousePress::Left) {
            self.dragging = Some((item, event));
        }
        vec![Command::SetCursor(MouseCursor::Arrow)]
    }

    /// An event on the line between two panes: a click starts to drag it.
    pub fn mouse_event_split(
        &mut self,
        item: UIItem,
        split: PositionedSplit,
        event: MouseEvent,
    ) -> (r: Vec<Command>)
        ensures
            old(self).well_formed() && item.well_formed() ==> final(self).well_formed(),
            r@ == seq![Command::SetCursor(split_cursor(split.direction))],
            *final(self) == (TermWindow {
                dragging: if termwindow::left_press(event) {
                    Some((item, event))
                } else {
                    old(self).dragging
                },
                ..*old(self)
            }),
    {
        if event.kind == MouseEventKind::Press(MousePress::Left) {
            self.dragging = Some((item, event));
        }
        vec![
            Command::SetCursor(
                match split.direction {
                    SplitDirection::Horizontal => MouseCursor::SizeLeftRight,
                    SplitDirection::Vertical => MouseCursor::SizeUpDown,
                },
            ),
        ]
    }

    /// An event on the handle of a pane: a click starts to drag the pane.
    pub fn mouse_event_pane_drag_handle(&self, pane_id: usize, item: UIItem, event: MouseEvent) -> (r:
        Vec<Command>)
        ensures
            r@ == (if termwindow::left_press(event) {
                seq![
                    Command::SetCursor(MouseCursor::Hand),
                    Command::StartPaneDrag { pane_id, item, event },
                ]
            } else {
                seq![Command::SetCursor(MouseCursor::Hand)]
            }),
    {
        let mut commands: Vec<Command> = Vec::new();
        commands.push(Command::SetCursor(MouseCursor::Hand));
        if event.kind == MouseEventKind::Press(MousePress::Left) {
            commands.push(Command::StartPaneDrag { pane_id, item, event });
        }
        commands
    }

    /// Starts to drag a pane, unless it is in another window or in none. The
    /// pane gets the focus in its tab.
    pub fn start_pane_drag(
        &mut self,
        pane_id: usize,
        item: UIItem,
        event: MouseEvent,
        home: Option<PaneHome>,
        panes: &Vec<TabPane>,
        strip: Option<TabStrip>,
    ) -> (r: Vec<Command>)
        requires
            item.well_formed(),
        ensures
            old(self).well_formed() ==> final(self).well_formed(),
            ({
                let movable = home is Some && home->0.window_id == old(self).mux_window_id;
                let index = pane_index(panes@, pane_id, 0);
                &&& r@ == (if movable && index is Some {
                    seq![
                        Command::SetActivePaneOfTab { tab_id: home->0.tab_id, index: index->0 },
                    ]
                } else {
                    seq![]
                })
                &&& *final(self) == (TermWindow {
                    pane_drag: if movable {
                        Some(
                            PaneDragState {
                                pane_id,
                                source_tab_id: home->0.tab_id,
                                start_event: event,
                                grab_offset: item.offset(event.coords),
                                dragged_size: item.extent(),
                                current_coords: event.coords,
                                preview_window: None,
                                same_window_target_tab_id: if strip is Some {
                                    strip->0.substitute(home->0.tab_id)
                                } else {
                                    None
                                },
                                started: false,
                            },
                        )
                    } else {
                        old(self).pane_drag
                    },
                    ..*old(self)
                })
            }),
    {
        let mut commands: Vec<Command> = Vec::new();
        let home = match home {
            Some(home) => home,
            None => {
                return commands;
            },
        };
        if home.window_id != self.mux_window_id {
            return commands;
        }
        if let Some(index) = find_pane(panes, pane_id) {
            commands.push(Command::SetActivePaneOfTab { tab_id: home.tab_id, index });
        }
        let same_window_target_tab_id = match strip {
            Some(strip) => strip.substitute_for(home.tab_id),
            None => None,
        };
        self.pane_drag = Some(
            PaneDragState {
                pane_id,
                source_tab_id: home.tab_id,
                start_event: event,
                grab_offset: item.offset_of(event.coords),
                dragged_size: item.size(),
                current_coords: event.coords,
                preview_window: None,
                same_window_target_tab_id,
                started: false,
            },
        );
        commands
    }

    /// Starts to drag the tab that was just activated by a click.
    pub fn start_tab_drag(
        &mut self,
        tab_idx: usize,
        event: MouseEvent,
        hits: &Vec<bool>,
        strip: Option<TabStrip>,
    )
        requires
            old(self).well_formed(),
            hits@.len() == old(self).ui_items@.len(),
        ensures
            old(self).well_formed() ==> final(self).well_formed(),
            ({
                let item = termwindow::topmost(old(self).ui_items@, hits@);
                *final(self) == (TermWindow {
                    tab_drag: if strip is Some && tab_idx < strip->0.tabs@.len() {
                        let tab_id = strip->0.tabs@[tab_idx as int];
                        Some(
                            TabDragState {
                                tab_id,
                                start_event: event,
                                grab_offset: if item is Some {
                                    item->0.offset(event.coords)
                                } else {
                                    Point { x: 0, y: 0 }
                                },
                                dragged_size: if item is Some {
                                    item->0.extent()
                                } else {
                                    Size { width: 0, height: 0 }
                                },
                                current_coords: event.coords,
                                preview_window: None,
                                same_window_target_tab_id: strip->0.substitute(tab_id),
                                started: false,
                            },
                        )
                    } else {
                        old(self).tab_drag
                    },
                    ..*old(self)
                })
            }),
    {
        let (grab_offset, dragged_size) = match self.resolve_ui_item(hits) {
            Some(item) => (item.offset_of(event.coords), item.size()),
            None => (Point { x: 0, y: 0 }, Size { width: 0, height: 0 }),
        };
        if let Some(strip) = strip {
            if tab_idx < strip.tabs.len() {
                let tab_id = strip.tabs[tab_idx];
                self.tab_drag = Some(
                    TabDragState {
                        tab_id,
                        start_event: event,
                        grab_offset,
                        dragged_size,
                        current_coords: event.coords,
                        preview_window: None,
                        same_window_target_tab_id: strip.substitute_for(tab_id),
                        started: false,
                    },
                );
            }
        }
    }

    /// A click on the button for new tabs.
    pub fn do_new_tab_button_click(&self, pane: Option<usize>, button: MousePress) -> (r: Vec<
        Command,
    >)
        ensures
            r@ == (if pane is Some {
                seq![
                    Command::EmitNewTabButtonClick {
                        pane_id: pane->0,
                        button,
                        action: default_new_tab_action(button),
                    },
                ]
            } else {
                seq![]
            }),
    {
        match pane {
            Some(pane_id) => {
                let action = match button {
                    MousePress::Left => Some(NewTabAction::SpawnTab),
                    MousePress::Right => Some(NewTabAction::ShowLauncher),
                    MousePress::Middle => None,
                };
                vec![Command::EmitNewTabButtonClick { pane_id, button, action }]
            },
            None => Vec::new(),
        }
    }

    /// Drags the line between two panes. It stays grabbed while there is a tab.
    pub fn drag_split(
        &mut self,
        item: UIItem,
        split: PositionedSplit,
        start_event: MouseEvent,
        column: usize,
        row: i64,
        has_tab: bool,
    ) -> (r: Vec<Command>)
        requires
            split.left <= isize::MAX,
            split.top <= isize::MAX,
            column <= isize::MAX,
            isize::MIN <= row <= isize::MAX,
        ensures
            old(self).well_formed() && item.well_formed() ==> final(self).well_formed(),
            ({
                let delta = split_delta(split, column as int, row as int);
                &&& r@ == (if has_tab && delta != 0 {
                    seq![Command::ResizeSplit { index: split.index, delta, item, start_event }]
                } else {
                    seq![]
                })
                &&& *final(self) == (TermWindow {
                    dragging: if has_tab {
                        Some((item, start_event))
                    } else {
                        old(self).dragging
                    },
                    ..*old(self)
                })
            }),
            r@.len() == (if has_tab && (split.direction is Horizontal && column != split.left
                || split.direction is Vertical && row != split.top) {
                1nat
            } else {
                0
            }),
            r@.len() == 1 ==> (r@[0] matches Command::ResizeSplit { index, delta, .. } && index
                == split.index && (split.direction is Horizontal ==> split.left + delta == column)
                && (split.direction is Vertical ==> isize::MIN <= row - split.top ==> split.top
                + delta == row)),
    {
        if !has_tab {
            return Vec::new();
        }
        let delta: isize = match split.direction {
            SplitDirection::Horizontal => difference(column as isize, split.left as isize),
            SplitDirection::Vertical => difference(row as isize, split.top as isize),
        };
        self.dragging = Some((item, start_event));
        if delta != 0 {
            vec![Command::ResizeSplit { index: split.index, delta, item, start_event }]
        } else {
            Vec::new()
        }
    }

    /// Goes on dragging a split that was resized, from where it now is.
    pub fn split_resized(
        &mut self,
        item: UIItem,
        start_event: MouseEvent,
        split: Option<PositionedSplit>,
    ) -> (r: Vec<Command>)
        ensures
            old(self).well_formed() && item.well_formed() && (split is Some ==> split->0.left
                <= isize::MAX && split->0.top <= isize::MAX) ==> final(self).well_formed(),
            r@ == (if split is Some {
                seq![Command::Invalidate]
            } else {
                seq![]
            }),
            *final(self) == (TermWindow {
                dragging: Some(
                    (
                        UIItem {
                            item_type: if split is Some {
                                UIItemType::Split(split->0)
                            } else {
                                item.item_type
                            },
                            ..item
                        },
                        start_event,
                    ),
                ),
                ..*old(self)
            }),
    {
        let mut commands: Vec<Command> = Vec::new();
        let mut item = item;
        if let Some(split) = split {
            item.item_type = UIItemType::Split(split);
            commands.push(Command::Invalidate);
        }
        self.dragging = Some((item, start_event));
        commands
    }

    /// The pixel row that the scroll bar starts at.
    pub open spec fn scroll_top(self, frame: WindowFrame) -> int {
        (if self.show_tab_bar && !self.config.tab_bar_at_bottom {
            frame.tab_bar_height as int
        } else {
            0
        }) + frame.border_top
    }

    /// How much of the window's height lies below the scroll bar.
    pub open spec fn scroll_bottom(self, frame: WindowFrame) -> int {
        frame.border_bottom + (if self.show_tab_bar && self.config.tab_bar_at_bottom {
            frame.tab_bar_height as int
        } else {
            0
        })
    }

    /// Where the top of the thumb is dragged to, in pixels from the bar's top:
    /// the mouse keeps the place in the thumb that it grabbed.
    pub open spec fn thumb_top(
        self,
        item: UIItem,
        start_event: MouseEvent,
        event: MouseEvent,
        frame: WindowFrame,
    ) -> int {
        let from_top = geometry::clip(start_event.coords.y - item.y);
        let top = geometry::clip(event.coords.y - (self.scroll_top(frame) + from_top));
        if top > 0 {
            top as int
        } else {
            0
        }
    }

    /// How tall the scroll bar is.
    pub open spec fn track_height(self, frame: WindowFrame) -> int {
        let rest = self.pixel_height - (self.scroll_top(frame) + self.scroll_bottom(frame));
        if rest > 0 {
            rest
        } else {
            0
        }
    }

    /// The pixel row that the scroll bar starts at, and how tall it is.
    pub fn scroll_track(&self, frame: &WindowFrame) -> (r: (usize, usize))
        requires
            self.scroll_top(*frame) + self.scroll_bottom(*frame) <= usize::MAX,
        ensures
            r.0 == self.scroll_top(*frame),
            r.1 == self.track_height(*frame),
    {
        let y_offset: usize = if self.show_tab_bar && !self.config.tab_bar_at_bottom {
            frame.tab_bar_height + frame.border_top
        } else {
            frame.border_top
        };
        let bottom_bar_height: usize = if self.show_tab_bar && self.config.tab_bar_at_bottom {
            frame.tab_bar_height
        } else {
            0
        };
        let around: usize = y_offset + frame.border_bottom + bottom_bar_height;
        (y_offset, self.pixel_height.saturating_sub(around))
    }

    /// Drags the scroll thumb. It stays grabbed while there is a pane.
    pub fn drag_scroll_thumb(
        &mut self,
        item: UIItem,
        start_event: MouseEvent,
        event: MouseEvent,
        pane: Option<usize>,
        frame: WindowFrame,
    ) -> (r: Vec<Command>)
        requires
            item.well_formed(),
            old(self).scroll_top(frame) + old(self).scroll_bottom(frame) <= usize::MAX,
            old(self).scroll_top(frame) <= isize::MAX,
            old(self).scroll_top(frame) + geometry::clip(start_event.coords.y - item.y)
                <= isize::MAX,
        ensures
            old(self).well_formed() && item.well_formed() ==> final(self).well_formed(),
            r@ == (if pane is Some {
                seq![
                    Command::ScrollThumbTo {
                        pane_id: pane->0,
                        thumb_top: old(self).thumb_top(item, start_event, event, frame) as usize,
                        track_height: old(self).track_height(frame) as usize,
                    },
                    Command::Invalidate,
                ]
            } else {
                seq![]
            }),
            *final(self) == (TermWindow {
                dragging: if pane is Some {
                    Some((item, start_event))
                } else {
                    old(self).dragging
                },
                ..*old(self)
            }),
    {
        let pane_id = match pane {
            Some(pane_id) => pane_id,
            None => {
                return Vec::new();
            },
        };
        let (y_offset, track_height) = self.scroll_track(&frame);
        let from_top = difference(start_event.coords.y, item.y as isize);
        let top = difference(event.coords.y, y_offset as isize + from_top);
        let thumb_top: usize = if top > 0 {
            top as usize
        } else {
            0
        };
        self.dragging = Some((item, start_event));
        vec![Command::ScrollThumbTo { pane_id, thumb_top, track_height }, Command::Invalidate]
    }

    /// Drags a part of the window.
    pub fn drag_ui_item(
        &mut self,
        item: UIItem,
        start_event: MouseEvent,
        column: usize,
        row: i64,
        event: MouseEvent,
        has_tab: bool,
        pane: Option<usize>,
        frame: WindowFrame,
    ) -> (r: Vec<Command>)
        requires
            item.well_formed(),
            item.item_type is Split ==> column <= isize::MAX && isize::MIN <= row <= isize::MAX,
            item.item_type is ScrollThumb ==> old(self).scroll_top(frame)
                + old(self).scroll_bottom(frame) <= usize::MAX && old(self).scroll_top(frame)
                <= isize::MAX && old(self).scroll_top(frame) + geometry::clip(
                start_event.coords.y - item.y,
            ) <= isize::MAX,
        ensures
            old(self).well_formed() && item.well_formed() ==> final(self).well_formed(),
            match item.item_type {
                UIItemType::Split(split) => {
                    let delta = split_delta(split, column as int, row as int);
                    &&& r@ == (if has_tab && delta != 0 {
                        seq![Command::ResizeSplit { index: split.index, delta, item, start_event }]
                    } else {
                        seq![]
                    })
                    &&& *final(self) == (TermWindow {
                        dragging: if has_tab {
                            Some((item, start_event))
                        } else {
                            old(self).dragging
                        },
                        ..*old(self)
                    })
                },
                UIItemType::ScrollThumb => {
                    &&& r@ == (if pane is Some {
                        seq![
                            Command::ScrollThumbTo {
                                pane_id: pane->0,
                                thumb_top: old(self).thumb_top(
                                    item,
                                    start_event,
                                    event,
                                    frame,
                                ) as usize,
                                track_height: old(self).track_height(frame) as usize,
                            },
                            Command::Invalidate,
                        ]
                    } else {
                        seq![]
                    })
                    &&& *final(self) == (TermWindow {
                        dragging: if pane is Some {
                            Some((item, start_event))
                        } else {
                            old(self).dragging
                        },
                        ..*old(self)
                    })
                },
                _ => r@ == Seq::<Command>::empty() && *final(self) == *old(self),
            },
    {
        match item.item_type {
            UIItemType::Split(split) => self.drag_split(
                item,
                split,
                start_event,
                column,
                row,
                has_tab,
            ),
            UIItemType::ScrollThumb => self.drag_scroll_thumb(
                item,
                start_event,
                event,
                pane,
                frame,
            ),
            _ => Vec::new(),
        }
    }

    /// What an event on a part of the window asks for.
    pub open spec fn ui_item_commands(
        self,
        item: UIItem,
        pane: ActivePane,
        event: MouseEvent,
    ) -> Seq<Command> {
        match item.item_type {
            UIItemType::TabBar(bar) => (TermWindow {
                last_ui_item: Some(item),
                ..self
            }).tab_bar_commands(bar, event).push(Command::SetCursor(MouseCursor::Arrow)),
            UIItemType::AboveScrollThumb => self.page_commands(pane, event, true),
            UIItemType::BelowScrollThumb => self.page_commands(pane, event, false),
            UIItemType::ScrollThumb => seq![Command::SetCursor(MouseCursor::Arrow)],
            UIItemType::Split(split) => seq![Command::SetCursor(split_cursor(split.direction))],
            UIItemType::CloseTab(idx) => if termwindow::left_press(event) {
                seq![
                    Command::CloseTab { tab_idx: idx, confirm: true },
                    Command::SetCursor(MouseCursor::Arrow),
                ]
            } else {
                seq![Command::SetCursor(MouseCursor::Arrow)]
            },
            UIItemType::PaneDragHandle(pane_id) => if termwindow::left_press(event) {
                seq![
                    Command::SetCursor(MouseCursor::Hand),
                    Command::StartPaneDrag { pane_id, item, event },
                ]
            } else {
                seq![Command::SetCursor(MouseCursor::Hand)]
            },
        }
    }

    /// The window after an event on a part of it: the part is remembered, and a
    /// click may grab the window, a split or the scroll thumb.
    pub open spec fn after_ui_item(self, item: UIItem, event: MouseEvent) -> TermWindow {
        TermWindow {
            last_ui_item: Some(item),
            window_drag_position: match item.item_type {
                UIItemType::TabBar(bar) => if self.grabs_window(bar, event) {
                    Some(event)
                } else {
                    self.window_drag_position
                },
                _ => self.window_drag_position,
            },
            dragging: if (item.item_type is Split || item.item_type is ScrollThumb)
                && termwindow::left_press(event) {
                Some((item, event))
            } else {
                self.dragging
            },
            ..self
        }
    }

    /// An event on a part of the window.
    pub fn mouse_event_ui_item(&mut self, item: UIItem, pane: ActivePane, event: MouseEvent) -> (r:
        Vec<Command>)
        requires
            old(self).well_formed(),
            item.well_formed(),
            item.item_type is TabBar && termwindow::over_maximize(item.item_type->TabBar_0, event)
                ==> termwindow::on_screen_fits(item, event),
        ensures
            r@ == old(self).ui_item_commands(item, pane, event),
            *final(self) == old(self).after_ui_item(item, event),
            final(self).well_formed(),
    {
        self.last_ui_item = Some(item);
        match item.item_type {
            UIItemType::TabBar(bar) => self.mouse_event_tab_bar(bar, event),
            UIItemType::AboveScrollThumb => self.mouse_event_above_scroll_thumb(pane, event),
            UIItemType::ScrollThumb => self.mouse_event_scroll_thumb(item, event),
            UIItemType::BelowScrollThumb => self.mouse_event_below_scroll_thumb(pane, event),
            UIItemType::Split(split) => self.mouse_event_split(item, split, event),
            UIItemType::CloseTab(idx) => self.mouse_event_close_tab(idx, event),
            UIItemType::PaneDragHandle(pane_id) => self.mouse_event_pane_drag_handle(
                pane_id,
                item,
                event,
            ),
        }
    }
}

/// A page up and a page down lead back to where they started, as long as there
/// are that many rows.
pub proof fn pages_go_back(window: TermWindow, pane: ActivePane)
    requires
        window.well_formed(),
        pane.viewport is Some,
        isize::MIN <= pane.viewport->0 - window.rows,
        pane.viewport->0 + window.rows <= isize::MAX,
    ensures
        window.page(
            (ActivePane { viewport: Some(window.page(pane, true)), ..pane }),
            false,
        ) == pane.viewport->0,
        window.page(
            (ActivePane { viewport: Some(window.page(pane, false)), ..pane }),
            true,
        ) == pane.viewport->0,
{
}

/// The thumb moves by as much as the mouse does, as long as it stays below the
/// top of the bar.
pub proof fn a_thumb_follows_the_mouse(
    window: TermWindow,
    item: UIItem,
    start_event: MouseEvent,
    event: MouseEvent,
    frame: WindowFrame,
)
    requires
        item.well_formed(),
        window.scroll_top(frame) <= item.y,
        isize::MIN <= start_event.coords.y - item.y,
        item.y - window.scroll_top(frame) + (event.coords.y - start_event.coords.y) >= 0,
        item.y - window.scroll_top(frame) + (event.coords.y - start_event.coords.y)
            <= isize::MAX,
    ensures
        window.thumb_top(item, start_event, event, frame) == item.y - window.scroll_top(frame) + (
        event.coords.y - start_event.coords.y),
{
}

/// A split is moved by as much as takes it to the mouse: to its column if the panes
/// are side by side, to its row if they are one above the other. It is not moved
/// exactly if it is there already, and never away from the mouse.
pub proof fn a_dragged_split_goes_to_the_mouse(split: PositionedSplit, column: int, row: int)
    ensures
        ({
            let delta = split_delta(split, column, row);
            &&& split.direction is Horizontal ==> {
                &&& isize::MIN <= column - split.left <= isize::MAX ==> split.left + delta == column
                &&& delta == 0 <==> column == split.left
                &&& delta > 0 <==> column > split.left
            }
            &&& split.direction is Vertical ==> {
                &&& isize::MIN <= row - split.top <= isize::MAX ==> split.top + delta == row
                &&& delta == 0 <==> row == split.top
                &&& delta > 0 <==> row > split.top
            }
        }),
{
}

/// A click beside the scroll thumb goes up, or down, by as many rows as are shown,
/// from the row that is at the top. No other event scrolls.
pub proof fn a_page_is_what_is_shown(
    window: TermWindow,
    pane: ActivePane,
    event: MouseEvent,
    up: bool,
    top: int,
)
    requires
        pane.viewport is Some ==> top == pane.viewport->0,
        pane.viewport is None ==> top == pane.physical_top,
        isize::MIN <= top - window.rows,
        top + window.rows <= isize::MAX,
    ensures
        ({
            let commands = window.page_commands(pane, event, up);
            if event.kind == MouseEventKind::Press(MousePress::Left) {
                &&& commands.len() == 3
                &&& commands[0] matches Command::SetViewport { pane_id, row } && pane_id
                    == pane.pane_id && (up ==> row + window.rows == top) && (!up ==> row
                    - window.rows == top)
                &&& commands[1] == Command::Invalidate
                &&& commands[2] == Command::SetCursor(MouseCursor::Arrow)
            } else {
                commands == seq![Command::SetCursor(MouseCursor::Arrow)]
            }
        }),
{
}

/// Above and below the scroll bar are the borders, and the tab bar where it is
/// shown; the bar has the rest of the window's height.
pub proof fn the_scroll_bar_has_the_rest(window: TermWindow, frame: WindowFrame)
    ensures
        ({
            let above = window.scroll_top(frame);
            let below = window.scroll_bottom(frame);
            let height = window.track_height(frame);
            &&& window.show_tab_bar ==> above + below == frame.border_top + frame.border_bottom
                + frame.tab_bar_height
            &&& !window.show_tab_bar ==> above + below == frame.border_top + frame.border_bottom
            &&& window.config.tab_bar_at_bottom ==> above == frame.border_top
            &&& !window.config.tab_bar_at_bottom ==> below == frame.border_bottom
            &&& above + below <= window.pixel_height ==> above + height + below
                == window.pixel_height
            &&& above + below > window.pixel_height ==> height == 0
        }),
{
}

/// A thumb that is dragged above the top of the bar stays at the top.
pub proof fn a_thumb_stays_on_the_bar(
    window: TermWindow,
    item: UIItem,
    start_event: MouseEvent,
    event: MouseEvent,
    frame: WindowFrame,
)
    requires
        isize::MIN <= start_event.coords.y - item.y,
        event.coords.y - (start_event.coords.y - item.y) <= window.scroll_top(frame),
    ensures
        window.thumb_top(item, start_event, event, frame) == 0,
{
}

/// A click on a tab shows it with the left button and closes it with the middle one,
/// that tab and no other; the right button lists the tabs. A click on the button for
/// new tabs is handed on with the button that was pressed.
pub proof fn a_click_on_a_tab_is_about_that_tab(
    window: TermWindow,
    tab_idx: usize,
    active: bool,
    press: MousePress,
    event: MouseEvent,
)
    requires
        event.kind == MouseEventKind::Press(press),
    ensures
        ({
            let commands = window.tab_bar_commands(TabBarItem::Tab { tab_idx, active }, event);
            &&& commands.len() == 1
            &&& press is Left ==> commands[0] == (Command::ActivateTab { tab_idx, event })
            &&& press is Middle ==> commands[0] == (Command::CloseTab { tab_idx, confirm: true })
            &&& press is Right ==> commands[0] == Command::ShowTabNavigator
        }),
        window.tab_bar_commands(TabBarItem::NewTabButton, event) == seq![
            Command::NewTabButton(press),
        ],
        press is Left ==> default_new_tab_action(press) == Some(NewTabAction::SpawnTab),
        press is Right ==> default_new_tab_action(press) == Some(NewTabAction::ShowLauncher),
        press is Middle ==> default_new_tab_action(press) is None,
{
    let tab = window.tab_bar_commands(TabBarItem::Tab { tab_idx, active }, event);
    let button = window.tab_bar_commands(TabBarItem::NewTabButton, event);
    assert(tab.len() == 1);
    assert(button =~= seq![Command::NewTabButton(press)]);
}

/// The buttons of the window do what they say, once there is a window: a window that
/// is maximized is restored, and one that is not is maximized.
pub proof fn window_buttons_do_what_they_say(window: TermWindow, event: MouseEvent)
    requires
        event.kind == MouseEventKind::Press(MousePress::Left),
    ensures
        window.has_window ==> {
            &&& window.tab_bar_commands(
                TabBarItem::WindowButton(IntegratedTitleButton::Hide),
                event,
            ) == seq![Command::HideWindow]
            &&& window.tab_bar_commands(
                TabBarItem::WindowButton(IntegratedTitleButton::Close),
                event,
            ) == seq![Command::CloseRequested]
            &&& window.maximized ==> window.tab_bar_commands(
                TabBarItem::WindowButton(IntegratedTitleButton::Maximize),
                event,
            ) == seq![Command::RestoreWindow]
            &&& !window.maximized ==> window.tab_bar_commands(
                TabBarItem::WindowButton(IntegratedTitleButton::Maximize),
                event,
            ) == seq![Command::MaximizeWindow]
        },
        !window.has_window ==> forall|button: IntegratedTitleButton|
            #[trigger] window.tab_bar_commands(TabBarItem::WindowButton(button), event)
                == Seq::<Command>::empty(),
{
}

/// A click on the empty part of the tab bar or on a status asks to drag the window,
/// and grabs it unless it is maximized. A second click in a row, on a window with
/// buttons in the tab bar, maximizes or restores it first.
pub proof fn the_empty_bar_moves_the_window(
    window: TermWindow,
    item: TabBarItem,
    event: MouseEvent,
)
    requires
        item is Blank || item is LeftStatus || item is RightStatus,
        event.kind == MouseEventKind::Press(MousePress::Left),
    ensures
        ({
            let commands = window.tab_bar_commands(item, event);
            let twice = window.last_mouse_click is Some && window.last_mouse_click->0.streak == 2
                && window.has_window && window.config.integrated_buttons_and_resize;
            &&& commands.len() == (if twice {
                2nat
            } else {
                1
            })
            &&& commands.last() == Command::RequestDragMove
            &&& twice && window.maximized ==> commands[0] == Command::RestoreWindow
            &&& twice && !window.maximized ==> commands[0] == Command::MaximizeWindow
        }),
        window.grabs_window(item, event) <==> !window.maximized,
{
}

/// A movement over the empty part of the tab bar tells where on the screen the mouse
/// is, and one over the maximize button where on the screen the button is: as far
/// from the mouse as it is in the window, and as large.
pub proof fn movements_tell_where_on_the_screen(
    window: TermWindow,
    item: UIItem,
    event: MouseEvent,
)
    requires
        event.kind is Move,
        window.last_ui_item == Some(item),
        item.well_formed(),
        termwindow::on_screen_fits(item, event),
    ensures
        ({
            let commands = window.tab_bar_commands(
                TabBarItem::WindowButton(IntegratedTitleButton::Maximize),
                event,
            );
            &&& commands.len() == 1
            &&& commands[0] matches Command::SetMaximizeButtonPosition(rect) && rect.x
                - event.screen_coords.x == item.x - event.coords.x && rect.y
                - event.screen_coords.y == item.y - event.coords.y && rect.width == item.width
                && rect.height == item.height
        }),
        window.tab_bar_commands(TabBarItem::Blank, event) == seq![
            Command::SetWindowDragPosition(event.screen_coords),
        ],
        window.tab_bar_commands(TabBarItem::LeftStatus, event) == seq![
            Command::SetWindowDragPosition(event.screen_coords),
        ],
        window.tab_bar_commands(TabBarItem::RightStatus, event) == seq![
            Command::SetWindowDragPosition(event.screen_coords),
        ],
{
}

/// A wheel over the tab bar goes to the tab before with a turn up and to the next one
/// with a turn down, round the ends, where the settings say so; else it does nothing.
pub proof fn a_wheel_goes_from_tab_to_tab(
    window: TermWindow,
    item: TabBarItem,
    event: MouseEvent,
    n: i16,
)
    requires
        event.kind == MouseEventKind::VertWheel(n),
    ensures
        ({
            let commands = window.tab_bar_commands(item, event);
            &&& !window.config.mouse_wheel_scrolls_tabs ==> commands.len() == 0
            &&& window.config.mouse_wheel_scrolls_tabs ==> commands.len() == 1 && (commands[0]
                matches Command::ActivateTabRelative { delta, wrap } && wrap && (n > 0 ==> delta
                == -1) && (n < 0 ==> delta == 1) && (n == 0 ==> delta == 1))
        }),
{
}

/// Nothing in the tab bar reacts to a release or to a wheel that turns sideways.
pub proof fn the_tab_bar_ignores_the_rest(window: TermWindow, item: TabBarItem, event: MouseEvent)
    requires
        event.kind is Release || event.kind is HorzWheel,
    ensures
        window.tab_bar_commands(item, event).len() == 0,
        !window.grabs_window(item, event),
{
}

/// What an event on a part of the window asks for ends, or for a handle starts, with
/// the cursor of the part: arrows across the line between two panes, a hand on the
/// handle of a pane, and an arrow elsewhere. A click closes the tab whose button it
/// is on, and starts to drag the pane whose handle it is on; a movement does neither.
pub proof fn parts_have_their_cursors(
    window: TermWindow,
    item: UIItem,
    pane: ActivePane,
    event: MouseEvent,
)
    ensures
        ({
            let commands = window.ui_item_commands(item, pane, event);
            let click = event.kind == MouseEventKind::Press(MousePress::Left);
            match item.item_type {
                UIItemType::Split(split) => {
                    &&& split.direction is Horizontal ==> commands == seq![
                        Command::SetCursor(MouseCursor::SizeLeftRight),
                    ]
                    &&& split.direction is Vertical ==> commands == seq![
                        Command::SetCursor(MouseCursor::SizeUpDown),
                    ]
                },
                UIItemType::ScrollThumb => commands == seq![
                    Command::SetCursor(MouseCursor::Arrow),
                ],
                UIItemType::CloseTab(tab_idx) => {
                    &&& commands.last() == Command::SetCursor(MouseCursor::Arrow)
                    &&& click ==> commands.len() == 2 && commands[0] == (Command::CloseTab {
                        tab_idx,
                        confirm: true,
                    })
                    &&& !click ==> commands.len() == 1
                },
                UIItemType::PaneDragHandle(pane_id) => {
                    &&& commands.len() >= 1
                    &&& commands[0] == Command::SetCursor(MouseCursor::Hand)
                    &&& click ==> commands.len() == 2 && commands[1] == (Command::StartPaneDrag {
                        pane_id,
                        item,
                        event,
                    })
                    &&& !click ==> commands.len() == 1
                },
                UIItemType::AboveScrollThumb => commands == window.page_commands(pane, event, true),
                UIItemType::BelowScrollThumb => commands == window.page_commands(
                    pane,
                    event,
                    false,
                ),
                UIItemType::TabBar(bar) => {
                    &&& commands.len() >= 1
                    &&& commands.last() == Command::SetCursor(MouseCursor::Arrow)
                    &&& commands.drop_last() == (TermWindow {
                        last_ui_item: Some(item),
                        ..window
                    }).tab_bar_commands(bar, event)
                },
            }
        }),
{
    if let UIItemType::TabBar(bar) = item.item_type {
        let inner = (TermWindow { last_ui_item: Some(item), ..window }).tab_bar_commands(
            bar,
            event,
        );
        assert(inner.push(Command::SetCursor(MouseCursor::Arrow)).drop_last() =~= inner);
    }
}

/// The part under the mouse is remembered. A click on the line between two panes or
/// on the scroll thumb grabs it, and nothing else does; no event on a part touches the
/// tabs and panes that are being dragged, the buttons that are down, or the clicks.
pub proof fn a_click_grabs_what_it_is_on(window: TermWindow, item: UIItem, event: MouseEvent)
    ensures
        ({
            let after = window.after_ui_item(item, event);
            let click = event.kind == MouseEventKind::Press(MousePress::Left);
            &&& after.last_ui_item == Some(item)
            &&& click && (item.item_type is Split || item.item_type is ScrollThumb)
                ==> after.dragging == Some((item, event))
            &&& !click || !(item.item_type is Split || item.item_type is ScrollThumb)
                ==> after.dragging == window.dragging
            &&& click && !window.maximized && (item.item_type == UIItemType::TabBar(
                TabBarItem::Blank,
            ) || item.item_type == UIItemType::TabBar(TabBarItem::LeftStatus) || item.item_type
                == UIItemType::TabBar(TabBarItem::RightStatus)) ==> after.window_drag_position
                == Some(event)
            &&& !click || window.maximized || !(item.item_type is TabBar)
                ==> after.window_drag_position == window.window_drag_position
            &&& after.pane_drag == window.pane_drag && after.tab_drag == window.tab_drag
            &&& after.current_mouse_buttons == window.current_mouse_buttons
            &&& after.last_mouse_click == window.last_mouse_click
            &&& after.current_mouse_capture == window.current_mouse_capture
        }),
{
}

/// The index of a pane is the one that its first entry gives.
pub proof fn a_pane_has_the_index_of_its_entry(panes: Seq<TabPane>, pane_id: usize, i: nat)
    ensures
        match pane_index(panes, pane_id, i) {
            Some(index) => exists|k: int|
                i <= k < panes.len() && (#[trigger] panes[k]).pane_id == pane_id && panes[k].index
                    == index && forall|j: int|
                    i <= j < k ==> (#[trigger] panes[j]).pane_id != pane_id,
            None => forall|j: int|
                i <= j < panes.len() ==> (#[trigger] panes[j]).pane_id != pane_id,
        },
    decreases panes.len() - i,
{
    if i < panes.len() {
        if panes[i as int].pane_id != pane_id {
            a_pane_has_the_index_of_its_entry(panes, pane_id, i + 1);
            if let Some(index) = pane_index(panes, pane_id, i + 1) {
                let k = choose|k: int|
                    i + 1 <= k < panes.len() && (#[trigger] panes[k]).pane_id == pane_id
                        && panes[k].index == index && forall|j: int|
                        i + 1 <= j < k ==> (#[trigger] panes[j]).pane_id != pane_id;
                assert(panes[k].pane_id == pane_id);
            }
        } else {
            assert(panes[i as int].index == pane_index(panes, pane_id, i)->0);
        }
    }
}

} // verus!

//! What the window asks its surroundings to do.
//!
//! Every handler returns its commands in the order in which they are to be
//! carried out. A command that names a handler asks for that handler to be
//! called, with what it needs to know about the surroundings at that time,
//! before the commands behind it are carried out.

use vstd::prelude::*;
use crate::geometry::{Point, ScreenPoint, ScreenRect};
use crate::input::{
    ClickPosition, MouseEvent, MouseEventTrigger, MouseEventTriggerMods, MousePress,
    PaneMouseEvent,
};
use crate::ui::{DragDropSource, PaneDragState, SplitRequest, TabDragState, UIItem};

verus! {

/// The shape of the mouse cursor.
#[derive(Clone, Copy, Debug, PartialEq, Eq, Structural)]
pub enum MouseCursor {
    Arrow,
    Hand,
    SizeUpDown,
    SizeLeftRight,
    Text,
}

/// What a click on the button for new tabs does by default.
#[derive(Clone, Copy, Debug, PartialEq, Eq, Structural)]
pub enum NewTabAction {
    SpawnTab,
    ShowLauncher,
}

/// An event that is on its way to a pane.
#[derive(Clone, Copy, Debug, PartialEq, Eq, Structural)]
pub struct PaneMouse {
    pub pane_id: usize,
    /// Where in the pane it happened.
    pub position: ClickPosition,
    pub event: MouseEvent,
    /// Whether it may do more than move the mouse cursor.
    pub allow_action: bool,
    /// Whether it gave the pane the focus.
    pub is_click_to_focus_pane: bool,
}

/// What the window asks its surroundings to do.
#[allow(inconsistent_fields)]
#[derive(Clone, Copy, Debug, PartialEq, Eq, Structural)]
pub enum Command {
    /// Paint again, by way of the operations that came with the event.
    Invalidate,
    /// Paint again, by way of the window itself.
    InvalidateWindow,
    SetCursor(MouseCursor),
    UpdateTitle,
    UpdateTitlePostStatus,
    SetWindowPosition(ScreenPoint),
    RequestDragMove,
    SetWindowDragPosition(ScreenPoint),
    SetMaximizeButtonPosition(ScreenRect),
    HideWindow,
    MaximizeWindow,
    RestoreWindow,
    CloseRequested,
    /// Activate the tab, then start to drag it if that went well.
    ActivateTab { tab_idx: usize, event: MouseEvent },
    ActivateTabRelative { delta: isize, wrap: bool },
    CloseTab { tab_idx: usize, confirm: bool },
    ShowTabNavigator,
    /// Handle a click on the button for new tabs.
    NewTabButton(MousePress),
    /// Ask the user's script, then act.
    EmitNewTabButtonClick { pane_id: usize, button: MousePress, action: Option<NewTabAction> },
    /// Give a pane of the active tab the focus.
    SetActivePane { index: usize },
    /// Give a pane of a tab the focus.
    SetActivePaneOfTab { tab_id: usize, index: usize },
    /// Show a tab without remembering the one shown before.
    ActivateTabWithoutSaving { window_id: usize, index: usize },
    SetViewport { pane_id: usize, row: isize },
    /// Scroll so that the thumb's top is where it is dragged to.
    ScrollThumbTo { pane_id: usize, thumb_top: usize, track_height: usize },
    /// Resize a split, then go on dragging it.
    ResizeSplit { index: usize, delta: isize, item: UIItem, start_event: MouseEvent },
    /// Start to drag a pane.
    StartPaneDrag { pane_id: usize, item: UIItem, event: MouseEvent },
    DragPane { drag: PaneDragState, event: MouseEvent },
    FinishPaneDrag { drag: PaneDragState, event: MouseEvent },
    DragTab { drag: TabDragState, event: MouseEvent },
    /// Reorder the tabs under the dragged one, unless it would be dropped.
    SettleTabDrag { event: MouseEvent },
    FinishTabDrag { drag: TabDragState, event: MouseEvent },
    DragUiItem {
        item: UIItem,
        start_event: MouseEvent,
        column: usize,
        row: i64,
        event: MouseEvent,
    },
    UpdateDropPreview { source: DragDropSource, point: Point },
    /// Have another window show where the dragged thing would go.
    NotifyUpdatePreview { window: usize, source: DragDropSource, point: Point },
    /// Have another window show no such place any more.
    NotifyClearPreview { window: usize },
    /// Have another window take the pane.
    NotifyPaneDrop { window: usize, pane_id: usize, tab_id: usize, point: Point },
    /// Have another window take the tab.
    NotifyTabDrop {
        window: usize,
        tab_id: usize,
        point: Point,
        screen_point: ScreenPoint,
        grab_offset: Point,
    },
    DropPaneHere { source: DragDropSource, point: Point },
    DropTabHere { tab_id: usize, point: Point, screen_point: ScreenPoint, grab_offset: Point },
    /// Show the tab again that the drag started in.
    RestoreSourceTab { tab_id: usize },
    MoveTabToWindow { tab_id: usize, window_id: usize, index: usize },
    /// Move a tab into a split, or else next to the tabs of the window.
    MoveTabToSplit { tab_id: usize, target_pane_id: usize, request: SplitRequest },
    MovePaneToSplit { pane_id: usize, target_pane_id: usize, request: SplitRequest },
    MovePaneToTab { pane_id: usize, source_tab_id: usize, window_id: usize, index: usize },
    DetachPane {
        pane_id: usize,
        source_tab_id: usize,
        point: ScreenPoint,
        grab_offset: Point,
    },
    /// Make a tab of a pane, then place it at the index, if there is one.
    MovePaneToNewTab { pane_id: usize, window_id: Option<usize>, index: Option<usize> },
    MoveTabToNewWindow { tab_id: usize, position: ScreenPoint },
    FocusPane { pane_id: usize },
    /// Handle an event that is meant for the panes.
    Terminal {
        pane_id: usize,
        position: ClickPosition,
        event: MouseEvent,
        capture_mouse: bool,
    },
    /// Find the row of the scrollback that the event is on.
    LocateRow(PaneMouse),
    /// Note where in the pane the mouse is.
    SetMouseCoords { pane_id: usize, position: ClickPosition, stable_row: isize },
    ApplyHyperlinks { pane_id: usize, stable_row: isize },
    /// Find the link under the mouse, then handle the event.
    PaneEvent { mouse: PaneMouse, stable_row: isize },
    ScrollToBottom { pane_id: usize },
    /// Look up a mouse binding, then act on it or pass the event on.
    LookupMouse { mouse: PaneMouse, trigger: MouseEventTrigger, mods: MouseEventTriggerMods },
    /// Perform what the binding says.
    PerformBinding { pane_id: usize },
    /// Tell the program in the pane.
    SendMouse { pane_id: usize, event: PaneMouseEvent },
}

} // verus!

//! Dragging tabs and panes, and what happens when they are let go.

use vstd::prelude::*;
use crate::command::{Command, MouseCursor};
use crate::dropping;
use crate::dropping::DropScene;
use crate::geometry::{point_in_rect, Bounds, Point, ScreenPoint, Spot};
use crate::input::MouseEvent;
use crate::termwindow;
use crate::termwindow::TermWindow;
use crate::ui;
use crate::ui::{
    DragDropAction, DragDropPreview, DragDropSource, PaneDragState, TabBarItem, TabDragState,
    TabStrip, UIItemType,
};

verus! {

/// How far the mouse must go before a press becomes a drag, in pixels.
pub const DRAG_THRESHOLD_PIXELS: isize = 6;

/// A window of the program that is under the mouse.
#[derive(Clone, Copy, Debug, PartialEq, Eq, Structural)]
pub struct WindowTarget {
    pub mux_window_id: usize,
    /// The window, known by a number.
    pub window: usize,
    /// Where in the window the mouse is.
    pub spot: Spot,
}

/// What is known of the surroundings when something is dragged.
pub struct DragScene {
    /// Whether things can be dragged from window to window.
    pub cross_window: bool,
    /// The window under the mouse, as far as things can be dragged there.
    pub target: Option<WindowTarget>,
    /// Where the mouse is in this window's terms.
    pub here: Spot,
    pub tab_bar: Option<Bounds>,
    /// The tabs of this window.
    pub strip: Option<TabStrip>,
}

/// How far the mouse has gone, along the axis along which it has gone furthest.
pub open spec fn travel(start: MouseEvent, event: MouseEvent) -> int {
    let dx = event.screen_coords.x - start.screen_coords.x;
    let dy = event.screen_coords.y - start.screen_coords.y;
    let across = if dx < 0 {
        -dx
    } else {
        dx
    };
    let down = if dy < 0 {
        -dy
    } else {
        dy
    };
    if across > down {
        across
    } else {
        down
    }
}

/// Pixel positions can hold how far the mouse has gone.
pub open spec fn travel_fits(start: MouseEvent, event: MouseEvent) -> bool {
    &&& -isize::MAX <= event.screen_coords.x - start.screen_coords.x <= isize::MAX
    &&& -isize::MAX <= event.screen_coords.y - start.screen_coords.y <= isize::MAX
}

/// Whether a press that was not a drag yet is one now.
fn becomes_drag(start: &MouseEvent, event: &MouseEvent) -> (r: bool)
    requires
        travel_fits(*start, *event),
    ensures
        r == (travel(*start, *event) >= DRAG_THRESHOLD_PIXELS),
{
    let dx: isize = event.screen_coords.x - start.screen_coords.x;
    let dy: isize = event.screen_coords.y - start.screen_coords.y;
    let across: isize = if dx < 0 {
        -dx
    } else {
        dx
    };
    let down: isize = if dy < 0 {
        -dy
    } else {
        dy
    };
    if across > down {
        across >= DRAG_THRESHOLD_PIXELS
    } else {
        down >= DRAG_THRESHOLD_PIXELS
    }
}

/// A dragged pane at an event.
pub open spec fn pane_drag_at(drag: PaneDragState, event: MouseEvent) -> PaneDragState {
    PaneDragState {
        current_coords: event.coords,
        started: drag.started || travel(drag.start_event, event) >= DRAG_THRESHOLD_PIXELS,
        ..drag
    }
}

/// A dragged tab at an event.
pub open spec fn tab_drag_at(drag: TabDragState, event: MouseEvent) -> TabDragState {
    TabDragState {
        current_coords: event.coords,
        started: drag.started || travel(drag.start_event, event) >= DRAG_THRESHOLD_PIXELS,
        ..drag
    }
}

/// The other window that shows where the dragged thing would go.
pub open spec fn other_window(id: usize, scene: DragScene) -> Option<WindowTarget> {
    if scene.cross_window && scene.target is Some && scene.target->0.mux_window_id != id {
        scene.target
    } else {
        None
    }
}

/// What moving the preview from one window, or none, to another, or none, asks
/// for.
pub open spec fn preview_moves(
    before: Option<usize>,
    target: Option<WindowTarget>,
    source: DragDropSource,
) -> Seq<Command> {
    (if target is Some {
        seq![
            Command::NotifyUpdatePreview {
                window: target->0.window,
                source,
                point: target->0.spot.point,
            },
        ]
    } else {
        seq![]
    }) + (if before is Some && (target is None || before != Some(target->0.window)) {
        seq![Command::NotifyClearPreview { window: before->0 }]
    } else {
        seq![]
    })
}

/// What showing a tab of the window asks for, if it has the tab.
pub open spec fn show_tab(
    window_id: usize,
    strip: Option<TabStrip>,
    tab_id: Option<usize>,
) -> Seq<Command> {
    if strip is Some && tab_id is Some && ui::index_from(strip->0.tabs@, tab_id->0, 0) is Some {
        seq![
            Command::ActivateTabWithoutSaving {
                window_id,
                index: ui::index_from(strip->0.tabs@, tab_id->0, 0)->0,
            },
        ]
    } else {
        seq![]
    }
}

/// What showing a tab of the window asks for, if it has the tab.
fn show_tab_commands(window_id: usize, strip: &Option<TabStrip>, tab_id: Option<usize>) -> (r: Vec<
    Command,
>)
    ensures
        r@ == show_tab(window_id, *strip, tab_id),
{
    let mut commands: Vec<Command> = Vec::new();
    if let Some(strip) = strip {
        if let Some(tab_id) = tab_id {
            if let Some(index) = strip.index_of(tab_id) {
                commands.push(Command::ActivateTabWithoutSaving { window_id, index });
            }
        }
    }
    commands
}

/// Whether the spot is on the tab bar.
pub open spec fn over_bar(spot: Spot, tab_bar: Option<Bounds>) -> bool {
    tab_bar is Some && tab_bar->0.holds(spot)
}

/// Whether the spot is on the tab bar.
fn is_over_bar(spot: Spot, tab_bar: &Option<Bounds>) -> (r: bool)
    ensures
        r == over_bar(spot, *tab_bar),
{
    match tab_bar {
        Some(bounds) => point_in_rect(spot, *bounds),
        None => false,
    }
}

/// Where the top left corner of a new window goes, so that the mouse holds the
/// dragged thing at the same place.
pub open spec fn detached_at(point: ScreenPoint, grab_offset: Point) -> ScreenPoint {
    ScreenPoint {
        x: (point.x - grab_offset.x) as isize,
        y: (point.y - grab_offset.y) as isize,
    }
}

/// Pixel positions can hold where the new window goes.
pub open spec fn detach_fits(point: ScreenPoint, grab_offset: Point) -> bool {
    &&& isize::MIN <= point.x - grab_offset.x <= isize::MAX
    &&& isize::MIN <= point.y - grab_offset.y <= isize::MAX
}

/// A new window for a tab.
pub fn detach_tab_to_new_window(tab_id: usize, point: ScreenPoint, grab_offset: Point) -> (r: Vec<
    Command,
>)
    requires
        detach_fits(point, grab_offset),
    ensures
        r@ == seq![
            Command::MoveTabToNewWindow { tab_id, position: detached_at(point, grab_offset) },
        ],
{
    let position = ScreenPoint { x: point.x - grab_offset.x, y: point.y - grab_offset.y };
    vec![Command::MoveTabToNewWindow { tab_id, position }]
}

/// A new window for a pane: its tab moves whole if the pane is all it has.
/// `source_panes` is the number of panes of that tab.
pub fn detach_pane_to_new_window(
    pane_id: usize,
    source_tab_id: usize,
    point: ScreenPoint,
    grab_offset: Point,
    source_panes: Option<usize>,
) -> (r: Vec<Command>)
    requires
        source_panes == Some(1usize) ==> detach_fits(point, grab_offset),
    ensures
        r@ == (if source_panes == Some(1usize) {
            seq![
                Command::MoveTabToNewWindow {
                    tab_id: source_tab_id,
                    position: detached_at(point, grab_offset),
                },
            ]
        } else {
            seq![Command::MovePaneToNewTab { pane_id, window_id: None, index: None }]
        }),
{
    if let Some(count) = source_panes {
        if count == 1 {
            let position = ScreenPoint { x: point.x - grab_offset.x, y: point.y - grab_offset.y };
            return vec![Command::MoveTabToNewWindow { tab_id: source_tab_id, position }];
        }
    }
    vec![Command::MovePaneToNewTab { pane_id, window_id: None, index: None }]
}

/// A pane becomes a tab of a window: its tab moves whole if the pane is all it
/// has. `source_panes` is the number of panes of that tab.
pub fn move_pane_to_tab(
    pane_id: usize,
    source_tab_id: usize,
    destination_window_id: usize,
    destination_index: usize,
    source_panes: Option<usize>,
) -> (r: Vec<Command>)
    ensures
        r@ == (if source_panes == Some(1usize) {
            seq![
                Command::MoveTabToWindow {
                    tab_id: source_tab_id,
                    window_id: destination_window_id,
                    index: destination_index,
                },
            ]
        } else {
            seq![
                Command::MovePaneToNewTab {
                    pane_id,
                    window_id: Some(destination_window_id),
                    index: Some(destination_index),
                },
            ]
        }),
{
    if let Some(count) = source_panes {
        if count == 1 {
            return vec![
                Command::MoveTabToWindow {
                    tab_id: source_tab_id,
                    window_id: destination_window_id,
                    index: destination_index,
                },
            ];
        }
    }
    vec![
        Command::MovePaneToNewTab {
            pane_id,
            window_id: Some(destination_window_id),
            index: Some(destination_index),
        },
    ]
}

/// What is left to do when a pane became a tab: the tab is put in its place, if
/// it has one, and the pane gets the focus. `moved` is the new tab and the
/// window it is in, none if the move failed.
pub fn pane_moved_to_new_tab(
    pane_id: usize,
    moved: Option<(usize, usize)>,
    index: Option<usize>,
) -> (r: Vec<Command>)
    ensures
        r@ == (match moved {
            Some((tab_id, window_id)) => (if index is Some {
                seq![Command::MoveTabToWindow { tab_id, window_id, index: index->0 }]
            } else {
                seq![]
            }).push(Command::FocusPane { pane_id }),
            None => seq![],
        }),
{
    let mut commands: Vec<Command> = Vec::new();
    if let Some((tab_id, window_id)) = moved {
        if let Some(index) = index {
            commands.push(Command::MoveTabToWindow { tab_id, window_id, index });
        }
        commands.push(Command::FocusPane { pane_id });
    }
    commands
}

/// Shows the tab again that a drag started in. `window` is the window that
/// holds it, `strip` the tabs of that window.
pub fn restore_drag_source_tab(source_tab_id: usize, window: Option<usize>, strip: Option<TabStrip>) -> (r:
    Vec<Command>)
    ensures
        r@ == (if window is Some {
            show_tab(window->0, strip, Some(source_tab_id))
        } else {
            seq![]
        }),
{
    match window {
        Some(window_id) => show_tab_commands(window_id, &strip, Some(source_tab_id)),
        None => Vec::new(),
    }
}

impl TermWindow {
    /// Whether a point is in the window.
    pub open spec fn in_client(self, p: Point) -> bool {
        0 <= p.x < self.pixel_width && 0 <= p.y < self.pixel_height
    }

    /// Whether a point is in the window.
    pub fn point_is_in_client(&self, p: Point) -> (r: bool)
        requires
            self.well_formed(),
        ensures
            r == self.in_client(p),
    {
        p.x >= 0 && p.y >= 0 && p.x < self.pixel_width as isize && p.y
            < self.pixel_height as isize
    }

    /// Where in this window a dragged pane is, if it is over this window.
    pub open spec fn pane_spot(self, event: MouseEvent, scene: DragScene) -> Option<Spot> {
        if scene.cross_window {
            if scene.target is Some && scene.target->0.mux_window_id == self.mux_window_id {
                Some(scene.target->0.spot)
            } else {
                None
            }
        } else if self.in_client(event.coords) {
            Some(scene.here)
        } else {
            None
        }
    }

    /// Where in this window a dragged tab is, if it is over this window. Without
    /// drags from window to window that is not known.
    pub open spec fn tab_spot(self, scene: DragScene) -> Option<Spot> {
        if scene.cross_window && scene.target is Some && scene.target->0.mux_window_id
            == self.mux_window_id {
            Some(scene.target->0.spot)
        } else {
            None
        }
    }

    /// What clearing the preview asks for.
    pub open spec fn clearing(self) -> Seq<Command> {
        if self.drag_drop_preview is Some {
            self.repaint()
        } else {
            seq![]
        }
    }

    /// What dragging a pane asks for, once the drag has started: another tab is
    /// shown to drop on, and the preview follows the mouse.
    pub open spec fn pane_drag_commands(
        self,
        drag: PaneDragState,
        event: MouseEvent,
        scene: DragScene,
    ) -> Seq<Command> {
        let source = DragDropSource::Pane { pane_id: drag.pane_id, tab_id: drag.source_tab_id };
        let spot = self.pane_spot(event, scene);
        seq![Command::SetCursor(MouseCursor::Hand)] + preview_moves(
            drag.preview_window,
            other_window(self.mux_window_id, scene),
            source,
        ) + (match spot {
            Some(spot) => (if over_bar(spot, scene.tab_bar) {
                seq![]
            } else {
                show_tab(self.mux_window_id, scene.strip, drag.same_window_target_tab_id)
            }).push(Command::UpdateDropPreview { source, point: spot.point }),
            None => self.clearing(),
        }).push(Command::Invalidate)
    }

    /// Drags a pane. The drag goes on until the button is released.
    pub fn drag_pane(&mut self, drag: PaneDragState, event: MouseEvent, scene: &DragScene) -> (r:
        Vec<Command>)
        requires
            old(self).well_formed(),
            drag.started || travel_fits(drag.start_event, event),
        ensures
            final(self).well_formed(),
            ({
                let now = pane_drag_at(drag, event);
                let other = other_window(old(self).mux_window_id, *scene);
                if now.started {
                    &&& r@ == old(self).pane_drag_commands(drag, event, *scene)
                    &&& *final(self) == (TermWindow {
                        pane_drag: Some(
                            PaneDragState {
                                preview_window: if other is Some {
                                    Some(other->0.window)
                                } else {
                                    None
                                },
                                ..now
                            },
                        ),
                        drag_drop_preview: if old(self).pane_spot(event, *scene) is Some {
                            old(self).drag_drop_preview
                        } else {
                            None
                        },
                        ..*old(self)
                    })
                } else {
                    &&& r@ == Seq::<Command>::empty()
                    &&& *final(self) == (TermWindow { pane_drag: Some(now), ..*old(self) })
                }
            }),
    {
        let mut drag = drag;
        let ghost given = drag;
        drag.current_coords = event.coords;
        if !drag.started {
            drag.started = becomes_drag(&drag.start_event, &event);
        }
        let mut commands: Vec<Command> = Vec::new();
        if !drag.started {
            self.pane_drag = Some(drag);
            return commands;
        }
        commands.push(Command::SetCursor(MouseCursor::Hand));
        let source = DragDropSource::Pane { pane_id: drag.pane_id, tab_id: drag.source_tab_id };
        let mut preview_window: Option<usize> = None;
        let mut spot: Option<Spot> = None;
        if scene.cross_window {
            if let Some(target) = scene.target {
                if target.mux_window_id == self.mux_window_id {
                    spot = Some(target.spot);
                } else {
                    commands.push(
                        Command::NotifyUpdatePreview {
                            window: target.window,
                            source,
                            point: target.spot.point,
                        },
                    );
                    preview_window = Some(target.window);
                }
            }
        } else if self.point_is_in_client(event.coords) {
            spot = Some(scene.here);
        }
        if drag.preview_window != preview_window {
            if let Some(window) = drag.preview_window {
                commands.push(Command::NotifyClearPreview { window });
            }
            drag.preview_window = preview_window;
        }
        let ghost moved = commands@;
        assert(moved =~= seq![Command::SetCursor(MouseCursor::Hand)] + preview_moves(
            given.preview_window,
            other_window(old(self).mux_window_id, *scene),
            source,
        ));
        if let Some(spot) = spot {
            if !is_over_bar(spot, &scene.tab_bar) {
                let mut shown = show_tab_commands(
                    self.mux_window_id,
                    &scene.strip,
                    drag.same_window_target_tab_id,
                );
                commands.append(&mut shown);
            }
            commands.push(Command::UpdateDropPreview { source, point: spot.point });
        } else {
            let mut cleared = self.clear_drag_drop_preview();
            commands.append(&mut cleared);
        }
        commands.push(Command::Invalidate);
        assert(commands@ =~= old(self).pane_drag_commands(given, event, *scene));
        self.pane_drag = Some(drag);
        commands
    }

    /// What letting a pane go asks for: it is dropped in the window under the
    /// mouse, or gets a window of its own, or stays where it was.
    pub open spec fn pane_release(
        self,
        drag: PaneDragState,
        event: MouseEvent,
        cross_window: bool,
        target: Option<WindowTarget>,
    ) -> Command {
        let source = DragDropSource::Pane { pane_id: drag.pane_id, tab_id: drag.source_tab_id };
        if cross_window {
            if target is Some {
                if target->0.mux_window_id == self.mux_window_id {
                    Command::DropPaneHere { source, point: target->0.spot.point }
                } else {
                    Command::NotifyPaneDrop {
                        window: target->0.window,
                        pane_id: drag.pane_id,
                        tab_id: drag.source_tab_id,
                        point: target->0.spot.point,
                    }
                }
            } else {
                Command::DetachPane {
                    pane_id: drag.pane_id,
                    source_tab_id: drag.source_tab_id,
                    point: event.screen_coords,
                    grab_offset: drag.grab_offset,
                }
            }
        } else if self.in_client(event.coords) {
            Command::DropPaneHere { source, point: event.coords }
        } else {
            Command::RestoreSourceTab { tab_id: drag.source_tab_id }
        }
    }

    /// The preview of a drag that is over, in this window or another one, is
    /// cleared.
    pub open spec fn all_clearing(self, preview_window: Option<usize>) -> Seq<Command> {
        (if preview_window is Some {
            seq![Command::NotifyClearPreview { window: preview_window->0 }]
        } else {
            seq![]
        }) + self.clearing()
    }

    /// Lets a dragged pane go.
    pub fn finish_pane_drag(
        &mut self,
        drag: PaneDragState,
        event: MouseEvent,
        cross_window: bool,
        target: Option<WindowTarget>,
    ) -> (r: Vec<Command>)
        requires
            old(self).well_formed(),
        ensures
            final(self).well_formed(),
            r@ == old(self).all_clearing(drag.preview_window).push(
                old(self).pane_release(drag, event, cross_window, target),
            ),
            *final(self) == (TermWindow { drag_drop_preview: None, ..*old(self) }),
    {
        let mut commands: Vec<Command> = Vec::new();
        if let Some(window) = drag.preview_window {
            commands.push(Command::NotifyClearPreview { window });
        }
        let mut cleared = self.clear_drag_drop_preview();
        commands.append(&mut cleared);
        assert(commands@ =~= old(self).all_clearing(drag.preview_window));

        let source = DragDropSource::Pane { pane_id: drag.pane_id, tab_id: drag.source_tab_id };
        let release = if cross_window {
            match target {
                Some(target) => if target.mux_window_id == self.mux_window_id {
                    Command::DropPaneHere { source, point: target.spot.point }
                } else {
                    Command::NotifyPaneDrop {
                        window: target.window,
                        pane_id: drag.pane_id,
                        tab_id: drag.source_tab_id,
                        point: target.spot.point,
                    }
                },
                None => Command::DetachPane {
                    pane_id: drag.pane_id,
                    source_tab_id: drag.source_tab_id,
                    point: event.screen_coords,
                    grab_offset: drag.grab_offset,
                },
            }
        } else if self.point_is_in_client(event.coords) {
            Command::DropPaneHere { source, point: event.coords }
        } else {
            Command::RestoreSourceTab { tab_id: drag.source_tab_id }
        };
        commands.push(release);
        commands
    }

    /// What taking a pane asks for.
    pub open spec fn pane_acceptance(
        self,
        pane_id: usize,
        source_tab_id: usize,
        preview: Option<DragDropPreview>,
    ) -> Command {
        match preview {
            Some(p) => match p.action {
                DragDropAction::Merge { destination_index } => Command::MovePaneToTab {
                    pane_id,
                    source_tab_id,
                    window_id: self.mux_window_id,
                    index: destination_index,
                },
                DragDropAction::Split { target_pane_id, request } => Command::MovePaneToSplit {
                    pane_id,
                    target_pane_id,
                    request,
                },
            },
            None => Command::RestoreSourceTab { tab_id: source_tab_id },
        }
    }

    /// Takes a pane that is let go over a spot of this window.
    pub fn accept_pane_drop(
        &self,
        pane_id: usize,
        source_tab_id: usize,
        spot: Spot,
        scene: &DropScene,
    ) -> (r: Vec<Command>)
        requires
            self.well_formed(),
            scene.fits(*self),
        ensures
            r@ == seq![
                self.pane_acceptance(
                    pane_id,
                    source_tab_id,
                    self.preview(
                        (DragDropSource::Pane { pane_id, tab_id: source_tab_id }),
                        spot,
                        *scene,
                    ),
                ),
            ],
    {
        let source = DragDropSource::Pane { pane_id, tab_id: source_tab_id };
        match self.drop_preview_at(source, spot, scene) {
            Some(preview) => match preview.action {
                DragDropAction::Merge { destination_index } => vec![
                    Command::MovePaneToTab {
                        pane_id,
                        source_tab_id,
                        window_id: self.mux_window_id,
                        index: destination_index,
                    },
                ],
                DragDropAction::Split { target_pane_id, request } => vec![
                    Command::MovePaneToSplit { pane_id, target_pane_id, request },
                ],
            },
            None => vec![Command::RestoreSourceTab { tab_id: source_tab_id }],
        }
    }

    /// Takes a pane of this window that is let go over a spot of it. Where
    /// nothing can be dropped, the tab it came from is shown again.
    pub fn finish_local_pane_drop(&self, source: DragDropSource, spot: Spot, scene: &DropScene) -> (r:
        Vec<Command>)
        requires
            self.well_formed(),
            scene.fits(*self),
        ensures
            r@ == (match source {
                DragDropSource::Pane { pane_id, tab_id } => seq![
                    self.pane_acceptance(pane_id, tab_id, self.preview(source, spot, *scene)),
                ],
                DragDropSource::Tab(tab_id) => if self.preview(source, spot, *scene) is Some {
                    seq![]
                } else {
                    seq![Command::RestoreSourceTab { tab_id }]
                },
            }),
    {
        if self.drop_preview_at(source, spot, scene).is_some() {
            match source {
                DragDropSource::Pane { pane_id, tab_id } => self.accept_pane_drop(
                    pane_id,
                    tab_id,
                    spot,
                    scene,
                ),
                DragDropSource::Tab(_) => Vec::new(),
            }
        } else {
            vec![Command::RestoreSourceTab { tab_id: source.tab_id() }]
        }
    }

    /// What dragging a tab asks for, once the drag has started. Over the tab bar
    /// the tabs are reordered; elsewhere another tab is shown to drop on.
    pub open spec fn tab_drag_commands(
        self,
        drag: TabDragState,
        event: MouseEvent,
        scene: DragScene,
    ) -> Seq<Command> {
        let source = DragDropSource::Tab(drag.tab_id);
        let spot = self.tab_spot(scene);
        seq![Command::SetCursor(MouseCursor::Hand)] + preview_moves(
            drag.preview_window,
            other_window(self.mux_window_id, scene),
            source,
        ) + (if self.tab_can_drop(drag, scene) {
            show_tab(self.mux_window_id, scene.strip, drag.same_window_target_tab_id).push(
                Command::UpdateDropPreview { source, point: spot->0.point },
            )
        } else {
            self.clearing()
        }).push(Command::SettleTabDrag { event }).push(Command::Invalidate)
    }

    /// Whether a dragged tab is where it could be dropped on the panes of this
    /// window.
    pub open spec fn tab_can_drop(self, drag: TabDragState, scene: DragScene) -> bool {
        &&& self.tab_spot(scene) is Some
        &&& drag.same_window_target_tab_id is Some
        &&& !over_bar(self.tab_spot(scene)->0, scene.tab_bar)
    }

    /// Drags a tab. The drag goes on until the button is released.
    pub fn drag_tab(&mut self, drag: TabDragState, event: MouseEvent, scene: &DragScene) -> (r: Vec<
        Command,
    >)
        requires
            old(self).well_formed(),
            drag.started || travel_fits(drag.start_event, event),
        ensures
            final(self).well_formed(),
            ({
                let now = tab_drag_at(drag, event);
                let other = other_window(old(self).mux_window_id, *scene);
                if now.started {
                    &&& r@ == old(self).tab_drag_commands(drag, event, *scene)
                    &&& *final(self) == (TermWindow {
                        tab_drag: Some(
                            TabDragState {
                                preview_window: if other is Some {
                                    Some(other->0.window)
                                } else {
                                    None
                                },
                                ..now
                            },
                        ),
                        drag_drop_preview: if old(self).tab_can_drop(drag, *scene) {
                            old(self).drag_drop_preview
                        } else {
                            None
                        },
                        ..*old(self)
                    })
                } else {
                    &&& r@ == Seq::<Command>::empty()
                    &&& *final(self) == (TermWindow { tab_drag: Some(now), ..*old(self) })
                }
            }),
    {
        let mut drag = drag;
        let ghost given = drag;
        drag.current_coords = event.coords;
        if !drag.started {
            drag.started = becomes_drag(&drag.start_event, &event);
        }
        let mut commands: Vec<Command> = Vec::new();
        if !drag.started {
            self.tab_drag = Some(drag);
            return commands;
        }
        commands.push(Command::SetCursor(MouseCursor::Hand));
        let source = DragDropSource::Tab(drag.tab_id);
        let mut preview_window: Option<usize> = None;
        let mut spot: Option<Spot> = None;
        if scene.cross_window {
            if let Some(target) = scene.target {
                if target.mux_window_id != self.mux_window_id {
                    commands.push(
                        Command::NotifyUpdatePreview {
                            window: target.window,
                            source,
                            point: target.spot.point,
                        },
                    );
                    preview_window = Some(target.window);
                } else {
                    spot = Some(target.spot);
                }
            }
        }
        if drag.preview_window != preview_window {
            if let Some(window) = drag.preview_window {
                commands.push(Command::NotifyClearPreview { window });
            }
            drag.preview_window = preview_window;
        }
        let ghost moved = commands@;
        assert(moved =~= seq![Command::SetCursor(MouseCursor::Hand)] + preview_moves(
            given.preview_window,
            other_window(old(self).mux_window_id, *scene),
            source,
        ));
        let mut drop_at: Option<Spot> = None;
        if let Some(spot) = spot {
            if drag.same_window_target_tab_id.is_some() && !is_over_bar(spot, &scene.tab_bar) {
                drop_at = Some(spot);
            }
        }
        if let Some(spot) = drop_at {
            let mut shown = show_tab_commands(
                self.mux_window_id,
                &scene.strip,
                drag.same_window_target_tab_id,
            );
            commands.append(&mut shown);
            commands.push(Command::UpdateDropPreview { source, point: spot.point });
        } else {
            let mut cleared = self.clear_drag_drop_preview();
            commands.append(&mut cleared);
        }
        commands.push(Command::SettleTabDrag { event });
        commands.push(Command::Invalidate);
        assert(commands@ =~= old(self).tab_drag_commands(given, event, *scene));
        self.tab_drag = Some(drag);
        commands
    }

    /// Reorders the tabs under the dragged one, unless it would be dropped
    /// somewhere.
    pub fn settle_tab_drag(&self, hits: &Vec<bool>) -> (r: Vec<Command>)
        requires
            self.well_formed(),
            hits@.len() == self.ui_items@.len(),
        ensures
            ({
                let item = termwindow::topmost(self.ui_items@, hits@);
                r@ == (if self.tab_drag is Some && self.tab_drag->0.preview_window is None
                    && self.drag_drop_preview is None && item is Some && dropping::is_tab(
                    item->0,
                ) {
                    seq![
                        Command::MoveTabToWindow {
                            tab_id: self.tab_drag->0.tab_id,
                            window_id: self.mux_window_id,
                            index: dropping::tab_index(item->0),
                        },
                    ]
                } else {
                    seq![]
                })
            }),
    {
        let mut commands: Vec<Command> = Vec::new();
        if let Some(drag) = self.tab_drag {
            if drag.preview_window.is_none() && self.drag_drop_preview.is_none() {
                if let Some(item) = self.resolve_ui_item(hits) {
                    if let UIItemType::TabBar(TabBarItem::Tab { tab_idx, .. }) = item.item_type {
                        commands.push(
                            Command::MoveTabToWindow {
                                tab_id: drag.tab_id,
                                window_id: self.mux_window_id,
                                index: tab_idx,
                            },
                        );
                    }
                }
            }
        }
        commands
    }

    /// What letting a tab go asks for: it is dropped in the window under the
    /// mouse, or gets a window of its own. Without drags from window to window
    /// it stays where the drag has put it.
    pub open spec fn tab_release(
        self,
        drag: TabDragState,
        event: MouseEvent,
        cross_window: bool,
        target: Option<WindowTarget>,
    ) -> Seq<Command> {
        if !cross_window {
            seq![]
        } else if target is None {
            seq![
                Command::MoveTabToNewWindow {
                    tab_id: drag.tab_id,
                    position: detached_at(event.screen_coords, drag.grab_offset),
                },
            ]
        } else if target->0.mux_window_id == self.mux_window_id {
            seq![
                Command::DropTabHere {
                    tab_id: drag.tab_id,
                    point: target->0.spot.point,
                    screen_point: event.screen_coords,
                    grab_offset: drag.grab_offset,
                },
            ]
        } else {
            seq![
                Command::NotifyTabDrop {
                    window: target->0.window,
                    tab_id: drag.tab_id,
                    point: target->0.spot.point,
                    screen_point: event.screen_coords,
                    grab_offset: drag.grab_offset,
                },
            ]
        }
    }

    /// Lets a dragged tab go.
    pub fn finish_tab_drag(
        &mut self,
        drag: TabDragState,
        event: MouseEvent,
        cross_window: bool,
        target: Option<WindowTarget>,
    ) -> (r: Vec<Command>)
        requires
            old(self).well_formed(),
            cross_window && target is None ==> detach_fits(event.screen_coords, drag.grab_offset),
        ensures
            final(self).well_formed(),
            r@ == old(self).all_clearing(drag.preview_window) + old(self).tab_release(
                drag,
                event,
                cross_window,
                target,
            ),
            *final(self) == (TermWindow { drag_drop_preview: None, ..*old(self) }),
            cross_window && target is Some ==> r@.len() > 0 && match r@.last() {
                Command::DropTabHere { tab_id, point, .. } => target->0.mux_window_id == old(
                    self,
                ).mux_window_id && tab_id == drag.tab_id && point == target->0.spot.point,
                Command::NotifyTabDrop { window, tab_id, point, .. } => target->0.mux_window_id
                    != old(self).mux_window_id && window == target->0.window && tab_id
                    == drag.tab_id && point == target->0.spot.point,
                _ => false,
            },
    {
        let mut commands: Vec<Command> = Vec::new();
        if let Some(window) = drag.preview_window {
            commands.push(Command::NotifyClearPreview { window });
        }
        let mut cleared = self.clear_drag_drop_preview();
        commands.append(&mut cleared);
        assert(commands@ =~= old(self).all_clearing(drag.preview_window));
        if !cross_window {
            assert(commands@ + Seq::<Command>::empty() =~= commands@);
            return commands;
        }
        match target {
            Some(target) => {
                if target.mux_window_id == self.mux_window_id {
                    commands.push(
                        Command::DropTabHere {
                            tab_id: drag.tab_id,
                            point: target.spot.point,
                            screen_point: event.screen_coords,
                            grab_offset: drag.grab_offset,
                        },
                    );
                } else {
                    commands.push(
                        Command::NotifyTabDrop {
                            window: target.window,
                            tab_id: drag.tab_id,
                            point: target.spot.point,
                            screen_point: event.screen_coords,
                            grab_offset: drag.grab_offset,
                        },
                    );
                }
            },
            None => {
                let mut detached = detach_tab_to_new_window(
                    drag.tab_id,
                    event.screen_coords,
                    drag.grab_offset,
                );
                commands.append(&mut detached);
            },
        }
        commands
    }

    /// What taking a tab asks for.
    pub open spec fn tab_acceptance(
        self,
        tab_id: usize,
        screen_point: ScreenPoint,
        grab_offset: Point,
        preview: Option<DragDropPreview>,
    ) -> Command {
        match preview {
            Some(p) => match p.action {
                DragDropAction::Merge { destination_index } => Command::MoveTabToWindow {
                    tab_id,
                    window_id: self.mux_window_id,
                    index: destination_index,
                },
                DragDropAction::Split { target_pane_id, request } => Command::MoveTabToSplit {
                    tab_id,
                    target_pane_id,
                    request,
                },
            },
            None => Command::MoveTabToNewWindow {
                tab_id,
                position: detached_at(screen_point, grab_offset),
            },
        }
    }

    /// Takes a tab that is let go over a spot of this window. Where nothing can
    /// be dropped, the tab gets a window of its own.
    pub fn accept_tab_drop(
        &self,
        tab_id: usize,
        spot: Spot,
        screen_point: ScreenPoint,
        grab_offset: Point,
        scene: &DropScene,
    ) -> (r: Vec<Command>)
        requires
            self.well_formed(),
            scene.fits(*self),
            self.preview(DragDropSource::Tab(tab_id), spot, *scene) is None ==> detach_fits(
                screen_point,
                grab_offset,
            ),
        ensures
            r@ == seq![
                self.tab_acceptance(
                    tab_id,
                    screen_point,
                    grab_offset,
                    self.preview(DragDropSource::Tab(tab_id), spot, *scene),
                ),
            ],
    {
        match self.drop_preview_at(DragDropSource::Tab(tab_id), spot, scene) {
            Some(preview) => match preview.action {
                DragDropAction::Merge { destination_index } => vec![
                    Command::MoveTabToWindow {
                        tab_id,
                        window_id: self.mux_window_id,
                        index: destination_index,
                    },
                ],
                DragDropAction::Split { target_pane_id, request } => vec![
                    Command::MoveTabToSplit { tab_id, target_pane_id, request },
                ],
            },
            None => detach_tab_to_new_window(tab_id, screen_point, grab_offset),
        }
    }

    /// Takes a tab of this window that is let go over a spot of it. Where
    /// nothing can be dropped, the tab is shown again. `strip` holds the tabs of
    /// this window.
    pub fn finish_local_tab_drop(
        &self,
        tab_id: usize,
        spot: Spot,
        screen_point: ScreenPoint,
        grab_offset: Point,
        scene: &DropScene,
        strip: Option<TabStrip>,
    ) -> (r: Vec<Command>)
        requires
            self.well_formed(),
            scene.fits(*self),
        ensures
            ({
                let preview = self.preview(DragDropSource::Tab(tab_id), spot, *scene);
                r@ == (if preview is Some {
                    seq![self.tab_acceptance(tab_id, screen_point, grab_offset, preview)]
                } else {
                    show_tab(self.mux_window_id, strip, Some(tab_id))
                })
            }),
    {
        if self.drop_preview_at(DragDropSource::Tab(tab_id), spot, scene).is_some() {
            self.accept_tab_drop(tab_id, spot, screen_point, grab_offset, scene)
        } else {
            show_tab_commands(self.mux_window_id, &strip, Some(tab_id))
        }
    }

    /// A tab that could not be moved into a split goes behind the tabs of the
    /// window, of which there are `window_len`.
    pub fn tab_split_failed(&self, tab_id: usize, window_len: Option<usize>) -> (r: Vec<Command>)
        ensures
            r@ == seq![
                Command::MoveTabToWindow {
                    tab_id,
                    window_id: self.mux_window_id,
                    index: if window_len is Some {
                        window_len->0
                    } else {
                        0
                    },
                },
            ],
    {
        let index = match window_len {
            Some(len) => len,
            None => 0,
        };
        vec![Command::MoveTabToWindow { tab_id, window_id: self.mux_window_id, index }]
    }
}

/// A drag that has started stays started, wherever the mouse goes; a press is a
/// drag once the mouse is six pixels away along either axis, and not before.
pub proof fn a_drag_stays_started(
    drag: PaneDragState,
    tab: TabDragState,
    event: MouseEvent,
    later: MouseEvent,
)
    ensures
        drag.started ==> pane_drag_at(drag, event).started,
        tab.started ==> tab_drag_at(tab, event).started,
        pane_drag_at(drag, event).started ==> pane_drag_at(
            pane_drag_at(drag, event),
            later,
        ).started,
        tab_drag_at(tab, event).started ==> tab_drag_at(tab_drag_at(tab, event), later).started,
        !drag.started ==> (pane_drag_at(drag, event).started <==> travel(drag.start_event, event)
            >= 6),
        !tab.started ==> (tab_drag_at(tab, event).started <==> travel(tab.start_event, event)
            >= 6),
{
}

/// A pane that is let go goes somewhere: there is one command for it, and a pane
/// is detached only where panes can be dragged from window to window.
pub proof fn a_pane_always_lands(
    window: TermWindow,
    drag: PaneDragState,
    event: MouseEvent,
    cross_window: bool,
    target: Option<WindowTarget>,
)
    ensures
        ({
            let release = window.pane_release(drag, event, cross_window, target);
            &&& release is DropPaneHere || release is NotifyPaneDrop || release is DetachPane
                || release is RestoreSourceTab
            &&& release is DetachPane ==> cross_window && target is None
            &&& release is RestoreSourceTab ==> !cross_window && !window.in_client(event.coords)
        }),
{
}

/// A drop does what the preview showed: a pane and a tab alike become a tab at
/// the index of the marker, or share the pane under the preview.
pub proof fn a_drop_does_what_was_shown(
    window: TermWindow,
    pane_id: usize,
    tab_id: usize,
    screen_point: ScreenPoint,
    grab_offset: Point,
    preview: DragDropPreview,
)
    ensures
        match preview.action {
            DragDropAction::Merge { destination_index } => {
                &&& window.pane_acceptance(pane_id, tab_id, Some(preview)) == (
                Command::MovePaneToTab {
                    pane_id,
                    source_tab_id: tab_id,
                    window_id: window.mux_window_id,
                    index: destination_index,
                })
                &&& window.tab_acceptance(tab_id, screen_point, grab_offset, Some(preview)) == (
                Command::MoveTabToWindow {
                    tab_id,
                    window_id: window.mux_window_id,
                    index: destination_index,
                })
            },
            DragDropAction::Split { target_pane_id, request } => {
                &&& window.pane_acceptance(pane_id, tab_id, Some(preview)) == (
                Command::MovePaneToSplit { pane_id, target_pane_id, request })
                &&& window.tab_acceptance(tab_id, screen_point, grab_offset, Some(preview)) == (
                Command::MoveTabToSplit { tab_id, target_pane_id, request })
            },
        },
        window.pane_acceptance(pane_id, tab_id, None) == (Command::RestoreSourceTab { tab_id }),
{
}

/// While something is dragged, at most one window shows where it would go: this
/// one only while the mouse is in it, another one only while the mouse is there.
pub proof fn one_window_shows_the_drop(
    window: TermWindow,
    drag: TabDragState,
    event: MouseEvent,
    scene: DragScene,
)
    ensures
        other_window(window.mux_window_id, scene) is Some ==> window.pane_spot(event, scene) is None
            && window.tab_spot(scene) is None && !window.tab_can_drop(drag, scene),
{
}

/// A tab that is let go over a window is dropped there at the very point at which the
/// previews of its drag are shown: this window takes it itself, another one is told
/// to. What else it hands on is the tab's own: its id, where on the screen the mouse
/// is, and where the mouse holds the tab.
pub proof fn a_tab_lands_where_it_was_shown(
    window: TermWindow,
    drag: TabDragState,
    event: MouseEvent,
    scene: DragScene,
    target: WindowTarget,
)
    requires
        scene.cross_window,
        scene.target == Some(target),
    ensures
        ({
            let here = target.mux_window_id == window.mux_window_id;
            let release = window.tab_release(drag, event, true, Some(target));
            let shown = window.tab_drag_commands(drag, event, scene);
            &&& release.len() == 1
            &&& here ==> release[0] == (Command::DropTabHere {
                tab_id: drag.tab_id,
                point: target.spot.point,
                screen_point: event.screen_coords,
                grab_offset: drag.grab_offset,
            })
            &&& !here ==> release[0] == (Command::NotifyTabDrop {
                window: target.window,
                tab_id: drag.tab_id,
                point: target.spot.point,
                screen_point: event.screen_coords,
                grab_offset: drag.grab_offset,
            })
            &&& forall|i: int|
                0 <= i < shown.len() ==> match #[trigger] shown[i] {
                    Command::UpdateDropPreview { source, point } => here && point
                        == target.spot.point && source == DragDropSource::Tab(drag.tab_id),
                    Command::NotifyUpdatePreview { window: other, source, point } => !here && point
                        == target.spot.point && source == DragDropSource::Tab(drag.tab_id) && other
                        == target.window,
                    _ => true,
                }
            &&& !here ==> shown.len() > 1 && shown[1] is NotifyUpdatePreview
            &&& here && drag.same_window_target_tab_id is Some && !over_bar(
                target.spot,
                scene.tab_bar,
            ) ==> shown.len() > 3 && shown[shown.len() - 3] is UpdateDropPreview
        }),
{
    let shown = window.tab_drag_commands(drag, event, scene);
    let source = DragDropSource::Tab(drag.tab_id);
    let moves = preview_moves(
        drag.preview_window,
        other_window(window.mux_window_id, scene),
        source,
    );
    assert(shown[0] == Command::SetCursor(MouseCursor::Hand));
    if target.mux_window_id != window.mux_window_id {
        assert(shown[1] == moves[0]);
    }
}

/// A pane that is let go over a window is dropped there at the very point at which the
/// previews of its drag are shown. Where panes are not dragged from window to window,
/// it is dropped at the mouse while that is in the window.
pub proof fn a_pane_lands_where_it_was_shown(
    window: TermWindow,
    drag: PaneDragState,
    event: MouseEvent,
    scene: DragScene,
    target: WindowTarget,
)
    ensures
        ({
            let source = DragDropSource::Pane { pane_id: drag.pane_id, tab_id: drag.source_tab_id };
            let here = target.mux_window_id == window.mux_window_id;
            let inside = 0 <= event.coords.x < window.pixel_width && 0 <= event.coords.y
                < window.pixel_height;
            let shown = window.pane_drag_commands(drag, event, scene);
            &&& here ==> window.pane_release(drag, event, true, Some(target)) == (
            Command::DropPaneHere { source, point: target.spot.point })
            &&& !here ==> window.pane_release(drag, event, true, Some(target)) == (
            Command::NotifyPaneDrop {
                window: target.window,
                pane_id: drag.pane_id,
                tab_id: drag.source_tab_id,
                point: target.spot.point,
            })
            &&& window.pane_release(drag, event, true, None) == (Command::DetachPane {
                pane_id: drag.pane_id,
                source_tab_id: drag.source_tab_id,
                point: event.screen_coords,
                grab_offset: drag.grab_offset,
            })
            &&& inside ==> window.pane_release(drag, event, false, scene.target) == (
            Command::DropPaneHere { source, point: event.coords })
            &&& !inside ==> window.pane_release(drag, event, false, scene.target) == (
            Command::RestoreSourceTab { tab_id: drag.source_tab_id })
            &&& forall|i: int|
                0 <= i < shown.len() ==> match #[trigger] shown[i] {
                    Command::UpdateDropPreview { source: dragged, point } => dragged == source
                        && if scene.cross_window {
                        scene.target is Some && scene.target->0.mux_window_id
                            == window.mux_window_id && point == scene.target->0.spot.point
                    } else {
                        inside && point == scene.here.point
                    },
                    Command::NotifyUpdatePreview { window: other, source: dragged, point } => {
                        &&& scene.cross_window && scene.target is Some
                        &&& scene.target->0.mux_window_id != window.mux_window_id
                        &&& other == scene.target->0.window
                        &&& dragged == source
                        &&& point == scene.target->0.spot.point
                    },
                    _ => true,
                }
            &&& scene.cross_window && scene.target == Some(target) && !here ==> shown.len() > 1
                && shown[1] is NotifyUpdatePreview
            &&& scene.cross_window && scene.target == Some(target) && here ==> shown.len() > 2
                && shown[shown.len() - 2] is UpdateDropPreview
            &&& !scene.cross_window && inside ==> shown.len() > 2 && shown[shown.len() - 2]
                is UpdateDropPreview
        }),
{
    let shown = window.pane_drag_commands(drag, event, scene);
    let source = DragDropSource::Pane { pane_id: drag.pane_id, tab_id: drag.source_tab_id };
    let moves = preview_moves(
        drag.preview_window,
        other_window(window.mux_window_id, scene),
        source,
    );
    assert(shown[0] == Command::SetCursor(MouseCursor::Hand));
    if moves.len() > 0 {
        assert(shown[1] == moves[0]);
    }
}

/// A tab that is let go outside of all windows gets one of its own, placed so that
/// the mouse holds the tab where it did; one that no window takes does, too. Where
/// tabs are not dragged from window to window, nothing is left to do.
pub proof fn a_new_window_is_under_the_mouse(
    window: TermWindow,
    drag: TabDragState,
    event: MouseEvent,
    target: Option<WindowTarget>,
)
    requires
        detach_fits(event.screen_coords, drag.grab_offset),
    ensures
        ({
            let release = window.tab_release(drag, event, true, None);
            &&& release.len() == 1
            &&& release[0] matches Command::MoveTabToNewWindow { tab_id, position } && tab_id
                == drag.tab_id && position.x + drag.grab_offset.x == event.screen_coords.x
                && position.y + drag.grab_offset.y == event.screen_coords.y
        }),
        window.tab_release(drag, event, false, target).len() == 0,
        window.tab_acceptance(drag.tab_id, event.screen_coords, drag.grab_offset, None)
            matches Command::MoveTabToNewWindow { tab_id, position } && tab_id == drag.tab_id
            && position.x + drag.grab_offset.x == event.screen_coords.x && position.y
            + drag.grab_offset.y == event.screen_coords.y,
{
}

/// Where a new window goes: its corner is as far from the mouse as the mouse is from
/// the corner of the dragged thing.
pub proof fn a_detached_thing_is_held_as_before(point: ScreenPoint, grab_offset: Point)
    requires
        detach_fits(point, grab_offset),
    ensures
        detached_at(point, grab_offset).x + grab_offset.x == point.x,
        detached_at(point, grab_offset).y + grab_offset.y == point.y,
{
}

/// While a preview moves, the window that it leaves is told so, and no other: never
/// the one that shows it now.
pub proof fn previews_are_cleared_where_they_were(
    before: Option<usize>,
    target: Option<WindowTarget>,
    source: DragDropSource,
)
    ensures
        ({
            let moves = preview_moves(before, target, source);
            let stays = target is Some && before == Some(target->0.window);
            &&& forall|i: int|
                0 <= i < moves.len() ==> match #[trigger] moves[i] {
                    Command::NotifyClearPreview { window } => before == Some(window) && !stays,
                    Command::NotifyUpdatePreview { window, source: dragged, point } => target
                        is Some && window == target->0.window && dragged == source && point
                        == target->0.spot.point,
                    _ => false,
                }
            &&& moves.len() == (if target is Some {
                1int
            } else {
                0
            }) + (if before is Some && !stays {
                1int
            } else {
                0
            })
            &&& before is Some && !stays ==> moves.last() is NotifyClearPreview
            &&& target is Some ==> moves[0] is NotifyUpdatePreview
        }),
{
}

/// A drag that is over leaves no preview: the other window that showed one is told,
/// and this one is painted if it did. So is this one when the mouse leaves it.
pub proof fn no_preview_is_left(window: TermWindow, preview_window: Option<usize>)
    ensures
        ({
            let commands = window.all_clearing(preview_window);
            let paints = window.drag_drop_preview is Some && window.has_window;
            &&& preview_window is Some ==> commands.len() >= 1 && commands[0] == (
            Command::NotifyClearPreview { window: preview_window->0 })
            &&& paints ==> commands.len() >= 1 && commands.last() == Command::InvalidateWindow
            &&& commands.len() == (if preview_window is Some {
                1int
            } else {
                0
            }) + (if paints {
                1int
            } else {
                0
            })
        }),
{
}

/// A press becomes a drag once the mouse is six pixels away, to either side or up or
/// down, on the screen; until the button comes up all else stays as it was when the
/// drag began, but for where the mouse is.
pub proof fn six_pixels_make_a_drag(pane: PaneDragState, tab: TabDragState, event: MouseEvent)
    requires
        pane.start_event == tab.start_event,
    ensures
        ({
            let from = pane.start_event.screen_coords;
            let to = event.screen_coords;
            let far = to.x - from.x >= 6 || from.x - to.x >= 6 || to.y - from.y >= 6 || from.y
                - to.y >= 6;
            let now = pane_drag_at(pane, event);
            let tab_now = tab_drag_at(tab, event);
            &&& now.started <==> pane.started || far
            &&& tab_now.started <==> tab.started || far
            &&& now.current_coords == event.coords && tab_now.current_coords == event.coords
            &&& (PaneDragState {
                started: pane.started,
                current_coords: pane.current_coords,
                ..now
            }) == pane
            &&& (TabDragState {
                started: tab.started,
                current_coords: tab.current_coords,
                ..tab_now
            }) == tab
        }),
{
}

/// Showing a tab of a window is showing it at the index at which the window has it.
/// A tab that the window does not have is not shown.
pub proof fn a_shown_tab_is_the_one_meant(
    window_id: usize,
    strip: TabStrip,
    tab_id: usize,
)
    requires
        strip.tabs@.len() <= usize::MAX,
    ensures
        ({
            let commands = show_tab(window_id, Some(strip), Some(tab_id));
            &&& strip.tabs@.contains(tab_id) ==> commands.len() == 1
            &&& !strip.tabs@.contains(tab_id) ==> commands.len() == 0
            &&& commands.len() == 1 ==> (commands[0] matches Command::ActivateTabWithoutSaving {
                window_id: shown_in,
                index,
            } && shown_in == window_id && index < strip.tabs@.len() && strip.tabs@[index as int]
                == tab_id)
        }),
        show_tab(window_id, None, Some(tab_id)).len() == 0,
        show_tab(window_id, Some(strip), None).len() == 0,
{
    ui::index_is_the_first(strip.tabs@, tab_id, 0);
    if strip.tabs@.contains(tab_id) {
        let k = strip.tabs@.index_of(tab_id);
        assert(strip.tabs@[k] == tab_id);
    }
}

/// The cursor of a drag is a hand, and what it asks for ends with painting. A tab is
/// settled under the tabs just before. The tab that is shown to drop on is the one
/// chosen when the drag began, in this window, and only while the mouse is in this
/// window and off the tab bar.
pub proof fn a_drag_shows_its_target(
    window: TermWindow,
    pane: PaneDragState,
    tab: TabDragState,
    event: MouseEvent,
    scene: DragScene,
)
    requires
        scene.strip is Some ==> scene.strip->0.tabs@.len() <= usize::MAX,
    ensures
        ({
            let panes = window.pane_drag_commands(pane, event, scene);
            let tabs = window.tab_drag_commands(tab, event, scene);
            &&& panes.len() >= 2 && tabs.len() >= 3
            &&& panes[0] == Command::SetCursor(MouseCursor::Hand)
            &&& tabs[0] == Command::SetCursor(MouseCursor::Hand)
            &&& panes.last() == Command::Invalidate && tabs.last() == Command::Invalidate
            &&& tabs[tabs.len() - 2] == (Command::SettleTabDrag { event })
            &&& forall|i: int|
                0 <= i < panes.len() ==> match #[trigger] panes[i] {
                    Command::ActivateTabWithoutSaving { window_id, index } => {
                        &&& window_id == window.mux_window_id
                        &&& scene.strip is Some && index < scene.strip->0.tabs@.len()
                        &&& pane.same_window_target_tab_id == Some(
                            scene.strip->0.tabs@[index as int],
                        )
                        &&& panes[i + 1] is UpdateDropPreview
                    },
                    _ => true,
                }
            &&& forall|i: int|
                0 <= i < tabs.len() ==> match #[trigger] tabs[i] {
                    Command::ActivateTabWithoutSaving { window_id, index } => {
                        &&& window_id == window.mux_window_id
                        &&& scene.strip is Some && index < scene.strip->0.tabs@.len()
                        &&& tab.same_window_target_tab_id == Some(
                            scene.strip->0.tabs@[index as int],
                        )
                        &&& tabs[i + 1] is UpdateDropPreview
                    },
                    _ => true,
                }
        }),
{
    if scene.strip is Some {
        if pane.same_window_target_tab_id is Some {
            ui::index_is_the_first(scene.strip->0.tabs@, pane.same_window_target_tab_id->0, 0);
        }
        if tab.same_window_target_tab_id is Some {
            ui::index_is_the_first(scene.strip->0.tabs@, tab.same_window_target_tab_id->0, 0);
        }
    }
}

/// A spot is on the tab bar if it is between the edges of the bar or on one of them.
pub proof fn the_bar_reaches_to_its_edges(spot: Spot, bar: Bounds)
    ensures
        over_bar(spot, Some(bar)) <==> bar.rect.x.rank <= spot.x.rank <= bar.max_x.rank
            && bar.rect.y.rank <= spot.y.rank <= bar.max_y.rank,
        !over_bar(spot, None),
{
}

/// A point is in the window if it is right of its left edge and below its top edge,
/// or on them, and left of its right edge and above its bottom edge.
pub proof fn the_window_ends_before_its_size(window: TermWindow, p: Point)
    ensures
        window.in_client(p) <==> !(p.x < 0 || p.y < 0 || p.x >= window.pixel_width || p.y
            >= window.pixel_height),
{
}

} // verus!

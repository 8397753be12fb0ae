//! What the mouse does on the panes: which pane gets an event, what the event
//! looks like to it, and which binding it may trigger.

use vstd::prelude::*;
use crate::command::{Command, MouseCursor, PaneMouse};
use crate::input;
use crate::input::{
    event_trigger, normalize_trigger, pane_mouse_event, ClickPosition, MouseEvent, MouseEventKind,
    MouseEventTriggerMods,
};
use crate::termwindow::TermWindow;
use crate::ui::MouseCapture;

verus! {

/// How long a window must have had the focus for a click to count, where the
/// click that gives it the focus does not, in nanoseconds.
pub const FOCUS_SETTLE_NS: u128 = 200_000_000;

/// A pane of the window, in cells.
#[derive(Clone, Copy, Debug, PartialEq, Eq, Structural)]
pub struct PanePosition {
    pub index: usize,
    pub pane_id: usize,
    pub left: usize,
    pub top: usize,
    pub width: usize,
    pub height: usize,
}

impl PanePosition {
    /// The pane lies where rows and columns reach.
    pub open spec fn well_formed(self) -> bool {
        &&& self.left + self.width <= isize::MAX
        &&& self.top + self.height <= isize::MAX
    }

    /// Whether the position is in the pane, or right behind it.
    pub open spec fn holds(self, at: ClickPosition) -> bool {
        &&& self.top <= at.row <= self.top + self.height
        &&& self.left <= at.column <= self.left + self.width
    }
}

/// The pane that an event goes to, and where in it.
#[derive(Clone, Copy, Debug, PartialEq, Eq, Structural)]
pub struct Aim {
    pub pane_id: usize,
    pub position: ClickPosition,
    pub is_click_to_focus_pane: bool,
}

/// The index of the first pane that the event is about, from pane `i` on: the
/// one under the mouse, or, while a pane has captured the mouse, the active one,
/// which is `pane_id`.
pub open spec fn pane_for(
    panes: Seq<PanePosition>,
    captured: bool,
    pane_id: usize,
    at: ClickPosition,
    i: nat,
) -> Option<int>
    decreases panes.len() - i,
{
    if i >= panes.len() {
        None
    } else if if captured {
        panes[i as int].pane_id == pane_id
    } else {
        panes[i as int].holds(at)
    } {
        Some(i as int)
    } else {
        pane_for(panes, captured, pane_id, at, i + 1)
    }
}

/// Whether an event over a pane that is not active goes to that pane.
pub open spec fn reaches_other_pane(kind: MouseEventKind, focus_follows_mouse: bool) -> bool {
    match kind {
        MouseEventKind::Press(_) => true,
        MouseEventKind::Move => focus_follows_mouse,
        MouseEventKind::VertWheel(_) => true,
        MouseEventKind::Release(_) | MouseEventKind::HorzWheel(_) => false,
    }
}

/// What an event over a pane that is not active asks for. A wheel turns without
/// giving the pane the focus.
pub open spec fn other_pane_commands(
    kind: MouseEventKind,
    focus_follows_mouse: bool,
    index: usize,
) -> Seq<Command> {
    match kind {
        MouseEventKind::Press(_) => seq![Command::SetActivePane { index }],
        MouseEventKind::Move => if focus_follows_mouse {
            seq![Command::SetActivePane { index }, Command::Invalidate]
        } else {
            seq![]
        },
        MouseEventKind::VertWheel(_) => seq![Command::Invalidate],
        MouseEventKind::Release(_) | MouseEventKind::HorzWheel(_) => seq![],
    }
}

/// The link of the cell under the mouse. `line` holds the link of each cell of
/// the first line of a block of lines that starts at row `stable_top`; a block
/// that starts elsewhere changes nothing.
pub fn find_current_link(
    current: Option<u64>,
    stable_row: isize,
    column: usize,
    stable_top: isize,
    line: Option<&Vec<Option<u64>>>,
) -> (r: Option<u64>)
    ensures
        r == (if stable_top == stable_row && line is Some && column < line->0@.len() {
            line->0@[column as int]
        } else {
            current
        }),
{
    if stable_top == stable_row {
        if let Some(line) = line {
            if column < line.len() {
                return line[column];
            }
        }
    }
    current
}

/// Whether the event is a turn of a wheel.
pub open spec fn is_wheel_event(kind: MouseEventKind) -> bool {
    kind is VertWheel || kind is HorzWheel
}

impl TermWindow {
    /// Whether a pane has captured the mouse.
    pub open spec fn pane_has_mouse(self) -> bool {
        self.current_mouse_capture is Some && self.current_mouse_capture->0 is TerminalPane
    }

    /// Where in the active pane the mouse is while it is captured. Beyond the
    /// left and the top edge the cell stays at the edge, and the offset grows.
    pub open spec fn captured_position(self, at: ClickPosition, pane: PanePosition) -> ClickPosition {
        ClickPosition {
            column: if at.column >= pane.left {
                (at.column - pane.left) as usize
            } else {
                0
            },
            row: if at.row >= pane.top {
                (at.row - pane.top) as i64
            } else {
                0
            },
            x_pixel_offset: if at.column < pane.left {
                (at.x_pixel_offset - self.cell_width * (pane.left - at.column)) as isize
            } else {
                at.x_pixel_offset
            },
            y_pixel_offset: if at.row < pane.top {
                (at.y_pixel_offset - self.cell_height * (pane.top - at.row)) as isize
            } else {
                at.y_pixel_offset
            },
        }
    }

    /// Pixel positions can hold how far beyond the edges of the pane the mouse
    /// is.
    pub open spec fn captured_fits(self, at: ClickPosition, pane: PanePosition) -> bool {
        &&& at.column < pane.left ==> {
            &&& self.cell_width * (pane.left - at.column) <= isize::MAX
            &&& at.x_pixel_offset - self.cell_width * (pane.left - at.column) >= isize::MIN
        }
        &&& at.row < pane.top ==> {
            &&& isize::MIN <= at.row
            &&& pane.top - at.row <= isize::MAX
            &&& self.cell_height * (pane.top - at.row) <= isize::MAX
            &&& at.y_pixel_offset - self.cell_height * (pane.top - at.row) >= isize::MIN
        }
    }

    /// The pane that an event goes to, and where in it.
    pub open spec fn aim(
        self,
        pane_id: usize,
        at: ClickPosition,
        kind: MouseEventKind,
        panes: Seq<PanePosition>,
    ) -> Aim {
        match pane_for(panes, self.pane_has_mouse(), pane_id, at, 0) {
            None => Aim { pane_id, position: at, is_click_to_focus_pane: false },
            Some(i) => {
                let pane = panes[i];
                if self.pane_has_mouse() {
                    Aim {
                        pane_id,
                        position: self.captured_position(at, pane),
                        is_click_to_focus_pane: false,
                    }
                } else {
                    let other = pane.pane_id != pane_id;
                    Aim {
                        pane_id: if other && reaches_other_pane(
                            kind,
                            self.config.pane_focus_follows_mouse,
                        ) {
                            pane.pane_id
                        } else {
                            pane_id
                        },
                        position: ClickPosition {
                            column: (at.column - pane.left) as usize,
                            row: (at.row - pane.top) as i64,
                            ..at
                        },
                        is_click_to_focus_pane: other && kind is Press,
                    }
                }
            },
        }
    }

    /// What choosing that pane asks for.
    pub open spec fn aim_commands(
        self,
        pane_id: usize,
        at: ClickPosition,
        kind: MouseEventKind,
        panes: Seq<PanePosition>,
    ) -> Seq<Command> {
        match pane_for(panes, self.pane_has_mouse(), pane_id, at, 0) {
            Some(i) => if !self.pane_has_mouse() && panes[i].pane_id != pane_id {
                other_pane_commands(kind, self.config.pane_focus_follows_mouse, panes[i].index)
            } else {
                seq![]
            },
            None => seq![],
        }
    }

    /// The pane that an event goes to, and where in it.
    fn take_aim(
        &self,
        pane_id: usize,
        at: ClickPosition,
        kind: MouseEventKind,
        panes: &Vec<PanePosition>,
        commands: &mut Vec<Command>,
    ) -> (r: Aim)
        requires
            forall|i: int| 0 <= i < panes@.len() ==> (#[trigger] panes@[i]).well_formed(),
            match pane_for(panes@, self.pane_has_mouse(), pane_id, at, 0) {
                Some(i) => self.pane_has_mouse() ==> self.captured_fits(at, panes@[i]),
                None => true,
            },
            self.well_formed(),
        ensures
            r == self.aim(pane_id, at, kind, panes@),
            final(commands)@ == old(commands)@ + self.aim_commands(pane_id, at, kind, panes@),
    {
        let ghost before = commands@;
        let captured = match self.current_mouse_capture {
            Some(MouseCapture::TerminalPane(_)) => true,
            _ => false,
        };
        let mut i: usize = 0;
        while i < panes.len()
            invariant
                i <= panes@.len(),
                commands@ == before,
                captured == self.pane_has_mouse(),
                pane_for(panes@, captured, pane_id, at, 0) == pane_for(
                    panes@,
                    captured,
                    pane_id,
                    at,
                    i as nat,
                ),
                forall|k: int| 0 <= k < panes@.len() ==> (#[trigger] panes@[k]).well_formed(),
                match pane_for(panes@, self.pane_has_mouse(), pane_id, at, 0) {
                    Some(k) => self.pane_has_mouse() ==> self.captured_fits(at, panes@[k]),
                    None => true,
                },
                self.well_formed(),
                before == old(commands)@,
            decreases panes@.len() - i,
        {
            let pane = panes[i];
            assert(panes@[i as int].well_formed());
            if !captured && at.row >= pane.top as i64 && at.row <= (pane.top + pane.height) as i64
                && at.column >= pane.left && at.column <= pane.left + pane.width {
                let mut target = pane_id;
                let mut is_click_to_focus_pane = false;
                if pane.pane_id != pane_id {
                    match kind {
                        MouseEventKind::Press(_) => {
                            commands.push(Command::SetActivePane { index: pane.index });
                            target = pane.pane_id;
                            is_click_to_focus_pane = true;
                        },
                        MouseEventKind::Move => {
                            if self.config.pane_focus_follows_mouse {
                                commands.push(Command::SetActivePane { index: pane.index });
                                target = pane.pane_id;
                                commands.push(Command::Invalidate);
                            }
                        },
                        MouseEventKind::Release(_) | MouseEventKind::HorzWheel(_) => {},
                        MouseEventKind::VertWheel(_) => {
                            // A wheel turns the pane under the mouse, whether it
                            // has the focus or not.
                            target = pane.pane_id;
                            commands.push(Command::Invalidate);
                        },
                    }
                }
                let position = ClickPosition {
                    column: at.column - pane.left,
                    row: at.row - pane.top as i64,
                    x_pixel_offset: at.x_pixel_offset,
                    y_pixel_offset: at.y_pixel_offset,
                };
                assert(commands@ =~= before + self.aim_commands(pane_id, at, kind, panes@));
                return Aim { pane_id: target, position, is_click_to_focus_pane };
            } else if captured && pane_id == pane.pane_id {
                let mut position = at;
                position.column = at.column.saturating_sub(pane.left);
                position.row = if at.row >= pane.top as i64 {
                    at.row - pane.top as i64
                } else {
                    0
                };
                if at.column < pane.left {
                    let beyond: isize = pane.left as isize - at.column as isize;
                    proof {
                        assert(0 < self.cell_width * beyond) by (nonlinear_arith)
                            requires
                                0 < self.cell_width,
                                0 < beyond,
                        ;
                    }
                    position.x_pixel_offset = at.x_pixel_offset - self.cell_width * beyond;
                }
                if at.row < pane.top as i64 {
                    let beyond: isize = pane.top as isize - at.row as isize;
                    proof {
                        assert(0 < self.cell_height * beyond) by (nonlinear_arith)
                            requires
                                0 < self.cell_height,
                                0 < beyond,
                        ;
                    }
                    position.y_pixel_offset = at.y_pixel_offset - self.cell_height * beyond;
                }
                assert(commands@ =~= before + self.aim_commands(pane_id, at, kind, panes@));
                return Aim { pane_id, position, is_click_to_focus_pane: false };
            }
            i = i + 1;
        }
        assert(commands@ =~= before + self.aim_commands(pane_id, at, kind, panes@));
        Aim { pane_id, position: at, is_click_to_focus_pane: false }
    }

    /// Whether the window counts as focused. `focused_ns` is how long it has had
    /// the focus, none while it has not.
    pub open spec fn has_focus(self, focused_ns: Option<u128>) -> bool {
        focused_ns is Some && (!self.config.swallow_mouse_click_on_window_focus || focused_ns->0
            > FOCUS_SETTLE_NS)
    }

    /// Whether the event is the click that gives the window the focus, and no
    /// more than that.
    pub open spec fn focuses_window(self, kind: MouseEventKind, focused_ns: Option<u128>) -> bool {
        focused_ns is Some && !self.has_focus(focused_ns) && kind is Press
    }

    /// Whether the event may do more than move the mouse cursor.
    pub open spec fn allows_action(self, kind: MouseEventKind, focused_ns: Option<u128>) -> bool {
        if self.is_click_to_focus_window || !self.has_focus(focused_ns) {
            is_wheel_event(kind)
        } else {
            true
        }
    }

    /// An event that is meant for the panes. `panes` are those of the window,
    /// and `focused_ns` is how long the window has had the focus.
    pub fn mouse_event_terminal(
        &mut self,
        pane_id: usize,
        position: ClickPosition,
        event: MouseEvent,
        capture_mouse: bool,
        panes: &Vec<PanePosition>,
        focused_ns: Option<u128>,
    ) -> (r: Vec<Command>)
        requires
            old(self).well_formed(),
            forall|i: int| 0 <= i < panes@.len() ==> (#[trigger] panes@[i]).well_formed(),
            match pane_for(panes@, old(self).pane_has_mouse(), pane_id, position, 0) {
                Some(i) => old(self).pane_has_mouse() ==> old(self).captured_fits(
                    position,
                    panes@[i],
                ),
                None => true,
            },
        ensures
            final(self).well_formed(),
            ({
                let aim = old(self).aim(pane_id, position, event.kind, panes@);
                let chosen = old(self).aim_commands(pane_id, position, event.kind, panes@);
                let focusing = old(self).focuses_window(event.kind, focused_ns);
                let focused = old(self).is_click_to_focus_window && event.kind is Release;
                &&& *final(self) == (TermWindow {
                    current_mouse_capture: if capture_mouse {
                        Some(MouseCapture::TerminalPane(aim.pane_id))
                    } else {
                        old(self).current_mouse_capture
                    },
                    is_click_to_focus_window: if focusing {
                        true
                    } else if focused {
                        false
                    } else {
                        old(self).is_click_to_focus_window
                    },
                    ..*old(self)
                })
                &&& r@ == chosen.push(
                    if focusing || focused {
                        Command::Invalidate
                    } else {
                        Command::LocateRow(
                            PaneMouse {
                                pane_id: aim.pane_id,
                                position: aim.position,
                                event,
                                allow_action: old(self).allows_action(event.kind, focused_ns),
                                is_click_to_focus_pane: aim.is_click_to_focus_pane,
                            },
                        )
                    },
                )
            }),
    {
        let mut commands: Vec<Command> = Vec::new();
        let aim = self.take_aim(pane_id, position, event.kind, panes, &mut commands);
        assert(commands@ =~= old(self).aim_commands(pane_id, position, event.kind, panes@));
        if capture_mouse {
            self.current_mouse_capture = Some(MouseCapture::TerminalPane(aim.pane_id));
        }
        let is_focused = match focused_ns {
            Some(elapsed) => !self.config.swallow_mouse_click_on_window_focus || elapsed
                > FOCUS_SETTLE_NS,
            None => false,
        };
        let is_press = match event.kind {
            MouseEventKind::Press(_) => true,
            _ => false,
        };
        let is_release = match event.kind {
            MouseEventKind::Release(_) => true,
            _ => false,
        };
        if focused_ns.is_some() && !is_focused {
            if is_press && self.config.swallow_mouse_click_on_window_focus {
                self.is_click_to_focus_window = true;
                commands.push(Command::Invalidate);
                return commands;
            }
        }
        if self.is_click_to_focus_window && is_release {
            self.is_click_to_focus_window = false;
            commands.push(Command::Invalidate);
            return commands;
        }
        let allow_action = if self.is_click_to_focus_window || !is_focused {
            match event.kind {
                MouseEventKind::VertWheel(_) | MouseEventKind::HorzWheel(_) => true,
                _ => false,
            }
        } else {
            true
        };
        commands.push(
            Command::LocateRow(
                PaneMouse {
                    pane_id: aim.pane_id,
                    position: aim.position,
                    event,
                    allow_action,
                    is_click_to_focus_pane: aim.is_click_to_focus_pane,
                },
            ),
        );
        commands
    }

    /// The row of the scrollback that an event is on.
    pub open spec fn row_of(
        mouse: PaneMouse,
        viewport: Option<isize>,
        physical_top: isize,
    ) -> int {
        (if viewport is Some {
            viewport->0
        } else {
            physical_top
        }) + mouse.position.row
    }

    /// Finds the row of the scrollback that an event is on, and makes the links
    /// in it known. `viewport` and `physical_top` are those of the pane.
    pub fn locate_row(
        &self,
        mouse: PaneMouse,
        viewport: Option<isize>,
        physical_top: isize,
    ) -> (r: Vec<Command>)
        requires
            isize::MIN <= mouse.position.row <= isize::MAX,
            isize::MIN <= Self::row_of(mouse, viewport, physical_top) < isize::MAX,
        ensures
            ({
                let stable_row = Self::row_of(mouse, viewport, physical_top) as isize;
                r@ == seq![
                    Command::SetMouseCoords {
                        pane_id: mouse.pane_id,
                        position: mouse.position,
                        stable_row,
                    },
                    Command::ApplyHyperlinks { pane_id: mouse.pane_id, stable_row },
                    Command::PaneEvent { mouse, stable_row },
                ]
            }),
    {
        let top = match viewport {
            Some(row) => row,
            None => physical_top,
        };
        let stable_row: isize = top + mouse.position.row as isize;
        vec![
            Command::SetMouseCoords {
                pane_id: mouse.pane_id,
                position: mouse.position,
                stable_row,
            },
            Command::ApplyHyperlinks { pane_id: mouse.pane_id, stable_row },
            Command::PaneEvent { mouse, stable_row },
        ]
    }

    /// Whether a point is outside the window.
    pub open spec fn outside(self, event: MouseEvent) -> bool {
        event.coords.x < 0 || event.coords.x > self.pixel_width || event.coords.y < 0
            || event.coords.y > self.pixel_height
    }

    /// The shape of the mouse cursor over a pane.
    pub open spec fn pane_cursor(
        self,
        link: Option<u64>,
        mouse_grabbed: bool,
        event: MouseEvent,
    ) -> MouseCursor {
        if link is Some {
            MouseCursor::Hand
        } else if mouse_grabbed || self.outside(event) {
            MouseCursor::Arrow
        } else {
            MouseCursor::Text
        }
    }

    /// Whether the modifiers keep the mouse from the program in the pane.
    pub open spec fn bypassed(self, modifiers: u16) -> bool {
        modifiers & self.config.bypass_mouse_reporting_modifiers
            == self.config.bypass_mouse_reporting_modifiers
    }

    /// The circumstances that bindings are looked up by. While the program in
    /// the pane wants the mouse, the modifiers that keep the mouse from it are
    /// used up by that.
    pub open spec fn lookup_mods(
        self,
        modifiers: u16,
        mouse_grabbed: bool,
        alt_screen: bool,
    ) -> MouseEventTriggerMods {
        let bypass = mouse_grabbed && self.bypassed(modifiers);
        MouseEventTriggerMods {
            mods: if bypass {
                modifiers & !self.config.bypass_mouse_reporting_modifiers
            } else {
                modifiers
            },
            mouse_reporting: mouse_grabbed && !bypass,
            alt_screen,
        }
    }

    /// What an event asks for that no binding takes: the program in the pane is
    /// told, and anything but a movement is painted.
    pub open spec fn forwarding(self, mouse: PaneMouse) -> Seq<Command> {
        (if mouse.allow_action && !(self.config.swallow_mouse_click_on_pane_focus
            && mouse.is_click_to_focus_pane) {
            seq![
                Command::SendMouse {
                    pane_id: mouse.pane_id,
                    event: input::pane_event_of(mouse.event, mouse.position),
                },
            ]
        } else {
            seq![]
        }) + (if mouse.event.kind is Move {
            seq![]
        } else {
            seq![Command::Invalidate]
        })
    }

    /// Passes an event on that no binding takes.
    fn forward(&self, mouse: PaneMouse) -> (r: Vec<Command>)
        requires
            input::wheel_fits(mouse.event.kind),
        ensures
            r@ == self.forwarding(mouse),
    {
        let mut commands: Vec<Command> = Vec::new();
        if mouse.allow_action && !(self.config.swallow_mouse_click_on_pane_focus
            && mouse.is_click_to_focus_pane) {
            let event = pane_mouse_event(mouse.event, mouse.position);
            commands.push(Command::SendMouse { pane_id: mouse.pane_id, event });
        }
        match mouse.event.kind {
            MouseEventKind::Move => {},
            _ => {
                commands.push(Command::Invalidate);
            },
        }
        assert(commands@ =~= self.forwarding(mouse));
        commands
    }

    /// What an event on a pane asks for. It takes up the link under the mouse
    /// and shapes the mouse cursor; a wheel that did not turn does no more. Then
    /// a binding is looked up, or the event goes to the program in the pane.
    pub open spec fn pane_commands(
        self,
        mouse: PaneMouse,
        link: Option<u64>,
        mouse_grabbed: bool,
        alt_screen: bool,
    ) -> Seq<Command> {
        let trigger = input::trigger_of(
            mouse.event.kind,
            self.last_mouse_click,
            self.current_mouse_buttons@,
        );
        let mods = self.lookup_mods(mouse.event.modifiers, mouse_grabbed, alt_screen);
        (if self.current_highlight != link {
            seq![Command::Invalidate]
        } else {
            seq![]
        }) + seq![Command::SetCursor(self.pane_cursor(link, mouse_grabbed, mouse.event))] + (
        if input::idle_wheel(mouse.event.kind) {
            seq![]
        } else if mouse.allow_action && trigger is Some {
            (if mods.mouse_reporting {
                seq![Command::ScrollToBottom { pane_id: mouse.pane_id }]
            } else {
                seq![]
            }).push(
                Command::LookupMouse { mouse, trigger: input::normalized(trigger->0), mods },
            )
        } else {
            self.forwarding(mouse)
        })
    }

    /// An event on a pane. `link` is the link under the mouse, and the flags say
    /// whether the program in the pane wants the mouse and whether it uses the
    /// alternate screen.
    pub fn mouse_event_on_pane(
        &mut self,
        mouse: PaneMouse,
        link: Option<u64>,
        mouse_grabbed: bool,
        alt_screen: bool,
    ) -> (r: Vec<Command>)
        requires
            old(self).well_formed(),
            input::wheel_fits(mouse.event.kind),
        ensures
            final(self).well_formed(),
            r@ == old(self).pane_commands(mouse, link, mouse_grabbed, alt_screen),
            ({
                let trigger = input::trigger_of(
                    mouse.event.kind,
                    old(self).last_mouse_click,
                    old(self).current_mouse_buttons@,
                );
                *final(self) == (TermWindow {
                    current_highlight: link,
                    current_event: if mouse.allow_action && trigger is Some {
                        trigger
                    } else {
                        old(self).current_event
                    },
                    ..*old(self)
                })
            }),
    {
        let mut commands: Vec<Command> = Vec::new();
        let event = mouse.event;
        if self.current_highlight != link {
            self.current_highlight = link;
            commands.push(Command::Invalidate);
        }
        let outside_window = event.coords.x < 0 || event.coords.x as usize > self.pixel_width
            || event.coords.y < 0 || event.coords.y as usize > self.pixel_height;
        commands.push(
            Command::SetCursor(
                if self.current_highlight.is_some() {
                    MouseCursor::Hand
                } else if mouse_grabbed || outside_window {
                    MouseCursor::Arrow
                } else {
                    MouseCursor::Text
                },
            ),
        );
        let ghost shaped = commands@;
        assert(shaped =~= (if old(self).current_highlight != link {
            seq![Command::Invalidate]
        } else {
            seq![]
        }) + seq![Command::SetCursor(old(self).pane_cursor(link, mouse_grabbed, event))]);
        if event.kind == MouseEventKind::VertWheel(0) || event.kind == MouseEventKind::HorzWheel(
            0,
        ) {
            assert(shaped + Seq::<Command>::empty() =~= shaped);
            return commands;
        }
        let trigger = event_trigger(
            event.kind,
            self.last_mouse_click,
            &self.current_mouse_buttons,
        );
        if mouse.allow_action {
            if let Some(trigger) = trigger {
                self.current_event = Some(trigger);
                let bypass = self.config.bypass_mouse_reporting_modifiers;
                let mut mods = event.modifiers;
                let mut mouse_reporting = mouse_grabbed;
                if mouse_reporting && mods & bypass == bypass {
                    mods = mods & !bypass;
                    mouse_reporting = false;
                }
                if mouse_reporting {
                    // Who scrolled back before the program took the mouse would
                    // see no effect of the wheel.
                    commands.push(Command::ScrollToBottom { pane_id: mouse.pane_id });
                }
                commands.push(
                    Command::LookupMouse {
                        mouse,
                        trigger: normalize_trigger(trigger),
                        mods: MouseEventTriggerMods { mods, mouse_reporting, alt_screen },
                    },
                );
                assert(commands@ =~= old(self).pane_commands(
                    mouse,
                    link,
                    mouse_grabbed,
                    alt_screen,
                ));
                return commands;
            }
        }
        let mut forwarded = self.forward(mouse);
        commands.append(&mut forwarded);
        assert(commands@ =~= old(self).pane_commands(mouse, link, mouse_grabbed, alt_screen));
        commands
    }

    /// A binding was looked up for an event: it is performed if there is one,
    /// and else the event is passed on.
    pub fn binding_looked_up(&self, mouse: PaneMouse, found: bool) -> (r: Vec<Command>)
        requires
            input::wheel_fits(mouse.event.kind),
        ensures
            r@ == (if found {
                seq![Command::PerformBinding { pane_id: mouse.pane_id }]
            } else {
                self.forwarding(mouse)
            }),
    {
        if found {
            vec![Command::PerformBinding { pane_id: mouse.pane_id }]
        } else {
            self.forward(mouse)
        }
    }
}

/// Modifiers that keep the mouse from the program in the pane are not among
/// those that bindings are looked up by, and the program is not told then.
pub proof fn bypass_is_used_up(window: TermWindow, modifiers: u16, alt_screen: bool)
    requires
        window.bypassed(modifiers),
    ensures
        window.lookup_mods(modifiers, true, alt_screen).mods
            & window.config.bypass_mouse_reporting_modifiers == 0,
        !window.lookup_mods(modifiers, true, alt_screen).mouse_reporting,
        window.lookup_mods(modifiers, false, alt_screen).mods == modifiers,
{
    let bypass = window.config.bypass_mouse_reporting_modifiers;
    assert((modifiers & !bypass) & bypass == 0) by (bit_vector);
}

/// While a pane has captured the mouse, events stay with the active pane,
/// wherever the mouse is, and the focus stays, too.
pub proof fn a_capture_holds(
    window: TermWindow,
    pane_id: usize,
    at: ClickPosition,
    kind: MouseEventKind,
    panes: Seq<PanePosition>,
)
    requires
        window.pane_has_mouse(),
    ensures
        window.aim(pane_id, at, kind, panes).pane_id == pane_id,
        !window.aim(pane_id, at, kind, panes).is_click_to_focus_pane,
        window.aim_commands(pane_id, at, kind, panes) == Seq::<Command>::empty(),
{
}

/// A window without the focus takes no clicks, only wheels; so does one whose
/// focus came with the click that is going on.
pub proof fn only_wheels_reach_an_unfocused_window(
    window: TermWindow,
    kind: MouseEventKind,
    focused_ns: Option<u128>,
)
    requires
        focused_ns is None || window.is_click_to_focus_window,
    ensures
        window.allows_action(kind, focused_ns) == is_wheel_event(kind),
{
}

/// The pane that an event is about is the first one that holds the position, its right
/// and bottom neighbours' edges counting as its own, or, while a pane has the mouse,
/// the first entry of the active one.
pub proof fn the_first_pane_is_meant(
    panes: Seq<PanePosition>,
    captured: bool,
    pane_id: usize,
    at: ClickPosition,
    i: nat,
)
    ensures
        match pane_for(panes, captured, pane_id, at, i) {
            Some(k) => i <= k < panes.len() && meant(panes[k], captured, pane_id, at) && forall|
                j: int,
            |
                i <= j < k ==> !meant(#[trigger] panes[j], captured, pane_id, at),
            None => forall|j: int|
                i <= j < panes.len() ==> !meant(#[trigger] panes[j], captured, pane_id, at),
        },
    decreases panes.len() - i,
{
    if i < panes.len() && !meant(panes[i as int], captured, pane_id, at) {
        the_first_pane_is_meant(panes, captured, pane_id, at, i + 1);
    }
}

/// Whether a pane is one that an event may be about.
pub open spec fn meant(
    pane: PanePosition,
    captured: bool,
    pane_id: usize,
    at: ClickPosition,
) -> bool {
    if captured {
        pane.pane_id == pane_id
    } else {
        !(at.row < pane.top || at.row > pane.top + pane.height || at.column < pane.left || at.column
            > pane.left + pane.width)
    }
}

/// The position in a pane is told from its top left cell: together with where the pane
/// is it makes up the position in the window. While a pane has the mouse it does so in
/// pixels, the cell being the first one beyond the left or the top edge.
pub proof fn positions_are_told_from_the_pane(
    window: TermWindow,
    pane_id: usize,
    at: ClickPosition,
    kind: MouseEventKind,
    panes: Seq<PanePosition>,
    k: int,
)
    requires
        window.well_formed(),
        pane_for(panes, window.pane_has_mouse(), pane_id, at, 0) == Some(k),
        panes[k].well_formed(),
        window.pane_has_mouse() ==> window.captured_fits(at, panes[k]),
    ensures
        ({
            let to = window.aim(pane_id, at, kind, panes).position;
            let pane = panes[k];
            &&& !window.pane_has_mouse() ==> {
                &&& to.column + pane.left == at.column
                &&& to.row + pane.top == at.row
                &&& to.x_pixel_offset == at.x_pixel_offset
                &&& to.y_pixel_offset == at.y_pixel_offset
            }
            &&& window.pane_has_mouse() ==> {
                &&& to.column * window.cell_width + to.x_pixel_offset == (at.column - pane.left)
                    * window.cell_width + at.x_pixel_offset
                &&& to.row * window.cell_height + to.y_pixel_offset == (at.row - pane.top)
                    * window.cell_height + at.y_pixel_offset
                &&& at.column <= pane.left ==> to.column == 0
                &&& at.column >= pane.left ==> to.x_pixel_offset == at.x_pixel_offset
                &&& at.row <= pane.top ==> to.row == 0
                &&& at.row >= pane.top ==> to.y_pixel_offset == at.y_pixel_offset
            }
        }),
{
    the_first_pane_is_meant(panes, window.pane_has_mouse(), pane_id, at, 0);
    let pane = panes[k];
    let width = window.cell_width as int;
    let height = window.cell_height as int;
    assert((at.column - pane.left) * width == -(width * (pane.left - at.column)))
        by (nonlinear_arith);
    assert((at.row - pane.top) * height == -(height * (pane.top - at.row))) by (nonlinear_arith);
    assert(0 * width == 0 && 0 * height == 0);
    if window.pane_has_mouse() {
        if at.column < pane.left {
            let beyond = pane.left - at.column;
            assert(0 < width * beyond) by (nonlinear_arith)
                requires
                    0 < width,
                    0 < beyond,
            ;
        }
        if at.row < pane.top {
            let beyond = pane.top - at.row;
            assert(0 < height * beyond) by (nonlinear_arith)
                requires
                    0 < height,
                    0 < beyond,
            ;
        }
    }
}

/// Off all panes an event stays with the active one, where it is.
pub proof fn off_the_panes_the_active_one_is_told(
    window: TermWindow,
    pane_id: usize,
    at: ClickPosition,
    kind: MouseEventKind,
    panes: Seq<PanePosition>,
)
    requires
        forall|j: int|
            0 <= j < panes.len() ==> !meant(
                #[trigger] panes[j],
                window.pane_has_mouse(),
                pane_id,
                at,
            ),
    ensures
        window.aim(pane_id, at, kind, panes).pane_id == pane_id,
        window.aim(pane_id, at, kind, panes).position == at,
        !window.aim(pane_id, at, kind, panes).is_click_to_focus_pane,
        window.aim_commands(pane_id, at, kind, panes).len() == 0,
{
    the_first_pane_is_meant(panes, window.pane_has_mouse(), pane_id, at, 0);
}

/// An event over another pane goes there if it is a press, which gives that pane the
/// focus, or a wheel that turns up or down, which does not; a movement goes there, and
/// gives it the focus, only where the focus follows the mouse. A release and a wheel
/// that turns sideways stay with the active pane.
pub proof fn a_press_gives_a_pane_the_focus(
    window: TermWindow,
    pane_id: usize,
    at: ClickPosition,
    kind: MouseEventKind,
    panes: Seq<PanePosition>,
    k: int,
)
    requires
        !window.pane_has_mouse(),
        pane_for(panes, false, pane_id, at, 0) == Some(k),
    ensures
        ({
            let aim = window.aim(pane_id, at, kind, panes);
            let asked = window.aim_commands(pane_id, at, kind, panes);
            let focus = Command::SetActivePane { index: panes[k].index };
            let follows = window.config.pane_focus_follows_mouse;
            if panes[k].pane_id == pane_id {
                aim.pane_id == pane_id && !aim.is_click_to_focus_pane && asked.len() == 0
            } else {
                &&& kind is Press ==> aim.pane_id == panes[k].pane_id && aim.is_click_to_focus_pane
                    && asked == seq![focus]
                &&& !(kind is Press) ==> !aim.is_click_to_focus_pane
                &&& kind is VertWheel ==> aim.pane_id == panes[k].pane_id && asked == seq![
                    Command::Invalidate,
                ]
                &&& kind is Move && follows ==> aim.pane_id == panes[k].pane_id && asked == seq![
                    focus,
                    Command::Invalidate,
                ]
                &&& kind is Move && !follows || kind is Release || kind is HorzWheel ==> aim.pane_id
                    == pane_id && asked.len() == 0
            }
        }),
{
}

/// A window has the focus as soon as it has it, or, where the click that gives it is
/// swallowed, when it has had it for more than a fifth of a second. A press before that
/// only gives the focus; and while there is no focus, only wheels act.
pub proof fn the_focus_settles(window: TermWindow, kind: MouseEventKind, ns: u128)
    ensures
        !window.config.swallow_mouse_click_on_window_focus ==> window.has_focus(Some(ns))
            && !window.focuses_window(kind, Some(ns)),
        window.config.swallow_mouse_click_on_window_focus ==> {
            &&& window.has_focus(Some(ns)) <==> ns * 5 > 1_000_000_000
            &&& window.focuses_window(kind, Some(ns)) <==> kind is Press && ns * 5 <= 1_000_000_000
        },
        !window.has_focus(None) && !window.focuses_window(kind, None),
        window.has_focus(Some(ns)) && !window.is_click_to_focus_window ==> window.allows_action(
            kind,
            Some(ns),
        ),
        !window.has_focus(Some(ns)) || window.is_click_to_focus_window ==> (window.allows_action(
            kind,
            Some(ns),
        ) <==> kind is VertWheel || kind is HorzWheel),
{
}

/// The row of the scrollback is as far below the row at the top of the pane as the
/// position is below the top of the pane: the top is that of the scrolled view, or else
/// that of the screen.
pub proof fn rows_are_counted_from_the_top(mouse: PaneMouse, viewport: isize, physical_top: isize)
    ensures
        TermWindow::row_of(mouse, Some(viewport), physical_top) - viewport == mouse.position.row,
        TermWindow::row_of(mouse, None, physical_top) - physical_top == mouse.position.row,
{
}

/// The cursor over a link is a hand, whatever else holds; else it is an arrow where the
/// program takes the mouse and outside the window, and the text cursor elsewhere.
pub proof fn links_have_a_hand(
    window: TermWindow,
    link: Option<u64>,
    mouse_grabbed: bool,
    event: MouseEvent,
)
    ensures
        ({
            let cursor = window.pane_cursor(link, mouse_grabbed, event);
            let inside = 0 <= event.coords.x <= window.pixel_width && 0 <= event.coords.y
                <= window.pixel_height;
            &&& cursor is Hand <==> link is Some
            &&& cursor is Text <==> link is None && !mouse_grabbed && inside
            &&& cursor is Arrow <==> link is None && (mouse_grabbed || !inside)
        }),
{
}

/// Modifiers that keep the mouse from the program are those of which all are down. They
/// and the ones that bindings are looked up by then make up the ones that are down.
/// Without such a program, or without them, all that are down are looked up by.
pub proof fn lookups_go_by_the_other_modifiers(
    window: TermWindow,
    modifiers: u16,
    mouse_grabbed: bool,
    alt_screen: bool,
)
    ensures
        ({
            let keys = window.config.bypass_mouse_reporting_modifiers;
            let all_down = modifiers | keys == modifiers;
            let by = window.lookup_mods(modifiers, mouse_grabbed, alt_screen);
            &&& by.alt_screen == alt_screen
            &&& by.mouse_reporting <==> mouse_grabbed && !all_down
            &&& mouse_grabbed && all_down ==> by.mods | keys == modifiers && by.mods & keys == 0
            &&& !(mouse_grabbed && all_down) ==> by.mods == modifiers
        }),
{
    let keys = window.config.bypass_mouse_reporting_modifiers;
    assert((modifiers | keys == modifiers) <==> (modifiers & keys == keys)) by (bit_vector);
    assert(modifiers & keys == keys ==> (modifiers & !keys) | keys == modifiers) by (bit_vector);
    assert((modifiers & !keys) & keys == 0) by (bit_vector);
}

/// An event that no binding takes is told to the pane it is about, unless it may not
/// act or is a swallowed click that gave the pane the focus. All but a movement paints.
pub proof fn events_are_passed_on(window: TermWindow, mouse: PaneMouse)
    ensures
        ({
            let commands = window.forwarding(mouse);
            let swallowed = window.config.swallow_mouse_click_on_pane_focus
                && mouse.is_click_to_focus_pane;
            let told = mouse.allow_action && !swallowed;
            &&& commands.len() == (if told {
                1int
            } else {
                0
            }) + (if mouse.event.kind is Move {
                0int
            } else {
                1
            })
            &&& told ==> (commands[0] matches Command::SendMouse { pane_id, event } && pane_id
                == mouse.pane_id && event == input::pane_event_of(mouse.event, mouse.position))
            &&& !(mouse.event.kind is Move) ==> commands.last() == Command::Invalidate
        }),
{
}

/// An event on a pane paints if the link under the mouse is another one, shapes the
/// cursor, and then, unless it is a wheel that stands still, is looked up, or passed on
/// if there is nothing to look up. Where the program will be told, the pane is scrolled
/// down first.
pub proof fn a_pane_looks_up_or_passes_on(
    window: TermWindow,
    mouse: PaneMouse,
    link: Option<u64>,
    mouse_grabbed: bool,
    alt_screen: bool,
)
    ensures
        ({
            let commands = window.pane_commands(mouse, link, mouse_grabbed, alt_screen);
            let trigger = input::trigger_of(
                mouse.event.kind,
                window.last_mouse_click,
                window.current_mouse_buttons@,
            );
            let mods = window.lookup_mods(mouse.event.modifiers, mouse_grabbed, alt_screen);
            let lead = if window.current_highlight != link {
                1int
            } else {
                0
            };
            let cursor = Command::SetCursor(window.pane_cursor(link, mouse_grabbed, mouse.event));
            let still = mouse.event.kind == MouseEventKind::VertWheel(0) || mouse.event.kind
                == MouseEventKind::HorzWheel(0);
            &&& commands.len() > lead
            &&& lead == 1 ==> commands[0] == Command::Invalidate
            &&& commands[lead] == cursor
            &&& still ==> commands.len() == lead + 1
            &&& !still && mouse.allow_action && trigger is Some ==> {
                &&& commands.last() == (Command::LookupMouse {
                    mouse,
                    trigger: input::normalized(trigger->0),
                    mods,
                })
                &&& commands.len() == lead + (if mods.mouse_reporting {
                    3int
                } else {
                    2
                })
                &&& mods.mouse_reporting ==> commands[lead + 1] == (Command::ScrollToBottom {
                    pane_id: mouse.pane_id,
                })
            }
            &&& !still && !(mouse.allow_action && trigger is Some) ==> commands.subrange(
                lead + 1,
                commands.len() as int,
            ) == window.forwarding(mouse)
        }),
{
    let commands = window.pane_commands(mouse, link, mouse_grabbed, alt_screen);
    let lead = if window.current_highlight != link {
        1int
    } else {
        0
    };
    let trigger = input::trigger_of(
        mouse.event.kind,
        window.last_mouse_click,
        window.current_mouse_buttons@,
    );
    let still = mouse.event.kind == MouseEventKind::VertWheel(0) || mouse.event.kind
        == MouseEventKind::HorzWheel(0);
    if !still && !(mouse.allow_action && trigger is Some) {
        assert(commands.subrange(lead + 1, commands.len() as int) =~= window.forwarding(mouse));
    }
}

/// A pane has the mouse while it has captured it; the rest of the window never counts.
pub proof fn a_pane_has_the_mouse_it_captured(window: TermWindow, pane_id: usize)
    ensures
        (TermWindow {
            current_mouse_capture: Some(MouseCapture::TerminalPane(pane_id)),
            ..window
        }).pane_has_mouse(),
        !(TermWindow {
            current_mouse_capture: Some(MouseCapture::UI),
            ..window
        }).pane_has_mouse(),
        !(TermWindow { current_mouse_capture: None, ..window }).pane_has_mouse(),
{
}

} // verus!

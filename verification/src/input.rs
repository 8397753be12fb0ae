//! What the mouse does: the events of the window system, the clicks counted
//! from them, and the triggers that mouse bindings are looked up by.

use vstd::prelude::*;
use crate::geometry::{Point, ScreenPoint};

verus! {

/// A button of the mouse.
#[derive(Clone, Copy, Debug, PartialEq, Eq, Structural)]
pub enum MousePress {
    Left,
    Right,
    Middle,
}

/// What happened to the mouse. A wheel turns by a signed number of notches, up
/// and left being positive.
#[derive(Clone, Copy, Debug, PartialEq, Eq, Structural)]
pub enum MouseEventKind {
    Move,
    Press(MousePress),
    Release(MousePress),
    VertWheel(i16),
    HorzWheel(i16),
}

/// The buttons that are down during an event.
#[derive(Clone, Copy, Debug, PartialEq, Eq, Structural)]
pub enum HeldButtons {
    LeftOnly,
    RightOnly,
    MiddleOnly,
    /// None, or more than one.
    Other,
}

/// An event of the window system.
#[derive(Clone, Copy, Debug, PartialEq, Eq, Structural)]
pub struct MouseEvent {
    pub kind: MouseEventKind,
    pub coords: Point,
    pub screen_coords: ScreenPoint,
    pub mouse_buttons: HeldButtons,
    /// The modifier keys, one bit each.
    pub modifiers: u16,
}

/// A button as the terminal knows it. Wheels carry how far they turned.
#[derive(Clone, Copy, Debug, PartialEq, Eq, Structural)]
pub enum MouseButton {
    Left,
    Right,
    Middle,
    WheelUp(usize),
    WheelDown(usize),
    WheelLeft(usize),
    WheelRight(usize),
    NoButton,
}

/// Where in a pane a click happened.
#[derive(Clone, Copy, Debug, PartialEq, Eq, Structural)]
pub struct ClickPosition {
    pub column: usize,
    pub row: i64,
    pub x_pixel_offset: isize,
    pub y_pixel_offset: isize,
}

/// The last click, and how many clicks it makes in a row.
#[derive(Clone, Copy, Debug, PartialEq, Eq, Structural)]
pub struct LastMouseClick {
    pub button: MouseButton,
    pub position: ClickPosition,
    pub streak: usize,
}

/// What mouse bindings are looked up by.
#[derive(Clone, Copy, Debug, PartialEq, Eq, Structural)]
pub enum MouseEventTrigger {
    Down { streak: usize, button: MouseButton },
    Up { streak: usize, button: MouseButton },
    Drag { streak: usize, button: MouseButton },
}

/// The circumstances that mouse bindings are looked up by.
#[derive(Clone, Copy, Debug, PartialEq, Eq, Structural)]
pub struct MouseEventTriggerMods {
    pub mods: u16,
    pub mouse_reporting: bool,
    pub alt_screen: bool,
}

/// What a program in a pane is told about the mouse.
#[derive(Clone, Copy, Debug, PartialEq, Eq, Structural)]
pub enum PaneMouseKind {
    Move,
    Press,
    Release,
}

/// What a program in a pane is told about the mouse.
#[derive(Clone, Copy, Debug, PartialEq, Eq, Structural)]
pub struct PaneMouseEvent {
    pub kind: PaneMouseKind,
    pub button: MouseButton,
    pub x: usize,
    pub y: i64,
    pub x_pixel_offset: isize,
    pub y_pixel_offset: isize,
    pub modifiers: u16,
}

/// The terminal's name for a button.
pub open spec fn button_of(press: MousePress) -> MouseButton {
    match press {
        MousePress::Left => MouseButton::Left,
        MousePress::Right => MouseButton::Right,
        MousePress::Middle => MouseButton::Middle,
    }
}

/// The terminal's name for a button.
pub fn mouse_press_to_tmb(press: MousePress) -> (r: MouseButton)
    ensures
        r == button_of(press),
{
    match press {
        MousePress::Left => MouseButton::Left,
        MousePress::Right => MouseButton::Right,
        MousePress::Middle => MouseButton::Middle,
    }
}

/// Wheel turns can be counted in either direction.
pub open spec fn wheel_fits(kind: MouseEventKind) -> bool {
    match kind {
        MouseEventKind::VertWheel(n) => n != i16::MIN,
        MouseEventKind::HorzWheel(n) => n != i16::MIN,
        _ => true,
    }
}

/// The wheel button of a vertical turn.
pub open spec fn vert_button(n: int) -> MouseButton {
    if n > 0 {
        MouseButton::WheelUp(n as usize)
    } else {
        MouseButton::WheelDown((-n) as usize)
    }
}

/// The wheel button of a horizontal turn.
pub open spec fn horz_button(n: int) -> MouseButton {
    if n > 0 {
        MouseButton::WheelLeft(n as usize)
    } else {
        MouseButton::WheelRight((-n) as usize)
    }
}

/// The wheel button of a vertical turn.
fn vert_wheel_button(n: i16) -> (r: MouseButton)
    requires
        n != i16::MIN,
    ensures
        r == vert_button(n as int),
{
    if n > 0 {
        MouseButton::WheelUp(n as usize)
    } else {
        MouseButton::WheelDown((-n) as usize)
    }
}

/// The wheel button of a horizontal turn.
fn horz_wheel_button(n: i16) -> (r: MouseButton)
    requires
        n != i16::MIN,
    ensures
        r == horz_button(n as int),
{
    if n > 0 {
        MouseButton::WheelLeft(n as usize)
    } else {
        MouseButton::WheelRight((-n) as usize)
    }
}

/// Whether the event is a wheel that did not turn.
pub open spec fn idle_wheel(kind: MouseEventKind) -> bool {
    kind == MouseEventKind::VertWheel(0) || kind == MouseEventKind::HorzWheel(0)
}

/// Whether the button is a wheel.
pub open spec fn is_wheel(button: MouseButton) -> bool {
    button is WheelUp || button is WheelDown || button is WheelLeft || button is WheelRight
}

/// The buttons without `press`, in order.
pub open spec fn without(held: Seq<MousePress>, press: MousePress) -> Seq<MousePress>
    decreases held.len(),
{
    if held.len() == 0 {
        seq![]
    } else {
        let rest = without(held.drop_last(), press);
        if held.last() == press {
            rest
        } else {
            rest.push(held.last())
        }
    }
}

/// No button occurs twice.
pub open spec fn distinct(held: Seq<MousePress>) -> bool {
    forall|i: int, j: int| 0 <= i < j < held.len() ==> held[i] != held[j]
}

/// Taking a button out leaves the others, in order and each once.
pub proof fn without_keeps_the_others(held: Seq<MousePress>, press: MousePress)
    ensures
        !without(held, press).contains(press),
        forall|p: MousePress|
            p != press ==> (#[trigger] without(held, press).contains(p) <==> held.contains(p)),
        distinct(held) ==> distinct(without(held, press)),
        without(held, press).len() <= held.len(),
    decreases held.len(),
{
    if held.len() > 0 {
        let front = held.drop_last();
        without_keeps_the_others(front, press);
        let rest = without(front, press);
        let last = held.last();
        assert(held =~= front.push(last));
        assert forall|p: MousePress| held.contains(p) <==> front.contains(p) || p == last by {
            if front.contains(p) {
                let k = front.index_of(p);
                assert(held[k] == p);
            }
            if p == last {
                assert(held[held.len() - 1] == p);
            }
            if held.contains(p) && p != last {
                let k = held.index_of(p);
                assert(front[k] == p);
            }
        }
        if last != press {
            let all = rest.push(last);
            assert forall|p: MousePress| all.contains(p) <==> rest.contains(p) || p == last by {
                if rest.contains(p) {
                    let k = rest.index_of(p);
                    assert(all[k] == p);
                }
                if p == last {
                    assert(all[all.len() - 1] == p);
                }
            }
            if distinct(held) {
                assert(distinct(front)) by {
                    assert forall|i: int, j: int| 0 <= i < j < front.len() implies front[i]
                        != front[j] by {
                        assert(held[i] != held[j]);
                    }
                }
                assert(!front.contains(last)) by {
                    if front.contains(last) {
                        let k = front.index_of(last);
                        assert(held[k] != held[held.len() - 1]);
                    }
                }
                assert(!rest.contains(last));
                assert forall|i: int, j: int| 0 <= i < j < all.len() implies all[i] != all[j] by {
                    if j == all.len() - 1 {
                        if all[i] == last {
                            assert(rest[i] == last);
                        }
                    } else {
                        assert(rest[i] != rest[j]);
                    }
                }
            }
        } else if distinct(held) {
            assert(distinct(front)) by {
                assert forall|i: int, j: int| 0 <= i < j < front.len() implies front[i]
                    != front[j] by {
                    assert(held[i] != held[j]);
                }
            }
        }
    }
}

/// A button that goes down is the last one held, and the others stay as they
/// were; the buttons stay distinct.
pub proof fn a_press_goes_last(held: Seq<MousePress>, press: MousePress)
    requires
        distinct(held),
    ensures
        distinct(without(held, press).push(press)),
        without(held, press).push(press).last() == press,
        without(without(held, press).push(press), press) == without(held, press),
{
    without_keeps_the_others(held, press);
    let rest = without(held, press);
    let all = rest.push(press);
    assert(all.drop_last() =~= rest);
    nothing_to_take_out(rest, press);
    assert forall|i: int, j: int| 0 <= i < j < all.len() implies all[i] != all[j] by {
        if j == all.len() - 1 {
            assert(rest.contains(rest[i]));
        }
    }
}

/// Buttons that do not hold `press` are unchanged without it.
proof fn nothing_to_take_out(held: Seq<MousePress>, press: MousePress)
    requires
        !held.contains(press),
    ensures
        without(held, press) == held,
    decreases held.len(),
{
    if held.len() > 0 {
        let front = held.drop_last();
        assert(held.contains(held.last()));
        assert(!front.contains(press)) by {
            if front.contains(press) {
                let k = front.index_of(press);
                assert(held[k] == press);
            }
        }
        nothing_to_take_out(front, press);
        assert(front.push(held.last()) =~= held);
    } else {
        assert(without(held, press) =~= held);
    }
}

/// Takes a button out of those held.
pub fn take_out(held: &mut Vec<MousePress>, press: MousePress)
    ensures
        final(held)@ == without(old(held)@, press),
{
    let mut kept: Vec<MousePress> = Vec::new();
    let ghost all = held@;
    for i in 0..held.len()
        invariant
            held@ == all,
            kept@ == without(all.take(i as int), press),
    {
        proof {
            assert(all.take(i + 1).drop_last() =~= all.take(i as int));
        }
        if held[i] != press {
            kept.push(held[i]);
        }
    }
    assert(all.take(all.len() as int) =~= all);
    *held = kept;
}

/// The trigger of an event, none where no binding can apply. A press, a release
/// and a drag count only while the button is the one that was clicked last.
pub open spec fn trigger_of(
    kind: MouseEventKind,
    last_click: Option<LastMouseClick>,
    held: Seq<MousePress>,
) -> Option<MouseEventTrigger> {
    match kind {
        MouseEventKind::Press(p) => if last_click is Some && last_click->0.button == button_of(p) {
            Some(MouseEventTrigger::Down { streak: last_click->0.streak, button: button_of(p) })
        } else {
            None
        },
        MouseEventKind::Release(p) => if last_click is Some && last_click->0.button == button_of(
            p,
        ) {
            Some(MouseEventTrigger::Up { streak: last_click->0.streak, button: button_of(p) })
        } else {
            None
        },
        MouseEventKind::Move => if held.len() > 0 && last_click is Some && last_click->0.button
            == button_of(held.last()) {
            Some(
                MouseEventTrigger::Drag {
                    streak: last_click->0.streak,
                    button: last_click->0.button,
                },
            )
        } else {
            None
        },
        MouseEventKind::VertWheel(n) => if n == 0 {
            None
        } else {
            Some(MouseEventTrigger::Down { streak: 1, button: vert_button(n as int) })
        },
        MouseEventKind::HorzWheel(n) => if n == 0 {
            None
        } else {
            Some(MouseEventTrigger::Down { streak: 1, button: horz_button(n as int) })
        },
    }
}

/// The trigger of an event, none where no binding can apply.
pub fn event_trigger(
    kind: MouseEventKind,
    last_click: Option<LastMouseClick>,
    held: &Vec<MousePress>,
) -> (r: Option<MouseEventTrigger>)
    requires
        wheel_fits(kind),
    ensures
        r == trigger_of(kind, last_click, held@),
{
    match kind {
        MouseEventKind::Press(p) => {
            let button = mouse_press_to_tmb(p);
            match last_click {
                Some(click) => if click.button == button {
                    Some(MouseEventTrigger::Down { streak: click.streak, button })
                } else {
                    None
                },
                None => None,
            }
        },
        MouseEventKind::Release(p) => {
            let button = mouse_press_to_tmb(p);
            match last_click {
                Some(click) => if click.button == button {
                    Some(MouseEventTrigger::Up { streak: click.streak, button })
                } else {
                    None
                },
                None => None,
            }
        },
        MouseEventKind::Move => {
            if held.len() == 0 {
                return None;
            }
            let button = mouse_press_to_tmb(held[held.len() - 1]);
            match last_click {
                Some(click) => if click.button == button {
                    Some(MouseEventTrigger::Drag { streak: click.streak, button: click.button })
                } else {
                    None
                },
                None => None,
            }
        },
        MouseEventKind::VertWheel(n) => if n == 0 {
            None
        } else {
            Some(MouseEventTrigger::Down { streak: 1, button: vert_wheel_button(n) })
        },
        MouseEventKind::HorzWheel(n) => if n == 0 {
            None
        } else {
            Some(MouseEventTrigger::Down { streak: 1, button: horz_wheel_button(n) })
        },
    }
}

/// A wheel that turned by one notch.
pub open spec fn one_notch(button: MouseButton) -> MouseButton {
    match button {
        MouseButton::WheelUp(_) => MouseButton::WheelUp(1),
        MouseButton::WheelDown(_) => MouseButton::WheelDown(1),
        MouseButton::WheelLeft(_) => MouseButton::WheelLeft(1),
        MouseButton::WheelRight(_) => MouseButton::WheelRight(1),
        b => b,
    }
}

/// The trigger under which bindings are written: a wheel always turns by one
/// notch, once.
pub open spec fn normalized(trigger: MouseEventTrigger) -> MouseEventTrigger {
    match trigger {
        MouseEventTrigger::Down { streak, button } => MouseEventTrigger::Down {
            streak: if is_wheel(button) {
                1
            } else {
                streak
            },
            button: one_notch(button),
        },
        MouseEventTrigger::Up { streak, button } => MouseEventTrigger::Up {
            streak: if is_wheel(button) {
                1
            } else {
                streak
            },
            button: one_notch(button),
        },
        MouseEventTrigger::Drag { streak, button } => MouseEventTrigger::Drag {
            streak: if is_wheel(button) {
                1
            } else {
                streak
            },
            button: one_notch(button),
        },
    }
}

/// A button and a streak as bindings are written for them.
fn normalize_button(streak: usize, button: MouseButton) -> (r: (usize, MouseButton))
    ensures
        r.0 == (if is_wheel(button) { 1usize } else { streak }),
        r.1 == one_notch(button),
{
    match button {
        MouseButton::WheelUp(_) => (1, MouseButton::WheelUp(1)),
        MouseButton::WheelDown(_) => (1, MouseButton::WheelDown(1)),
        MouseButton::WheelLeft(_) => (1, MouseButton::WheelLeft(1)),
        MouseButton::WheelRight(_) => (1, MouseButton::WheelRight(1)),
        b => (streak, b),
    }
}

/// The trigger under which bindings are written.
pub fn normalize_trigger(trigger: MouseEventTrigger) -> (r: MouseEventTrigger)
    ensures
        r == normalized(trigger),
{
    match trigger {
        MouseEventTrigger::Down { streak, button } => {
            let (streak, button) = normalize_button(streak, button);
            MouseEventTrigger::Down { streak, button }
        },
        MouseEventTrigger::Up { streak, button } => {
            let (streak, button) = normalize_button(streak, button);
            MouseEventTrigger::Up { streak, button }
        },
        MouseEventTrigger::Drag { streak, button } => {
            let (streak, button) = normalize_button(streak, button);
            MouseEventTrigger::Drag { streak, button }
        },
    }
}

/// However far a wheel turns, the same binding is found for it, as long as it
/// turns the same way.
pub proof fn bindings_ignore_the_distance(
    n: i16,
    m: i16,
    last: Option<LastMouseClick>,
    held: Seq<MousePress>,
)
    requires
        n != 0,
        m != 0,
        n > 0 <==> m > 0,
    ensures
        trigger_of(MouseEventKind::VertWheel(n), last, held) is Some,
        trigger_of(MouseEventKind::HorzWheel(n), last, held) is Some,
        normalized(trigger_of(MouseEventKind::VertWheel(n), last, held)->0) == normalized(
            trigger_of(MouseEventKind::VertWheel(m), last, held)->0,
        ),
        normalized(trigger_of(MouseEventKind::HorzWheel(n), last, held)->0) == normalized(
            trigger_of(MouseEventKind::HorzWheel(m), last, held)->0,
        ),
{
}

/// A trigger as bindings are written stays as it is.
pub proof fn normalizing_once_is_enough(trigger: MouseEventTrigger)
    ensures
        normalized(normalized(trigger)) == normalized(trigger),
{
}

/// The button of a plain movement, for the program in the pane.
pub open spec fn moved_button(held: HeldButtons) -> MouseButton {
    match held {
        HeldButtons::LeftOnly => MouseButton::Left,
        HeldButtons::RightOnly => MouseButton::Right,
        HeldButtons::MiddleOnly => MouseButton::Middle,
        HeldButtons::Other => MouseButton::NoButton,
    }
}

/// What the program in the pane is told of an event.
pub open spec fn pane_event_of(event: MouseEvent, position: ClickPosition) -> PaneMouseEvent {
    PaneMouseEvent {
        kind: match event.kind {
            MouseEventKind::Move => PaneMouseKind::Move,
            MouseEventKind::Release(_) => PaneMouseKind::Release,
            _ => PaneMouseKind::Press,
        },
        button: match event.kind {
            MouseEventKind::Press(p) => button_of(p),
            MouseEventKind::Release(p) => button_of(p),
            MouseEventKind::Move => moved_button(event.mouse_buttons),
            MouseEventKind::VertWheel(n) => vert_button(n as int),
            MouseEventKind::HorzWheel(n) => horz_button(n as int),
        },
        x: position.column,
        y: position.row,
        x_pixel_offset: position.x_pixel_offset,
        y_pixel_offset: position.y_pixel_offset,
        modifiers: event.modifiers,
    }
}

/// What the program in the pane is told of an event.
pub fn pane_mouse_event(event: MouseEvent, position: ClickPosition) -> (r: PaneMouseEvent)
    requires
        wheel_fits(event.kind),
    ensures
        r == pane_event_of(event, position),
{
    let kind = match event.kind {
        MouseEventKind::Move => PaneMouseKind::Move,
        MouseEventKind::VertWheel(_) | MouseEventKind::HorzWheel(_) | MouseEventKind::Press(
            _,
        ) => PaneMouseKind::Press,
        MouseEventKind::Release(_) => PaneMouseKind::Release,
    };
    let button = match event.kind {
        MouseEventKind::Press(p) => mouse_press_to_tmb(p),
        MouseEventKind::Release(p) => mouse_press_to_tmb(p),
        MouseEventKind::Move => match event.mouse_buttons {
            HeldButtons::LeftOnly => MouseButton::Left,
            HeldButtons::RightOnly => MouseButton::Right,
            HeldButtons::MiddleOnly => MouseButton::Middle,
            HeldButtons::Other => MouseButton::NoButton,
        },
        MouseEventKind::VertWheel(n) => vert_wheel_button(n),
        MouseEventKind::HorzWheel(n) => horz_wheel_button(n),
    };
    PaneMouseEvent {
        kind,
        button,
        x: position.column,
        y: position.row,
        x_pixel_offset: position.x_pixel_offset,
        y_pixel_offset: position.y_pixel_offset,
        modifiers: event.modifiers,
    }
}

/// A wheel that turns up is a wheel that turns up, by as many notches, both for the
/// bindings and for the program in the pane; so it is for the other three ways, a
/// turn to the left being positive. Only a wheel that stands still triggers nothing.
pub proof fn a_wheel_turns_as_it_is_turned(
    event: MouseEvent,
    last: Option<LastMouseClick>,
    held: Seq<MousePress>,
    position: ClickPosition,
    up: bool,
    n: i16,
)
    requires
        0 <= n,
    ensures
        ({
            let amount = if up {
                n as int
            } else {
                -n
            };
            let vert = MouseEventKind::VertWheel(amount as i16);
            let horz = MouseEventKind::HorzWheel(amount as i16);
            let told = pane_event_of((MouseEvent { kind: vert, ..event }), position);
            let told_across = pane_event_of((MouseEvent { kind: horz, ..event }), position);
            &&& n == 0 ==> trigger_of(vert, last, held) is None && trigger_of(horz, last, held)
                is None
            &&& n > 0 && up ==> {
                &&& trigger_of(vert, last, held) == Some(
                    MouseEventTrigger::Down { streak: 1, button: MouseButton::WheelUp(n as usize) },
                )
                &&& trigger_of(horz, last, held) == Some(
                    MouseEventTrigger::Down {
                        streak: 1,
                        button: MouseButton::WheelLeft(n as usize),
                    },
                )
                &&& told.button == MouseButton::WheelUp(n as usize)
                &&& told_across.button == MouseButton::WheelLeft(n as usize)
            }
            &&& n > 0 && !up ==> {
                &&& trigger_of(vert, last, held) == Some(
                    MouseEventTrigger::Down {
                        streak: 1,
                        button: MouseButton::WheelDown(n as usize),
                    },
                )
                &&& trigger_of(horz, last, held) == Some(
                    MouseEventTrigger::Down {
                        streak: 1,
                        button: MouseButton::WheelRight(n as usize),
                    },
                )
                &&& told.button == MouseButton::WheelDown(n as usize)
                &&& told_across.button == MouseButton::WheelRight(n as usize)
            }
            &&& told.kind is Press && told_across.kind is Press
        }),
{
}

/// Wheels that turn opposite ways, or along different axes, never find the same
/// binding, however far they turn.
pub proof fn opposite_turns_have_different_bindings(
    n: i16,
    m: i16,
    last: Option<LastMouseClick>,
    held: Seq<MousePress>,
)
    requires
        n > 0,
        m < 0,
    ensures
        ({
            let up = trigger_of(MouseEventKind::VertWheel(n), last, held);
            let down = trigger_of(MouseEventKind::VertWheel(m), last, held);
            let left = trigger_of(MouseEventKind::HorzWheel(n), last, held);
            let right = trigger_of(MouseEventKind::HorzWheel(m), last, held);
            &&& up is Some && down is Some && left is Some && right is Some
            &&& normalized(up->0) != normalized(down->0)
            &&& normalized(left->0) != normalized(right->0)
            &&& normalized(up->0) != normalized(left->0)
            &&& normalized(up->0) != normalized(right->0)
            &&& normalized(down->0) != normalized(left->0)
            &&& normalized(down->0) != normalized(right->0)
        }),
{
}

/// A press, a release and a drag of a button trigger what bears the button's name
/// and the count of the clicks, as long as that button was clicked last. A drag is
/// one of the button that went down last.
pub proof fn buttons_trigger_under_their_names(
    press: MousePress,
    last: LastMouseClick,
    held: Seq<MousePress>,
    named: MouseButton,
)
    requires
        press is Left ==> named is Left,
        press is Right ==> named is Right,
        press is Middle ==> named is Middle,
    ensures
        trigger_of(MouseEventKind::Press(press), Some(last), held) == (if last.button == named {
            Some(MouseEventTrigger::Down { streak: last.streak, button: named })
        } else {
            None
        }),
        trigger_of(MouseEventKind::Release(press), Some(last), held) == (if last.button == named {
            Some(MouseEventTrigger::Up { streak: last.streak, button: named })
        } else {
            None
        }),
        held.len() > 0 && held[held.len() - 1] == press ==> trigger_of(
            MouseEventKind::Move,
            Some(last),
            held,
        ) == (if last.button == named {
            Some(MouseEventTrigger::Drag { streak: last.streak, button: named })
        } else {
            None
        }),
        held.len() == 0 ==> trigger_of(MouseEventKind::Move, Some(last), held) is None,
        trigger_of(MouseEventKind::Press(press), None, held) is None,
        trigger_of(MouseEventKind::Release(press), None, held) is None,
        trigger_of(MouseEventKind::Move, None, held) is None,
{
}

/// Bindings are written for one notch of a wheel and one click of it; for any other
/// button they are written as it triggers. What went down, what came up and what was
/// dragged stay apart.
pub proof fn bindings_are_for_one_notch(streak: usize, button: MouseButton, n: usize)
    ensures
        normalized(MouseEventTrigger::Down { streak, button: MouseButton::WheelUp(n) }) == (
        MouseEventTrigger::Down { streak: 1, button: MouseButton::WheelUp(1) }),
        normalized(MouseEventTrigger::Down { streak, button: MouseButton::WheelDown(n) }) == (
        MouseEventTrigger::Down { streak: 1, button: MouseButton::WheelDown(1) }),
        normalized(MouseEventTrigger::Down { streak, button: MouseButton::WheelLeft(n) }) == (
        MouseEventTrigger::Down { streak: 1, button: MouseButton::WheelLeft(1) }),
        normalized(MouseEventTrigger::Down { streak, button: MouseButton::WheelRight(n) }) == (
        MouseEventTrigger::Down { streak: 1, button: MouseButton::WheelRight(1) }),
        button is Left || button is Right || button is Middle || button is NoButton ==> {
            &&& normalized(MouseEventTrigger::Down { streak, button }) == (
            MouseEventTrigger::Down { streak, button })
            &&& normalized(MouseEventTrigger::Up { streak, button }) == (
            MouseEventTrigger::Up { streak, button })
            &&& normalized(MouseEventTrigger::Drag { streak, button }) == (
            MouseEventTrigger::Drag { streak, button })
        },
        normalized(MouseEventTrigger::Up { streak, button }) is Up,
        normalized(MouseEventTrigger::Drag { streak, button }) is Drag,
{
}

/// The program in the pane is told where the mouse is and which modifiers are down
/// as they are, a button by its name, and whether it went down, came up or moved. A
/// movement names the one button that is down, if there is only one.
pub proof fn programs_are_told_what_happened(
    event: MouseEvent,
    position: ClickPosition,
    press: MousePress,
    named: MouseButton,
)
    requires
        press is Left ==> named is Left,
        press is Right ==> named is Right,
        press is Middle ==> named is Middle,
    ensures
        ({
            let told = pane_event_of(event, position);
            &&& told.x == position.column && told.y == position.row
            &&& told.x_pixel_offset == position.x_pixel_offset
            &&& told.y_pixel_offset == position.y_pixel_offset
            &&& told.modifiers == event.modifiers
            &&& event.kind == MouseEventKind::Press(press) ==> told.kind is Press && told.button
                == named
            &&& event.kind == MouseEventKind::Release(press) ==> told.kind is Release
                && told.button == named
            &&& event.kind is Move ==> {
                &&& told.kind is Move
                &&& event.mouse_buttons is LeftOnly <==> told.button is Left
                &&& event.mouse_buttons is RightOnly <==> told.button is Right
                &&& event.mouse_buttons is MiddleOnly <==> told.button is Middle
                &&& event.mouse_buttons is Other <==> told.button is NoButton
            }
        }),
{
}

/// A button has the name under which a press of it is told.
pub proof fn buttons_keep_their_names()
    ensures
        button_of(MousePress::Left) is Left,
        button_of(MousePress::Right) is Right,
        button_of(MousePress::Middle) is Middle,
{
}

/// Taking a button out keeps the order of the others: they stand as they did, and
/// as often.
pub proof fn taking_out_keeps_the_order(front: Seq<MousePress>, back: Seq<MousePress>, p: MousePress)
    ensures
        without(front + back, p) == without(front, p) + without(back, p),
        without(seq![p], p) == Seq::<MousePress>::empty(),
        forall|q: MousePress| q != p ==> #[trigger] without(seq![q], p) == seq![q],
    decreases back.len(),
{
    if back.len() == 0 {
        assert(front + back =~= front);
        assert(without(front, p) + without(back, p) =~= without(front, p));
    } else {
        taking_out_keeps_the_order(front, back.drop_last(), p);
        assert((front + back).drop_last() =~= front + back.drop_last());
        assert(without(front + back, p) =~= without(front, p) + without(back, p));
    }
    assert(without(Seq::<MousePress>::empty(), p) == Seq::<MousePress>::empty());
    assert(seq![p].drop_last() =~= seq![]);
    assert forall|q: MousePress| q != p implies #[trigger] without(seq![q], p) == seq![q] by {
        assert(seq![q].drop_last() =~= seq![]);
        assert(without(seq![q], p) =~= seq![q]);
    }
}

/// A wheel turns by one notch in a binding for what comes up or is dragged, too, and for
/// one click. A program that is told of a wheel that stands still is told of none that
/// turns up or to the left.
pub proof fn every_wheel_binding_is_for_one_notch(
    streak: usize,
    n: usize,
    event: MouseEvent,
    position: ClickPosition,
)
    ensures
        normalized(MouseEventTrigger::Up { streak, button: MouseButton::WheelUp(n) }) == (
        MouseEventTrigger::Up { streak: 1, button: MouseButton::WheelUp(1) }),
        normalized(MouseEventTrigger::Up { streak, button: MouseButton::WheelDown(n) }) == (
        MouseEventTrigger::Up { streak: 1, button: MouseButton::WheelDown(1) }),
        normalized(MouseEventTrigger::Up { streak, button: MouseButton::WheelLeft(n) }) == (
        MouseEventTrigger::Up { streak: 1, button: MouseButton::WheelLeft(1) }),
        normalized(MouseEventTrigger::Up { streak, button: MouseButton::WheelRight(n) }) == (
        MouseEventTrigger::Up { streak: 1, button: MouseButton::WheelRight(1) }),
        normalized(MouseEventTrigger::Drag { streak, button: MouseButton::WheelUp(n) }) == (
        MouseEventTrigger::Drag { streak: 1, button: MouseButton::WheelUp(1) }),
        normalized(MouseEventTrigger::Drag { streak, button: MouseButton::WheelDown(n) }) == (
        MouseEventTrigger::Drag { streak: 1, button: MouseButton::WheelDown(1) }),
        normalized(MouseEventTrigger::Drag { streak, button: MouseButton::WheelLeft(n) }) == (
        MouseEventTrigger::Drag { streak: 1, button: MouseButton::WheelLeft(1) }),
        normalized(MouseEventTrigger::Drag { streak, button: MouseButton::WheelRight(n) }) == (
        MouseEventTrigger::Drag { streak: 1, button: MouseButton::WheelRight(1) }),
        event.kind == MouseEventKind::VertWheel(0) ==> pane_event_of(event, position).button
            == MouseButton::WheelDown(0),
        event.kind == MouseEventKind::HorzWheel(0) ==> pane_event_of(event, position).button
            == MouseButton::WheelRight(0),
{
}

/// A wheel that stands still is one that turned by nothing, and a button is a wheel if it
/// turns one of the four ways.
pub proof fn wheels_are_told_from_buttons(n: i16, amount: usize)
    ensures
        idle_wheel(MouseEventKind::VertWheel(n)) <==> n == 0,
        idle_wheel(MouseEventKind::HorzWheel(n)) <==> n == 0,
        !idle_wheel(MouseEventKind::Move),
        forall|p: MousePress| !#[trigger] idle_wheel(MouseEventKind::Press(p)),
        forall|p: MousePress| !#[trigger] idle_wheel(MouseEventKind::Release(p)),
        is_wheel(MouseButton::WheelUp(amount)) && is_wheel(MouseButton::WheelDown(amount)),
        is_wheel(MouseButton::WheelLeft(amount)) && is_wheel(MouseButton::WheelRight(amount)),
        !is_wheel(MouseButton::Left) && !is_wheel(MouseButton::Right),
        !is_wheel(MouseButton::Middle) && !is_wheel(MouseButton::NoButton),
{
}

} // verus!

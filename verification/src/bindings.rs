use vstd::prelude::*;

use crate::matrix::{Point2D, RPoint};
use crate::ratio::{ratio_of_int, Frac};

verus! {

/// The host events the controller can bind on the SVG root.
#[derive(Clone, Copy, Debug, PartialEq, Eq, Structural)]
pub enum HostEventKind {
    PointerDown,
    PointerMove,
    PointerUp,
    PointerLeave,
    MouseDown,
    MouseMove,
    MouseUp,
    MouseLeave,
    TouchStart,
    TouchMove,
    TouchEnd,
    Wheel,
}

/// What the controller does with a host event of a given kind.
#[derive(Clone, Copy, Debug, PartialEq, Eq, Structural)]
pub enum DragAction {
    /// Arms the drag (pointer down, mouse down, touch start).
    Press,
    /// Moves the drag (pointer move, mouse move, touch move).
    Move,
    /// Releases the drag (up, leave and touch-end events).
    Release,
    /// Zooms (wheel).
    Scroll,
}

pub open spec fn drag_action_spec(kind: HostEventKind) -> DragAction {
    match kind {
        HostEventKind::PointerDown => DragAction::Press,
        HostEventKind::MouseDown => DragAction::Press,
        HostEventKind::TouchStart => DragAction::Press,
        HostEventKind::PointerMove => DragAction::Move,
        HostEventKind::MouseMove => DragAction::Move,
        HostEventKind::TouchMove => DragAction::Move,
        HostEventKind::PointerUp => DragAction::Release,
        HostEventKind::PointerLeave => DragAction::Release,
        HostEventKind::MouseUp => DragAction::Release,
        HostEventKind::MouseLeave => DragAction::Release,
        HostEventKind::TouchEnd => DragAction::Release,
        HostEventKind::Wheel => DragAction::Scroll,
    }
}

/// Maps a host event to the controller move it drives.
pub fn drag_action(kind: HostEventKind) -> (r: DragAction)
    ensures
        r == drag_action_spec(kind),
{
    match kind {
        HostEventKind::PointerDown => DragAction::Press,
        HostEventKind::MouseDown => DragAction::Press,
        HostEventKind::TouchStart => DragAction::Press,
        HostEventKind::PointerMove => DragAction::Move,
        HostEventKind::MouseMove => DragAction::Move,
        HostEventKind::TouchMove => DragAction::Move,
        HostEventKind::PointerUp => DragAction::Release,
        HostEventKind::PointerLeave => DragAction::Release,
        HostEventKind::MouseUp => DragAction::Release,
        HostEventKind::MouseLeave => DragAction::Release,
        HostEventKind::TouchEnd => DragAction::Release,
        HostEventKind::Wheel => DragAction::Scroll,
    }
}

/// The event name under which a kind is bound on the host target.
pub fn event_name(kind: HostEventKind) -> (r: &'static str)
    ensures
        kind == HostEventKind::PointerDown ==> r@ == "pointerdown"@,
        kind == HostEventKind::PointerMove ==> r@ == "pointermove"@,
        kind == HostEventKind::PointerUp ==> r@ == "pointerup"@,
        kind == HostEventKind::PointerLeave ==> r@ == "pointerleave"@,
        kind == HostEventKind::MouseDown ==> r@ == "mousedown"@,
        kind == HostEventKind::MouseMove ==> r@ == "mousemove"@,
        kind == HostEventKind::MouseUp ==> r@ == "mouseup"@,
        kind == HostEventKind::MouseLeave ==> r@ == "mouseleave"@,
        kind == HostEventKind::TouchStart ==> r@ == "touchstart"@,
        kind == HostEventKind::TouchMove ==> r@ == "touchmove"@,
        kind == HostEventKind::TouchEnd ==> r@ == "touchend"@,
        kind == HostEventKind::Wheel ==> r@ == "wheel"@,
{
    match kind {
        HostEventKind::PointerDown => "pointerdown",
        HostEventKind::PointerMove => "pointermove",
        HostEventKind::PointerUp => "pointerup",
        HostEventKind::PointerLeave => "pointerleave",
        HostEventKind::MouseDown => "mousedown",
        HostEventKind::MouseMove => "mousemove",
        HostEventKind::MouseUp => "mouseup",
        HostEventKind::MouseLeave => "mouseleave",
        HostEventKind::TouchStart => "touchstart",
        HostEventKind::TouchMove => "touchmove",
        HostEventKind::TouchEnd => "touchend",
        HostEventKind::Wheel => "wheel",
    }
}

/// The drag bindings chosen at attach: the pointer set when the host
/// supports pointer events, otherwise the mouse set and the touch set
/// together.
pub open spec fn drag_event_kinds_spec(pointer_supported: bool) -> Seq<HostEventKind> {
    if pointer_supported {
        seq![
            HostEventKind::PointerDown,
            HostEventKind::PointerMove,
            HostEventKind::PointerUp,
            HostEventKind::PointerLeave,
        ]
    } else {
        seq![
            HostEventKind::MouseDown,
            HostEventKind::MouseMove,
            HostEventKind::MouseUp,
            HostEventKind::MouseLeave,
            HostEventKind::TouchStart,
            HostEventKind::TouchMove,
            HostEventKind::TouchEnd,
        ]
    }
}

/// The drag bindings to install, given the result of the host's
/// pointer-support probe.
pub fn drag_event_kinds(pointer_supported: bool) -> (r: Vec<HostEventKind>)
    ensures
        r@ == drag_event_kinds_spec(pointer_supported),
{
    let mut r: Vec<HostEventKind> = Vec::new();
    if pointer_supported {
        r.push(HostEventKind::PointerDown);
        r.push(HostEventKind::PointerMove);
        r.push(HostEventKind::PointerUp);
        r.push(HostEventKind::PointerLeave);
    } else {
        r.push(HostEventKind::MouseDown);
        r.push(HostEventKind::MouseMove);
        r.push(HostEventKind::MouseUp);
        r.push(HostEventKind::MouseLeave);
        r.push(HostEventKind::TouchStart);
        r.push(HostEventKind::TouchMove);
        r.push(HostEventKind::TouchEnd);
    }
    proof {
        assert(r@ =~= drag_event_kinds_spec(pointer_supported));
    }
    r
}

/// The zoom binding installed beside the drag set.
pub fn scroll_event_kinds() -> (r: Vec<HostEventKind>)
    ensures
        r@ == seq![HostEventKind::Wheel],
{
    let mut r: Vec<HostEventKind> = Vec::new();
    r.push(HostEventKind::Wheel);
    proof {
        assert(r@ =~= seq![HostEventKind::Wheel]);
    }
    r
}

/// The position a touch event contributes: the first touch if there is
/// one, otherwise the origin `(0, 0)`.
pub fn touch_position(touches: &Vec<Point2D>) -> (r: Point2D)
    ensures
        touches@.len() == 0 ==> r@ == (RPoint { x: ratio_of_int(0), y: ratio_of_int(0) }),
        touches@.len() > 0 ==> r == touches@[0],
{
    if touches.len() > 0 {
        touches[0]
    } else {
        Point2D::new(Frac::from_int(0), Frac::from_int(0))
    }
}

/// A scoped subscription of one host event on one target. `remove` must
/// leave the binding inactive; it is idempotent.
pub trait JsEventListener {
    /// Whether the host can still invoke the bound callback.
    spec fn active(&self) -> bool;

    fn remove(&mut self)
        ensures
            !final(self).active(),
    ;
}

/// The controller's record of one installed host binding. The host-side
/// handler itself lives outside the verified core; this record carries
/// the teardown obligation.
#[derive(Clone, Copy, Debug, PartialEq, Eq, Structural)]
pub struct HostBinding {
    /// The event the binding listens for.
    pub kind: HostEventKind,
    /// Whether the binding is still installed on the target.
    pub installed: bool,
}

impl HostBinding {
    /// Records a freshly installed binding.
    pub fn new(kind: HostEventKind) -> (r: HostBinding)
        ensures
            r == (HostBinding { kind, installed: true }),
    {
        HostBinding { kind, installed: true }
    }
}

/// After a teardown has deactivated every recorded binding, no event
/// kind finds an active binding: a late host event reaches no user code.
pub proof fn lemma_teardown_silences(bindings: Seq<HostBinding>, kind: HostEventKind)
    requires
        forall|i: int| 0 <= i < bindings.len() ==> !(#[trigger] bindings[i]).installed,
    ensures
        !exists|i: int|
            0 <= i < bindings.len() && (#[trigger] bindings[i]).kind == kind
                && bindings[i].installed,
{
}

impl JsEventListener for HostBinding {
    open spec fn active(&self) -> bool {
        self.installed
    }

    fn remove(&mut self)
        ensures
            final(self).kind == old(self).kind,
    {
        self.installed = false;
    }
}

} // verus!

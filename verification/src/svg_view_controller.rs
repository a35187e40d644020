use vstd::prelude::*;

use crate::bindings::{HostBinding, HostEventKind, JsEventListener};
use crate::events::{EventListener, EventSource};
use crate::matrix::{
    rmat_inverse, rmat_inverse_fits, rmat_invertible, rmat_wf, rpoint_transform,
    rpoint_transform_fits, rpoint_wf, rrect_wf, Matrix2D, Point2D, RMat, RPoint, RRect, Rect,
};
use crate::ratio::{
    ratio_add, ratio_fits, ratio_half, ratio_mul, ratio_of_int, ratio_sub, ratio_wf, Frac, Ratio,
};

verus! {

/// Model of a `viewBox`: origin and size.
pub ghost struct RBox {
    pub x: Ratio,
    pub y: Ratio,
    pub width: Ratio,
    pub height: Ratio,
}

pub open spec fn rbox_wf(b: RBox) -> bool {
    ratio_wf(b.x) && ratio_wf(b.y) && ratio_wf(b.width) && ratio_wf(b.height)
}

/// The live `viewBox` of the SVG root: origin and size, the single source
/// of truth for what is visible.
#[derive(Clone, Copy, Debug)]
pub struct ViewBox {
    pub x: Frac,
    pub y: Frac,
    pub width: Frac,
    pub height: Frac,
}

impl View for ViewBox {
    type V = RBox;

    open spec fn view(&self) -> RBox {
        RBox { x: self.x@, y: self.y@, width: self.width@, height: self.height@ }
    }
}

impl ViewBox {
    pub fn new(x: Frac, y: Frac, width: Frac, height: Frac) -> (r: ViewBox)
        ensures
            r@ == (RBox { x: x@, y: y@, width: width@, height: height@ }),
    {
        ViewBox { x, y, width, height }
    }
}

/// The `viewBox` forced onto the SVG root at attach: `0 0 200 200`.
pub fn default_view_box() -> (r: ViewBox)
    ensures
        r@ == (RBox {
            x: ratio_of_int(0),
            y: ratio_of_int(0),
            width: ratio_of_int(200),
            height: ratio_of_int(200),
        }),
        rbox_wf(r@),
{
    ViewBox {
        x: Frac::from_int(0),
        y: Frac::from_int(0),
        width: Frac::from_int(200),
        height: Frac::from_int(200),
    }
}

/// Published on every `viewBox` mutation: the SVG's on-screen bounding
/// rectangle in host-pixel space, with the top-left corner at `(0, 0)`.
#[derive(Debug)]
pub struct ViewUpdateEvent {
    viewport: Rect,
}

impl View for ViewUpdateEvent {
    type V = RRect;

    closed spec fn view(&self) -> RRect {
        self.viewport@
    }
}

impl ViewUpdateEvent {
    /// The viewport rectangle in host-pixel coordinates.
    pub fn viewport(&self) -> (r: &Rect)
        ensures
            r@ == self@,
    {
        &self.viewport
    }
}

/// The screen-space viewport published for client dimensions `cw x ch`.
pub open spec fn client_viewport(cw: Ratio, ch: Ratio) -> RRect {
    RRect {
        top_left: RPoint { x: ratio_of_int(0), y: ratio_of_int(0) },
        bottom_right: RPoint { x: cw, y: ch },
    }
}

/// View of an optional current-transform matrix.
pub open spec fn ctm_view(ctm: Option<&Matrix2D>) -> Option<RMat> {
    match ctm {
        Some(m) => Some(m@),
        None => None,
    }
}

/// View of an optional point.
pub open spec fn opt_point_view(p: Option<Point2D>) -> Option<RPoint> {
    match p {
        Some(q) => Some(q@),
        None => None,
    }
}

/// The screen-to-user conversion: the screen point transformed by the
/// inverse of the current transform matrix.
pub open spec fn screen_to_user(m: RMat, p: RPoint) -> RPoint {
    rpoint_transform(p, rmat_inverse(m))
}

/// The whole conversion including its failure cases: no matrix, a
/// singular matrix, or an intermediate outside the executable range.
pub open spec fn screen_to_user_opt(m: Option<RMat>, p: RPoint) -> Option<RPoint> {
    match m {
        Some(mm) => if rmat_invertible(mm) && rmat_inverse_fits(mm) && rpoint_transform_fits(
            p,
            rmat_inverse(mm),
        ) {
            Some(screen_to_user(mm, p))
        } else {
            None
        },
        None => None,
    }
}

/// Converts a screen-space point to SVG user space through the inverse
/// of the current transform matrix. `None` means the input event must be
/// dropped: no matrix, a singular matrix, or a value outside the
/// executable range.
pub fn get_point(position: &Point2D, ctm: Option<&Matrix2D>) -> (r: Option<Point2D>)
    requires
        rpoint_wf(position@),
        ctm matches Some(m) ==> rmat_wf(m@),
    ensures
        opt_point_view(r) == screen_to_user_opt(ctm_view(ctm), position@),
        r matches Some(p) ==> rpoint_wf(p@),
{
    match ctm {
        Some(m) => match m.inverse() {
            Some(inverted) => position.matrix_transform(&inverted),
            None => None,
        },
        None => None,
    }
}

/// One drag step: the user-space delta from the press origin to the
/// current pointer is subtracted from the `viewBox` origin.
pub open spec fn pan_step(b: RBox, origin: RPoint, q: RPoint) -> RBox {
    RBox {
        x: ratio_sub(b.x, ratio_sub(q.x, origin.x)),
        y: ratio_sub(b.y, ratio_sub(q.y, origin.y)),
        width: b.width,
        height: b.height,
    }
}

/// Whether every intermediate of [`pan_step`] fits the executable range.
pub open spec fn pan_fits(b: RBox, origin: RPoint, q: RPoint) -> bool {
    let dx = ratio_sub(q.x, origin.x);
    let dy = ratio_sub(q.y, origin.y);
    ratio_fits(dx) && ratio_fits(dy) && ratio_fits(ratio_sub(b.x, dx)) && ratio_fits(
        ratio_sub(b.y, dy),
    )
}

/// The wheel-to-scale constant: a signed scroll delta `d` scales the
/// `viewBox` size by `1 + d * 3/1000`.
pub open spec fn zoom_factor() -> Ratio {
    Ratio { num: 3, den: 1000 }
}

/// One zoom step: grow the size by `d * 3/1000` of itself and shift the
/// origin by half the growth, so the center stays put.
pub open spec fn zoom_step(b: RBox, d: Ratio) -> RBox {
    let k = ratio_mul(d, zoom_factor());
    let dw = ratio_mul(b.width, k);
    let dh = ratio_mul(b.height, k);
    RBox {
        x: ratio_sub(b.x, ratio_half(dw)),
        y: ratio_sub(b.y, ratio_half(dh)),
        width: ratio_add(b.width, dw),
        height: ratio_add(b.height, dh),
    }
}

/// Whether every intermediate of [`zoom_step`] fits the executable range.
pub open spec fn zoom_fits(b: RBox, d: Ratio) -> bool {
    let k = ratio_mul(d, zoom_factor());
    let dw = ratio_mul(b.width, k);
    let dh = ratio_mul(b.height, k);
    ratio_fits(k) && ratio_fits(dw) && ratio_fits(dh) && ratio_fits(ratio_add(b.width, dw))
        && ratio_fits(ratio_add(b.height, dh)) && ratio_fits(ratio_half(dw)) && ratio_fits(
        ratio_sub(b.x, ratio_half(dw)),
    ) && ratio_fits(ratio_half(dh)) && ratio_fits(ratio_sub(b.y, ratio_half(dh)))
}

fn zoom_factor_frac() -> (r: Frac)
    ensures
        r@ == zoom_factor(),
{
    Frac::new(3, 1000)
}

/// What a drag-move handler reports back to the host loop.
pub struct MoveOutcome {
    /// Whether the host event's default behaviour must be suppressed.
    pub prevent_default: bool,
    /// The published update, when the move changed the `viewBox`.
    pub update: Option<ViewUpdateEvent>,
}

/// The drag/zoom state machine behind one SVG root. It owns the
/// `viewBox` value, the press state, the view-update listeners and the
/// record of installed host bindings; the host loop feeds it pointer
/// positions, the current transform matrix and the client dimensions,
/// and writes the `viewBox` it maintains back to the document.
pub struct SvgViewController<L> {
    view_box: ViewBox,
    is_pointer_down: bool,
    pointer_origin: Point2D,
    listeners: Vec<L>,
    bindings: Vec<HostBinding>,
}

impl<L: EventListener<ViewUpdateEvent>> SvgViewController<L> {
    /// The current `viewBox`.
    pub closed spec fn view_box_spec(&self) -> RBox {
        self.view_box@
    }

    /// Whether a press has armed the drag.
    pub closed spec fn is_down(&self) -> bool {
        self.is_pointer_down
    }

    /// The user-space anchor captured by the last successful press.
    pub closed spec fn origin_spec(&self) -> RPoint {
        self.pointer_origin@
    }

    /// The recorded host bindings, in installation order.
    pub closed spec fn bindings_spec(&self) -> Seq<HostBinding> {
        self.bindings@
    }

    /// Well-formedness of the numeric state.
    pub open spec fn wf(&self) -> bool {
        rbox_wf(self.view_box_spec()) && rpoint_wf(self.origin_spec())
    }

    /// Fresh controller state over an initial `viewBox`: drag disarmed,
    /// origin at zero, no listeners, no bindings.
    pub fn new(view_box: ViewBox) -> (r: SvgViewController<L>)
        requires
            rbox_wf(view_box@),
        ensures
            r.view_box_spec() == view_box@,
            !r.is_down(),
            r.origin_spec() == (RPoint { x: ratio_of_int(0), y: ratio_of_int(0) }),
            r.listeners_view().len() == 0,
            r.bindings_spec().len() == 0,
            r.wf(),
    {
        SvgViewController {
            view_box,
            is_pointer_down: false,
            pointer_origin: Point2D::new(Frac::from_int(0), Frac::from_int(0)),
            listeners: Vec::new(),
            bindings: Vec::new(),
        }
    }

    /// The current `viewBox` value, for the host loop to write back to
    /// the document.
    pub fn view_box(&self) -> (r: &ViewBox)
        ensures
            r@ == self.view_box_spec(),
    {
        &self.view_box
    }

    /// Whether a press has armed the drag.
    pub fn is_pointer_down(&self) -> (r: bool)
        ensures
            r == self.is_down(),
    {
        self.is_pointer_down
    }

    /// The user-space anchor captured by the last successful press.
    pub fn pointer_origin(&self) -> (r: &Point2D)
        ensures
            r@ == self.origin_spec(),
    {
        &self.pointer_origin
    }

    /// The recorded host bindings.
    pub fn bindings(&self) -> (r: &Vec<HostBinding>)
        ensures
            r@ == self.bindings_spec(),
    {
        &self.bindings
    }

    /// A press arms the drag and captures the user-space origin, if and
    /// only if the screen-to-user conversion succeeds; otherwise the
    /// event is dropped and nothing changes.
    pub fn on_pointer_down(&mut self, position: Point2D, ctm: Option<&Matrix2D>)
        requires
            old(self).wf(),
            rpoint_wf(position@),
            ctm matches Some(m) ==> rmat_wf(m@),
        ensures
            final(self).wf(),
            final(self).view_box_spec() == old(self).view_box_spec(),
            final(self).listeners_view() == old(self).listeners_view(),
            final(self).bindings_spec() == old(self).bindings_spec(),
            ({
                match screen_to_user_opt(ctm_view(ctm), position@) {
                    Some(q) => final(self).is_down() && final(self).origin_spec() == q,
                    None => final(self).is_down() == old(self).is_down() && final(self).origin_spec() == old(self).origin_spec(),
                }
            }),
            final(self).is_down() == (screen_to_user_opt(ctm_view(ctm), position@) is Some || old(
                self,
            ).is_down()),
    {
        if let Some(point) = get_point(&position, ctm) {
            self.is_pointer_down = true;
            self.pointer_origin = point;
        }
    }

    /// A move while the drag is armed pans the `viewBox` by the
    /// user-space delta from the press origin and publishes one update;
    /// the press origin itself is left untouched. A move while disarmed
    /// is a no-op that publishes nothing. The host default is suppressed
    /// exactly while the drag is armed.
    pub fn on_pointer_move(
        &mut self,
        position: Point2D,
        ctm: Option<&Matrix2D>,
        client_width: Frac,
        client_height: Frac,
    ) -> (r: MoveOutcome)
        requires
            old(self).wf(),
            rpoint_wf(position@),
            ctm matches Some(m) ==> rmat_wf(m@),
            ratio_wf(client_width@),
            ratio_wf(client_height@),
        ensures
            final(self).wf(),
            final(self).is_down() == old(self).is_down(),
            final(self).origin_spec() == old(self).origin_spec(),
            final(self).listeners_view() == old(self).listeners_view(),
            final(self).bindings_spec() == old(self).bindings_spec(),
            r.prevent_default == old(self).is_down(),
            !old(self).is_down() ==> final(self).view_box_spec() == old(self).view_box_spec()
                && r.update is None,
            old(self).is_down() ==> ({
                match screen_to_user_opt(ctm_view(ctm), position@) {
                    Some(q) => if pan_fits(
                        old(self).view_box_spec(),
                        old(self).origin_spec(),
                        q,
                    ) {
                        final(self).view_box_spec() == pan_step(
                            old(self).view_box_spec(),
                            old(self).origin_spec(),
                            q,
                        ) && (r.update matches Some(e) && e@ == client_viewport(
                            client_width@,
                            client_height@,
                        ))
                    } else {
                        final(self).view_box_spec() == old(self).view_box_spec()
                            && r.update is None
                    },
                    None => final(self).view_box_spec() == old(self).view_box_spec()
                        && r.update is None,
                }
            }),
    {
        if !self.is_pointer_down {
            return MoveOutcome { prevent_default: false, update: None };
        }
        let q = match get_point(&position, ctm) {
            Some(q) => q,
            None => {
                return MoveOutcome { prevent_default: true, update: None };
            },
        };
        let dx = match q.x.sub(&self.pointer_origin.x) {
            Some(v) => v,
            None => {
                return MoveOutcome { prevent_default: true, update: None };
            },
        };
        let dy = match q.y.sub(&self.pointer_origin.y) {
            Some(v) => v,
            None => {
                return MoveOutcome { prevent_default: true, update: None };
            },
        };
        let nx = match self.view_box.x.sub(&dx) {
            Some(v) => v,
            None => {
                return MoveOutcome { prevent_default: true, update: None };
            },
        };
        let ny = match self.view_box.y.sub(&dy) {
            Some(v) => v,
            None => {
                return MoveOutcome { prevent_default: true, update: None };
            },
        };
        self.view_box.x = nx;
        self.view_box.y = ny;
        let ev = self.dispatch_event(client_width, client_height);
        MoveOutcome { prevent_default: true, update: Some(ev) }
    }

    /// A release (or a leave) disarms the drag; everything else stays.
    pub fn on_pointer_up(&mut self)
        requires
            old(self).wf(),
        ensures
            final(self).wf(),
            !final(self).is_down(),
            final(self).view_box_spec() == old(self).view_box_spec(),
            final(self).origin_spec() == old(self).origin_spec(),
            final(self).listeners_view() == old(self).listeners_view(),
            final(self).bindings_spec() == old(self).bindings_spec(),
    {
        self.is_pointer_down = false;
    }

    /// A wheel with signed delta `d` zooms toward the `viewBox` center
    /// and publishes one update. A zero delta leaves the `viewBox`
    /// untouched but still publishes; a step whose exact result leaves
    /// the executable range drops the event. The host default is always
    /// suppressed. The cursor position is received but unused: the zoom
    /// is anchored at the center by design.
    pub fn on_scroll(
        &mut self,
        delta_y: Frac,
        _position: Point2D,
        client_width: Frac,
        client_height: Frac,
    ) -> (r: Option<ViewUpdateEvent>)
        requires
            old(self).wf(),
            ratio_wf(delta_y@),
            ratio_wf(client_width@),
            ratio_wf(client_height@),
        ensures
            final(self).wf(),
            final(self).is_down() == old(self).is_down(),
            final(self).origin_spec() == old(self).origin_spec(),
            final(self).listeners_view() == old(self).listeners_view(),
            final(self).bindings_spec() == old(self).bindings_spec(),
            r is Some <==> (delta_y@.num == 0 || zoom_fits(old(self).view_box_spec(), delta_y@)),
            delta_y@.num == 0 ==> final(self).view_box_spec() == old(self).view_box_spec(),
            delta_y@.num != 0 && zoom_fits(old(self).view_box_spec(), delta_y@) ==> final(self).view_box_spec() == zoom_step(old(self).view_box_spec(), delta_y@),
            delta_y@.num != 0 && !zoom_fits(old(self).view_box_spec(), delta_y@) ==> final(self).view_box_spec() == old(self).view_box_spec(),
            r matches Some(e) ==> e@ == client_viewport(client_width@, client_height@),
    {
        if delta_y.is_zero() {
            let ev = self.dispatch_event(client_width, client_height);
            return Some(ev);
        }
        let k = match delta_y.mul(&zoom_factor_frac()) {
            Some(v) => v,
            None => {
                return None;
            },
        };
        let dw = match self.view_box.width.mul(&k) {
            Some(v) => v,
            None => {
                return None;
            },
        };
        let dh = match self.view_box.height.mul(&k) {
            Some(v) => v,
            None => {
                return None;
            },
        };
        let nw = match self.view_box.width.add(&dw) {
            Some(v) => v,
            None => {
                return None;
            },
        };
        let nh = match self.view_box.height.add(&dh) {
            Some(v) => v,
            None => {
                return None;
            },
        };
        let hw = match dw.half() {
            Some(v) => v,
            None => {
                return None;
            },
        };
        let nx = match self.view_box.x.sub(&hw) {
            Some(v) => v,
            None => {
                return None;
            },
        };
        let hh = match dh.half() {
            Some(v) => v,
            None => {
                return None;
            },
        };
        let ny = match self.view_box.y.sub(&hh) {
            Some(v) => v,
            None => {
                return None;
            },
        };
        self.view_box.width = nw;
        self.view_box.height = nh;
        self.view_box.x = nx;
        self.view_box.y = ny;
        let ev = self.dispatch_event(client_width, client_height);
        Some(ev)
    }

    /// Builds the screen-space viewport from the client dimensions and
    /// delivers it to every listener in registration order.
    fn dispatch_event(&self, client_width: Frac, client_height: Frac) -> (ev: ViewUpdateEvent)
        requires
            ratio_wf(client_width@),
            ratio_wf(client_height@),
        ensures
            ev@ == client_viewport(client_width@, client_height@),
            rrect_wf(ev@),
    {
        let viewport = Rect::new(
            Point2D::new(Frac::from_int(0), Frac::from_int(0)),
            Point2D::new(client_width, client_height),
        );
        let event = ViewUpdateEvent { viewport };
        let mut i: usize = 0;
        while i < self.listeners.len()
            invariant
                i <= self.listeners.len(),
            decreases self.listeners.len() - i,
        {
            self.listeners[i].receive(&event);
            i = i + 1;
        }
        event
    }

    /// Records a host binding installed on the SVG root.
    pub fn record_binding(&mut self, kind: HostEventKind)
        requires
            old(self).wf(),
        ensures
            final(self).wf(),
            final(self).bindings_spec() == old(self).bindings_spec().push(
                HostBinding { kind, installed: true },
            ),
            final(self).view_box_spec() == old(self).view_box_spec(),
            final(self).is_down() == old(self).is_down(),
            final(self).origin_spec() == old(self).origin_spec(),
            final(self).listeners_view() == old(self).listeners_view(),
    {
        self.bindings.push(HostBinding::new(kind));
    }

    /// Removes every recorded binding. After teardown no binding is
    /// active, so a late host event finds nothing to invoke.
    pub fn teardown(&mut self)
        requires
            old(self).wf(),
        ensures
            final(self).wf(),
            final(self).bindings_spec().len() == old(self).bindings_spec().len(),
            forall|i: int|
                0 <= i < final(self).bindings_spec().len() ==> !(
                #[trigger] final(self).bindings_spec()[i]).installed && final(self).bindings_spec()[i].kind == old(self).bindings_spec()[i].kind,
            final(self).view_box_spec() == old(self).view_box_spec(),
            final(self).is_down() == old(self).is_down(),
            final(self).origin_spec() == old(self).origin_spec(),
            final(self).listeners_view() == old(self).listeners_view(),
    {
        let n = self.bindings.len();
        let mut i: usize = 0;
        while i < n
            invariant
                n == self.bindings.len(),
                n == old(self).bindings.len(),
                i <= n,
                self.view_box == old(self).view_box,
                self.is_pointer_down == old(self).is_pointer_down,
                self.pointer_origin == old(self).pointer_origin,
                self.listeners == old(self).listeners,
                forall|j: int|
                    0 <= j < i ==> !(#[trigger] self.bindings@[j]).installed
                        && self.bindings@[j].kind == old(self).bindings@[j].kind,
                forall|j: int| i <= j < n ==> self.bindings@[j] == old(self).bindings@[j],
            decreases n - i,
        {
            let mut b = self.bindings[i];
            b.remove();
            self.bindings.set(i, b);
            i = i + 1;
        }
    }

    /// Whether a still-installed binding listens for `kind`: only then
    /// can a host event of that kind reach the controller.
    pub fn has_active_binding(&self, kind: HostEventKind) -> (r: bool)
        ensures
            r == exists|i: int|
                0 <= i < self.bindings_spec().len() && (#[trigger] self.bindings_spec()[i]).kind
                    == kind && self.bindings_spec()[i].installed,
    {
        let n = self.bindings.len();
        let mut i: usize = 0;
        while i < n
            invariant
                n == self.bindings.len(),
                i <= n,
                forall|j: int|
                    0 <= j < i ==> !((#[trigger] self.bindings@[j]).kind == kind
                        && self.bindings@[j].installed),
            decreases n - i,
        {
            if self.bindings[i].kind == kind && self.bindings[i].installed {
                return true;
            }
            i = i + 1;
        }
        false
    }
}

impl<L: EventListener<ViewUpdateEvent>> EventSource<ViewUpdateEvent, L> for SvgViewController<
    L,
> {
    closed spec fn listeners_view(&self) -> Seq<L> {
        self.listeners@
    }

    fn register_listener(&mut self, listener: L) {
        self.listeners.push(listener);
    }
}

} // verus!

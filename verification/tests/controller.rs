use std::cell::RefCell;
use std::rc::Rc;

use archizoom::bindings::{
    drag_action, drag_event_kinds, event_name, scroll_event_kinds, touch_position, DragAction,
    HostEventKind,
};
use archizoom::events::{EventListener, EventSource};
use archizoom::matrix::{Matrix2D, Point2D, Rect};
use archizoom::ratio::Frac;
use archizoom::svg_view_controller::{
    default_view_box, get_point, SvgViewController, ViewBox, ViewUpdateEvent,
};
use archizoom::visibility::{
    defanged_href, href_marks_zoom_region, region_in_view_check, ArchiZoom,
};

struct Recorder {
    count: Rc<RefCell<usize>>,
}

impl EventListener<ViewUpdateEvent> for Recorder {
    fn receive(&self, _event: &ViewUpdateEvent) {
        *self.count.borrow_mut() += 1;
    }
}

fn fr(n: i64) -> Frac {
    Frac::from_int(n)
}

fn identity() -> Matrix2D {
    Matrix2D::from_js(fr(1), fr(0), fr(0), fr(1), fr(0), fr(0))
}

fn singular() -> Matrix2D {
    Matrix2D::from_js(fr(0), fr(0), fr(0), fr(0), fr(0), fr(0))
}

fn controller() -> SvgViewController<Recorder> {
    SvgViewController::new(default_view_box())
}

fn assert_box_value(c: &SvgViewController<Recorder>, x: i64, y: i64, w: i64, h: i64) {
    let vb = c.view_box();
    assert!(vb.x.equals(&fr(x)), "x: {:?}", vb.x);
    assert!(vb.y.equals(&fr(y)), "y: {:?}", vb.y);
    assert!(vb.width.equals(&fr(w)), "width: {:?}", vb.width);
    assert!(vb.height.equals(&fr(h)), "height: {:?}", vb.height);
}

#[test]
fn pan_press_move_release() {
    let mut c = controller();
    let count = Rc::new(RefCell::new(0usize));
    c.register_listener(Recorder { count: count.clone() });
    let m = identity();
    c.on_pointer_down(Point2D::new(fr(50), fr(50)), Some(&m));
    assert!(c.is_pointer_down());
    let out = c.on_pointer_move(Point2D::new(fr(70), fr(40)), Some(&m), fr(400), fr(400));
    assert!(out.prevent_default);
    assert!(out.update.is_some());
    c.on_pointer_up();
    assert!(!c.is_pointer_down());
    assert_box_value(&c, -20, 10, 200, 200);
    assert_eq!(*count.borrow(), 1);
}

#[test]
fn zoom_out_exact() {
    let mut c = controller();
    let count = Rc::new(RefCell::new(0usize));
    c.register_listener(Recorder { count: count.clone() });
    let ev = c.on_scroll(fr(100), Point2D::new(fr(0), fr(0)), fr(400), fr(400));
    assert!(ev.is_some());
    assert_box_value(&c, -30, -30, 260, 260);
    assert_eq!(*count.borrow(), 1);
    // the center is preserved
    let vb = c.view_box();
    let cx = vb.x.add(&vb.width.half().unwrap()).unwrap();
    let cy = vb.y.add(&vb.height.half().unwrap()).unwrap();
    assert!(cx.equals(&fr(100)));
    assert!(cy.equals(&fr(100)));
}

#[test]
fn zoom_in_exact() {
    let mut c = controller();
    let ev = c.on_scroll(fr(-100), Point2D::new(fr(0), fr(0)), fr(400), fr(400));
    assert!(ev.is_some());
    assert_box_value(&c, 30, 30, 140, 140);
    let vb = c.view_box();
    let cx = vb.x.add(&vb.width.half().unwrap()).unwrap();
    assert!(cx.equals(&fr(100)));
}

#[test]
fn zoom_zero_delta_bit_identical() {
    let mut c = controller();
    let before = *c.view_box();
    let ev = c.on_scroll(fr(0), Point2D::new(fr(3), fr(4)), fr(400), fr(400));
    assert!(ev.is_some());
    let after = *c.view_box();
    assert_eq!(before.x.num(), after.x.num());
    assert_eq!(before.x.den(), after.x.den());
    assert_eq!(before.y.num(), after.y.num());
    assert_eq!(before.y.den(), after.y.den());
    assert_eq!(before.width.num(), after.width.num());
    assert_eq!(before.width.den(), after.width.den());
    assert_eq!(before.height.num(), after.height.num());
    assert_eq!(before.height.den(), after.height.den());
}

#[test]
fn move_without_press_is_noop() {
    let mut c = controller();
    let count = Rc::new(RefCell::new(0usize));
    c.register_listener(Recorder { count: count.clone() });
    let m = identity();
    let out = c.on_pointer_move(Point2D::new(fr(70), fr(40)), Some(&m), fr(400), fr(400));
    assert!(!out.prevent_default);
    assert!(out.update.is_none());
    assert_box_value(&c, 0, 0, 200, 200);
    assert_eq!(*count.borrow(), 0);
}

#[test]
fn press_with_singular_ctm_does_not_arm() {
    let mut c = controller();
    let m = singular();
    c.on_pointer_down(Point2D::new(fr(50), fr(50)), Some(&m));
    assert!(!c.is_pointer_down());
    let out = c.on_pointer_move(Point2D::new(fr(70), fr(40)), Some(&m), fr(400), fr(400));
    assert!(out.update.is_none());
    assert_box_value(&c, 0, 0, 200, 200);
}

#[test]
fn press_without_ctm_does_not_arm() {
    let mut c = controller();
    c.on_pointer_down(Point2D::new(fr(50), fr(50)), None);
    assert!(!c.is_pointer_down());
}

#[test]
fn zoom_is_multiplicative_and_commutative() {
    let mut c1 = controller();
    c1.on_scroll(fr(100), Point2D::new(fr(0), fr(0)), fr(400), fr(400));
    c1.on_scroll(fr(50), Point2D::new(fr(0), fr(0)), fr(400), fr(400));
    let mut c2 = controller();
    c2.on_scroll(fr(50), Point2D::new(fr(0), fr(0)), fr(400), fr(400));
    c2.on_scroll(fr(100), Point2D::new(fr(0), fr(0)), fr(400), fr(400));
    // 200 * 1.3 * 1.15 = 299
    assert!(c1.view_box().width.equals(&fr(299)));
    assert!(c1.view_box().width.equals(&c2.view_box().width));
    assert!(c1.view_box().height.equals(&c2.view_box().height));
}

#[test]
fn teardown_silences_bindings() {
    let mut c = controller();
    let count = Rc::new(RefCell::new(0usize));
    c.register_listener(Recorder { count: count.clone() });
    for kind in drag_event_kinds(true) {
        c.record_binding(kind);
    }
    for kind in scroll_event_kinds() {
        c.record_binding(kind);
    }
    assert!(c.has_active_binding(HostEventKind::PointerMove));
    assert!(c.has_active_binding(HostEventKind::Wheel));
    let m = identity();
    c.on_pointer_down(Point2D::new(fr(50), fr(50)), Some(&m));
    c.on_pointer_move(Point2D::new(fr(70), fr(40)), Some(&m), fr(400), fr(400));
    c.on_pointer_up();
    assert_eq!(*count.borrow(), 1);
    c.teardown();
    assert!(!c.has_active_binding(HostEventKind::PointerMove));
    assert!(!c.has_active_binding(HostEventKind::PointerDown));
    assert!(!c.has_active_binding(HostEventKind::Wheel));
    // a late move delivered anyway still reaches no listener
    let out = c.on_pointer_move(Point2D::new(fr(80), fr(80)), Some(&m), fr(400), fr(400));
    assert!(out.update.is_none());
    assert_eq!(*count.borrow(), 1);
}

#[test]
fn touch_position_empty_is_origin() {
    let touches: Vec<Point2D> = vec![];
    let p = touch_position(&touches);
    assert!(p.x.equals(&fr(0)));
    assert!(p.y.equals(&fr(0)));
    let touches = vec![Point2D::new(fr(7), fr(9)), Point2D::new(fr(1), fr(2))];
    let p = touch_position(&touches);
    assert!(p.x.equals(&fr(7)));
    assert!(p.y.equals(&fr(9)));
}

#[test]
fn event_kind_sets_and_names() {
    let pointer = drag_event_kinds(true);
    assert_eq!(pointer.len(), 4);
    assert_eq!(event_name(pointer[0]), "pointerdown");
    assert_eq!(event_name(pointer[1]), "pointermove");
    assert_eq!(event_name(pointer[2]), "pointerup");
    assert_eq!(event_name(pointer[3]), "pointerleave");
    let fallback = drag_event_kinds(false);
    assert_eq!(fallback.len(), 7);
    assert_eq!(event_name(fallback[0]), "mousedown");
    assert_eq!(event_name(fallback[4]), "touchstart");
    assert_eq!(event_name(fallback[6]), "touchend");
    assert_eq!(drag_action(HostEventKind::TouchStart), DragAction::Press);
    assert_eq!(drag_action(HostEventKind::MouseLeave), DragAction::Release);
    assert_eq!(drag_action(HostEventKind::Wheel), DragAction::Scroll);
}

#[test]
fn screen_to_user_round_trip() {
    // x' = 2x + 5, y' = 2y + 7
    let m = Matrix2D::from_js(fr(2), fr(0), fr(0), fr(2), fr(5), fr(7));
    let p = Point2D::new(fr(9), fr(11));
    let forward = p.matrix_transform(&m).unwrap();
    assert!(forward.x.equals(&fr(23)));
    assert!(forward.y.equals(&fr(29)));
    let back = get_point(&forward, Some(&m)).unwrap();
    assert!(back.x.equals(&fr(9)));
    assert!(back.y.equals(&fr(11)));
}

#[test]
fn region_coverage_threshold() {
    let viewport = Rect::new(Point2D::new(fr(0), fr(0)), Point2D::new(fr(400), fr(400)));
    let small = Rect::new(Point2D::new(fr(100), fr(100)), Point2D::new(fr(300), fr(300)));
    // coverage 200*200 / 160000 = 0.25 < 0.45
    assert!(!region_in_view_check(&viewport, &small));
    let large = Rect::new(Point2D::new(fr(50), fr(50)), Point2D::new(fr(350), fr(350)));
    // coverage 300*300 / 160000 = 0.5625 >= 0.45
    assert!(region_in_view_check(&viewport, &large));
}

#[test]
fn disjoint_region_gives_no_signal() {
    let viewport = Rect::new(Point2D::new(fr(0), fr(0)), Point2D::new(fr(400), fr(400)));
    let right_of = Rect::new(Point2D::new(fr(500), fr(0)), Point2D::new(fr(600), fr(400)));
    assert!(!region_in_view_check(&viewport, &right_of));
    let below = Rect::new(Point2D::new(fr(0), fr(500)), Point2D::new(fr(400), fr(600)));
    assert!(!region_in_view_check(&viewport, &below));
}

#[test]
fn zoom_region_selection_and_visibility() {
    let hrefs: Vec<Vec<u8>> = vec![
        b"https://example.net/plain".to_vec(),
        b"#archizoom:link-a".to_vec(),
        b"about:blank".to_vec(),
        b"x#archizoom:link-b".to_vec(),
    ];
    let az = ArchiZoom::new(&hrefs);
    assert_eq!(az.region_count(), 2);
    assert_eq!(az.regions()[0].index, 1);
    assert_eq!(az.regions()[1].index, 3);
    assert_eq!(az.regions()[0].original_href, b"#archizoom:link-a".to_vec());
    assert_eq!(defanged_href(), "#");

    // obtain a published event with a 400 x 400 viewport
    let mut c = controller();
    let ev = c.on_scroll(fr(0), Point2D::new(fr(0), fr(0)), fr(400), fr(400)).unwrap();
    let in_rect = Rect::new(Point2D::new(fr(50), fr(50)), Point2D::new(fr(350), fr(350)));
    let rects = vec![Some(in_rect), None];
    let signals = az.view_update(&ev, &rects);
    assert_eq!(signals, vec![true, false]);
}

#[test]
fn marker_matching() {
    assert!(href_marks_zoom_region(&b"#archizoom:link".to_vec()));
    assert!(href_marks_zoom_region(&b"pre#archizoom:linkpost".to_vec()));
    assert!(!href_marks_zoom_region(&b"#archizoom".to_vec()));
    assert!(!href_marks_zoom_region(&b"".to_vec()));
    assert!(!href_marks_zoom_region(&b"archizoom:link".to_vec()[..14].to_vec()));
}

#[test]
fn frac_exact_arithmetic() {
    let third = Frac::new(1, 3);
    let sixth = Frac::new(1, 6);
    let half = Frac::new(1, 2);
    assert!(third.add(&sixth).unwrap().equals(&half));
    assert!(half.sub(&third).unwrap().equals(&sixth));
    assert!(half.mul(&third).unwrap().equals(&sixth));
    assert!(sixth.div(&third).unwrap().equals(&half));
    assert!(half.le(&half));
    assert!(third.lt(&half));
    assert!(!half.lt(&third));
    assert!(Frac::new(2, 4).equals(&half));
    // an exact result outside the representable range is refused
    assert!(Frac::new(i64::MAX, 1).add(&Frac::new(1, 1)).is_none());
    assert!(Frac::new(i64::MIN, 1).neg().is_none());
}

#[test]
fn viewport_event_shape() {
    let mut c = controller();
    let ev = c.on_scroll(fr(0), Point2D::new(fr(0), fr(0)), fr(640), fr(480)).unwrap();
    let viewport = ev.viewport();
    assert!(viewport.left().equals(&fr(0)));
    assert!(viewport.top().equals(&fr(0)));
    assert!(viewport.right().equals(&fr(640)));
    assert!(viewport.bottom().equals(&fr(480)));
    assert!(viewport.width().unwrap().equals(&fr(640)));
    assert!(viewport.height().unwrap().equals(&fr(480)));
    assert!(viewport.area().unwrap().equals(&Frac::new(307200, 1)));
}

#[test]
fn view_box_construction() {
    let vb = ViewBox::new(fr(1), fr(2), fr(3), fr(4));
    assert!(vb.x.equals(&fr(1)));
    assert!(vb.height.equals(&fr(4)));
    let d = default_view_box();
    assert!(d.width.equals(&fr(200)));
}

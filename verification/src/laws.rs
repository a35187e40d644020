use vstd::prelude::*;

use crate::ratio::{
    lemma_ratio_eq_mul, lemma_ratio_eq_trans, lemma_ratio_mul_assoc, lemma_ratio_mul_comm,
    lemma_ratio_mul_one, lemma_ratio_ops_wf, ratio_add, ratio_eq, ratio_half, ratio_mul,
    ratio_of_int, ratio_sub, ratio_wf, Ratio,
};
use crate::svg_view_controller::{rbox_wf, zoom_factor, zoom_step, RBox};

verus! {

/// The factor by which one wheel step of signed delta `d` scales the
/// `viewBox` size: `1 + d * 3/1000`.
pub open spec fn zoom_scale(d: Ratio) -> Ratio {
    ratio_add(ratio_of_int(1), ratio_mul(d, zoom_factor()))
}

/// Growing a value by a `k`-th of itself is scaling it by `1 + k`.
proof fn lemma_grow_is_scale(a: Ratio, k: Ratio)
    by (nonlinear_arith)
    requires
        ratio_wf(a),
        ratio_wf(k),
    ensures
        ratio_eq(ratio_add(a, ratio_mul(a, k)), ratio_mul(a, ratio_add(ratio_of_int(1), k))),
{
}

/// A zoom step keeps the `viewBox` components well-formed.
pub proof fn lemma_zoom_step_wf(b: RBox, d: Ratio)
    requires
        rbox_wf(b),
        ratio_wf(d),
    ensures
        rbox_wf(zoom_step(b, d)),
{
    let k = ratio_mul(d, zoom_factor());
    lemma_ratio_ops_wf(d, zoom_factor());
    lemma_ratio_ops_wf(b.width, k);
    lemma_ratio_ops_wf(b.height, k);
    let dw = ratio_mul(b.width, k);
    let dh = ratio_mul(b.height, k);
    lemma_ratio_ops_wf(dw, dw);
    lemma_ratio_ops_wf(dh, dh);
    lemma_ratio_ops_wf(b.x, ratio_half(dw));
    lemma_ratio_ops_wf(b.y, ratio_half(dh));
    lemma_ratio_ops_wf(b.width, dw);
    lemma_ratio_ops_wf(b.height, dh);
}

/// The `viewBox` after wheel steps with deltas `ds`, applied in order.
pub open spec fn zoom_run(b: RBox, ds: Seq<Ratio>) -> RBox
    decreases ds.len(),
{
    if ds.len() == 0 {
        b
    } else {
        zoom_step(zoom_run(b, ds.drop_last()), ds.last())
    }
}

/// The product of the per-step scale factors of `ds`.
pub open spec fn zoom_scale_product(ds: Seq<Ratio>) -> Ratio
    decreases ds.len(),
{
    if ds.len() == 0 {
        ratio_of_int(1)
    } else {
        ratio_mul(zoom_scale_product(ds.drop_last()), zoom_scale(ds.last()))
    }
}

pub open spec fn ratios_wf(ds: Seq<Ratio>) -> bool {
    forall|i: int| 0 <= i < ds.len() ==> ratio_wf(#[trigger] ds[i])
}

/// A run of zoom steps keeps the `viewBox` components well-formed.
pub proof fn lemma_zoom_run_wf(b: RBox, ds: Seq<Ratio>)
    requires
        rbox_wf(b),
        ratios_wf(ds),
    ensures
        rbox_wf(zoom_run(b, ds)),
    decreases ds.len(),
{
    if ds.len() > 0 {
        assert(ratios_wf(ds.drop_last()));
        lemma_zoom_run_wf(b, ds.drop_last());
        lemma_zoom_step_wf(zoom_run(b, ds.drop_last()), ds.last());
    }
}

/// The product of scale factors is well-formed.
pub proof fn lemma_zoom_scale_product_wf(ds: Seq<Ratio>)
    requires
        ratios_wf(ds),
    ensures
        ratio_wf(zoom_scale_product(ds)),
    decreases ds.len(),
{
    if ds.len() == 0 {
    } else {
        assert(ratios_wf(ds.drop_last()));
        lemma_zoom_scale_product_wf(ds.drop_last());
        lemma_ratio_ops_wf(ds.last(), zoom_factor());
        lemma_ratio_ops_wf(ratio_of_int(1), ratio_mul(ds.last(), zoom_factor()));
        lemma_ratio_ops_wf(zoom_scale_product(ds.drop_last()), zoom_scale(ds.last()));
    }
}

/// Zoom is multiplicative: after any wheel steps `ds`, the `viewBox`
/// width and height equal the initial ones times the product of the
/// per-step factors `1 + 0.003 * d`.
pub proof fn lemma_zoom_multiplicative(b: RBox, ds: Seq<Ratio>)
    requires
        rbox_wf(b),
        ratios_wf(ds),
    ensures
        ratio_eq(zoom_run(b, ds).width, ratio_mul(b.width, zoom_scale_product(ds))),
        ratio_eq(zoom_run(b, ds).height, ratio_mul(b.height, zoom_scale_product(ds))),
    decreases ds.len(),
{
    if ds.len() == 0 {
        lemma_ratio_mul_one(b.width);
        lemma_ratio_mul_one(b.height);
    } else {
        let tail = ds.drop_last();
        let d = ds.last();
        assert(ratios_wf(tail));
        lemma_zoom_multiplicative(b, tail);
        lemma_zoom_run_wf(b, tail);
        lemma_zoom_scale_product_wf(tail);
        let prev = zoom_run(b, tail);
        lemma_zoom_step_wf(prev, d);
        let k = ratio_mul(d, zoom_factor());
        let s = zoom_scale(d);
        let p = zoom_scale_product(tail);
        lemma_ratio_ops_wf(d, zoom_factor());
        lemma_ratio_ops_wf(ratio_of_int(1), k);
        lemma_ratio_ops_wf(prev.width, s);
        lemma_ratio_ops_wf(prev.height, s);
        lemma_ratio_ops_wf(b.width, p);
        lemma_ratio_ops_wf(b.height, p);
        lemma_ratio_ops_wf(ratio_mul(b.width, p), s);
        lemma_ratio_ops_wf(ratio_mul(b.height, p), s);
        lemma_ratio_ops_wf(p, s);
        lemma_ratio_ops_wf(b.width, ratio_mul(p, s));
        lemma_ratio_ops_wf(b.height, ratio_mul(p, s));
        // width
        lemma_grow_is_scale(prev.width, k);
        lemma_ratio_eq_mul(prev.width, ratio_mul(b.width, p), s);
        lemma_ratio_mul_assoc(b.width, p, s);
        lemma_ratio_eq_trans(
            zoom_run(b, ds).width,
            ratio_mul(prev.width, s),
            ratio_mul(ratio_mul(b.width, p), s),
        );
        assert(ratio_mul(ratio_mul(b.width, p), s) == ratio_mul(b.width, zoom_scale_product(ds)));
        // height
        lemma_grow_is_scale(prev.height, k);
        lemma_ratio_eq_mul(prev.height, ratio_mul(b.height, p), s);
        lemma_ratio_mul_assoc(b.height, p, s);
        lemma_ratio_eq_trans(
            zoom_run(b, ds).height,
            ratio_mul(prev.height, s),
            ratio_mul(ratio_mul(b.height, p), s),
        );
        assert(ratio_mul(ratio_mul(b.height, p), s) == ratio_mul(
            b.height,
            zoom_scale_product(ds),
        ));
    }
}

/// Two consecutive wheel steps commute: the width and height after
/// `d1` then `d2` equal those after `d2` then `d1`.
pub proof fn lemma_zoom_commutative(b: RBox, d1: Ratio, d2: Ratio)
    requires
        rbox_wf(b),
        ratio_wf(d1),
        ratio_wf(d2),
    ensures
        ratio_eq(zoom_run(b, seq![d1, d2]).width, zoom_run(b, seq![d2, d1]).width),
        ratio_eq(zoom_run(b, seq![d1, d2]).height, zoom_run(b, seq![d2, d1]).height),
{
    let s12 = seq![d1, d2];
    let s21 = seq![d2, d1];
    assert(ratios_wf(s12));
    assert(ratios_wf(s21));
    lemma_zoom_multiplicative(b, s12);
    lemma_zoom_multiplicative(b, s21);
    lemma_zoom_run_wf(b, s12);
    lemma_zoom_run_wf(b, s21);
    lemma_zoom_scale_product_wf(s12);
    lemma_zoom_scale_product_wf(s21);
    let p12 = zoom_scale_product(s12);
    let p21 = zoom_scale_product(s21);
    assert(s12.drop_last() =~= seq![d1]);
    assert(s21.drop_last() =~= seq![d2]);
    assert(seq![d1].drop_last() =~= Seq::<Ratio>::empty());
    assert(seq![d2].drop_last() =~= Seq::<Ratio>::empty());
    assert(zoom_scale_product(Seq::<Ratio>::empty()) == ratio_of_int(1));
    assert(zoom_scale_product(seq![d1]) == ratio_mul(ratio_of_int(1), zoom_scale(d1)));
    assert(zoom_scale_product(seq![d2]) == ratio_mul(ratio_of_int(1), zoom_scale(d2)));
    assert(p12 == ratio_mul(zoom_scale_product(seq![d1]), zoom_scale(d2)));
    assert(p21 == ratio_mul(zoom_scale_product(seq![d2]), zoom_scale(d1)));
    assert(p12 == ratio_mul(ratio_mul(ratio_of_int(1), zoom_scale(d1)), zoom_scale(d2)));
    assert(p21 == ratio_mul(ratio_mul(ratio_of_int(1), zoom_scale(d2)), zoom_scale(d1)));
    lemma_ratio_mul_assoc(ratio_of_int(1), zoom_scale(d1), zoom_scale(d2));
    lemma_ratio_mul_assoc(ratio_of_int(1), zoom_scale(d2), zoom_scale(d1));
    lemma_ratio_mul_comm(zoom_scale(d1), zoom_scale(d2));
    assert(p12 == p21);
    lemma_ratio_eq_mul(p12, p21, b.width);
    lemma_ratio_mul_comm(p12, b.width);
    lemma_ratio_mul_comm(p21, b.width);
    lemma_ratio_ops_wf(d1, zoom_factor());
    lemma_ratio_ops_wf(d2, zoom_factor());
    lemma_ratio_ops_wf(ratio_of_int(1), ratio_mul(d1, zoom_factor()));
    lemma_ratio_ops_wf(ratio_of_int(1), ratio_mul(d2, zoom_factor()));
    lemma_ratio_ops_wf(b.width, p12);
    lemma_ratio_ops_wf(b.height, p12);
    lemma_ratio_eq_trans(zoom_run(b, s12).width, ratio_mul(b.width, p12), zoom_run(b, s21).width);
    lemma_ratio_eq_trans(
        zoom_run(b, s12).height,
        ratio_mul(b.height, p12),
        zoom_run(b, s21).height,
    );
}

/// Horizontal center of a `viewBox`.
pub open spec fn rbox_center_x(b: RBox) -> Ratio {
    ratio_add(b.x, ratio_half(b.width))
}

/// Vertical center of a `viewBox`.
pub open spec fn rbox_center_y(b: RBox) -> Ratio {
    ratio_add(b.y, ratio_half(b.height))
}

/// Shifting an origin back by half the growth keeps the center still.
proof fn lemma_center_shift(x: Ratio, w: Ratio, dw: Ratio)
    requires
        ratio_wf(x),
        ratio_wf(w),
        ratio_wf(dw),
    ensures
        ratio_eq(
            ratio_add(ratio_sub(x, ratio_half(dw)), ratio_half(ratio_add(w, dw))),
            ratio_add(x, ratio_half(w)),
        ),
{
    let lhs = ratio_add(ratio_sub(x, ratio_half(dw)), ratio_half(ratio_add(w, dw)));
    let rhs = ratio_add(x, ratio_half(w));
    // Expand the two products of the left numerator; the growth terms
    // cancel, leaving the right numerator scaled by twice the squared
    // growth denominator.
    assert(lhs.num == 4 * x.num * w.den * dw.den * dw.den + 2 * w.num * x.den * dw.den * dw.den)
        by {
        broadcast use vstd::arithmetic::mul::group_mul_properties;

    }
    assert(2 * dw.den * dw.den * rhs.num == lhs.num) by {
        broadcast use vstd::arithmetic::mul::group_mul_properties;

    }
    assert(lhs.den == 4 * x.den * w.den * dw.den * dw.den) by {
        broadcast use vstd::arithmetic::mul::group_mul_properties;

    }
    assert(lhs.num * rhs.den == rhs.num * lhs.den) by {
        broadcast use vstd::arithmetic::mul::group_mul_properties;

    }
}

/// A zoom step preserves the center of the `viewBox`: the point at the
/// center before the step is the point at the center after it.
pub proof fn lemma_zoom_center_preserved(b: RBox, d: Ratio)
    requires
        rbox_wf(b),
        ratio_wf(d),
    ensures
        ratio_eq(rbox_center_x(zoom_step(b, d)), rbox_center_x(b)),
        ratio_eq(rbox_center_y(zoom_step(b, d)), rbox_center_y(b)),
{
    let k = ratio_mul(d, zoom_factor());
    lemma_ratio_ops_wf(d, zoom_factor());
    lemma_ratio_ops_wf(b.width, k);
    lemma_ratio_ops_wf(b.height, k);
    lemma_center_shift(b.x, b.width, ratio_mul(b.width, k));
    lemma_center_shift(b.y, b.height, ratio_mul(b.height, k));
}

/// One observed drag input: a press that did or did not arm the drag, a
/// move, or a release (a leave counts as a release).
pub enum DragEvent {
    Press(bool),
    Move,
    Release,
}

/// The press state after a sequence of drag inputs, mirroring the
/// controller's transitions: a successful press arms, a failed press
/// changes nothing, a move changes nothing, a release disarms.
pub open spec fn down_after(s: Seq<DragEvent>) -> bool
    decreases s.len(),
{
    if s.len() == 0 {
        false
    } else {
        match s.last() {
            DragEvent::Press(armed) => armed || down_after(s.drop_last()),
            DragEvent::Move => down_after(s.drop_last()),
            DragEvent::Release => false,
        }
    }
}

/// No release occurs after position `i`.
pub open spec fn no_release_after(s: Seq<DragEvent>, i: int) -> bool {
    forall|j: int| i < j < s.len() ==> !((#[trigger] s[j]) is Release)
}

/// Some successful press is not followed by any release.
pub open spec fn pressed_since_release(s: Seq<DragEvent>) -> bool {
    exists|i: int|
        0 <= i < s.len() && (#[trigger] s[i]) == DragEvent::Press(true) && no_release_after(s, i)
}

/// The pointer is down exactly strictly between a successful press and
/// the next release: after any input sequence, the press state holds if
/// and only if some successful press has no release after it.
pub proof fn lemma_pointer_down_between(s: Seq<DragEvent>)
    ensures
        down_after(s) <==> pressed_since_release(s),
    decreases s.len(),
{
    if s.len() == 0 {
    } else {
        let t = s.drop_last();
        lemma_pointer_down_between(t);
        let n = s.len() - 1;
        match s.last() {
            DragEvent::Press(armed) => {
                if armed {
                    assert(s[n] == DragEvent::Press(true));
                    assert(no_release_after(s, n));
                    assert(pressed_since_release(s));
                } else {
                    lemma_last_neutral(s);
                }
            },
            DragEvent::Move => {
                lemma_last_neutral(s);
            },
            DragEvent::Release => {
                assert(!down_after(s));
                assert forall|i: int|
                    0 <= i < s.len() && (#[trigger] s[i]) == DragEvent::Press(
                        true,
                    ) implies !no_release_after(s, i) by {
                    assert(s[n] is Release);
                    assert(i < n);
                }
                assert(!pressed_since_release(s));
            },
        }
    }
}

/// A trailing input that is neither a successful press nor a release
/// leaves the press predicate where it was.
proof fn lemma_last_neutral(s: Seq<DragEvent>)
    requires
        s.len() >= 1,
        !(s.last() is Release),
        s.last() != DragEvent::Press(true),
    ensures
        pressed_since_release(s) <==> pressed_since_release(s.drop_last()),
{
    let t = s.drop_last();
    let n = s.len() - 1;
    if pressed_since_release(t) {
        let i = choose|i: int|
            0 <= i < t.len() && (#[trigger] t[i]) == DragEvent::Press(true) && no_release_after(
                t,
                i,
            );
        assert(s[i] == DragEvent::Press(true));
        assert forall|j: int| i < j < s.len() implies !((#[trigger] s[j]) is Release) by {
            if j < n {
                assert(t[j] == s[j]);
            }
        }
        assert(pressed_since_release(s));
    }
    if pressed_since_release(s) {
        let i = choose|i: int|
            0 <= i < s.len() && (#[trigger] s[i]) == DragEvent::Press(true) && no_release_after(
                s,
                i,
            );
        assert(i < n);
        assert(t[i] == s[i]);
        assert forall|j: int| i < j < t.len() implies !((#[trigger] t[j]) is Release) by {
            assert(t[j] == s[j]);
        }
        assert(pressed_since_release(t));
    }
}

} // verus!

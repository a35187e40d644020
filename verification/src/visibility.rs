use vstd::prelude::*;

use crate::matrix::{rrect_area, rrect_wf, RRect, Rect};
use crate::ratio::{
    lemma_pos_prod, ratio_div, ratio_fits, ratio_le, ratio_lt, ratio_max, ratio_min, ratio_mul, ratio_of_int,
    ratio_sub, ratio_wf, Frac, Ratio,
};
use crate::svg_view_controller::ViewUpdateEvent;

verus! {

/// The marker substring that turns a link's `href` into a zoom region:
/// `#archizoom:link`.
pub open spec fn zoom_region_marker() -> Seq<u8> {
    seq![35u8, 97u8, 114u8, 99u8, 104u8, 105u8, 122u8, 111u8, 111u8, 109u8, 58u8, 108u8, 105u8, 110u8, 107u8]
}

/// The marker as bytes.
pub fn zoom_region_marker_bytes() -> (r: Vec<u8>)
    ensures
        r@ == zoom_region_marker(),
{
    let mut r: Vec<u8> = Vec::new();
    r.push(35);
    r.push(97);
    r.push(114);
    r.push(99);
    r.push(104);
    r.push(105);
    r.push(122);
    r.push(111);
    r.push(111);
    r.push(109);
    r.push(58);
    r.push(108);
    r.push(105);
    r.push(110);
    r.push(107);
    proof {
        assert(r@ =~= zoom_region_marker());
    }
    r
}

/// Whether `needle` occurs contiguously inside `hay`.
pub open spec fn contains_subseq(hay: Seq<u8>, needle: Seq<u8>) -> bool {
    exists|i: int|
        0 <= i && i + needle.len() <= hay.len() && #[trigger] hay.subrange(
            i,
            i + needle.len(),
        ) == needle
}

/// Whether `needle` starts at position `i` of `hay`.
fn matches_at(hay: &Vec<u8>, needle: &Vec<u8>, i: usize) -> (r: bool)
    requires
        i + needle@.len() <= hay@.len(),
    ensures
        r == (hay@.subrange(i as int, i as int + needle@.len() as int) == needle@),
{
    let n = hay.len();
    let m = needle.len();
    let mut j: usize = 0;
    while j < m
        invariant
            n == hay@.len(),
            m == needle@.len(),
            i + m <= n,
            j <= m,
            forall|t: int| 0 <= t < j ==> hay@[i + t] == needle@[t],
        decreases m - j,
    {
        if hay[i + j] != needle[j] {
            proof {
                assert(hay@.subrange(i as int, i as int + m as int)[j as int] == hay@[i + j]);
            }
            return false;
        }
        j = j + 1;
    }
    proof {
        assert(hay@.subrange(i as int, i as int + m as int) =~= needle@);
    }
    true
}

/// Whether `needle` occurs contiguously inside `hay`.
pub fn contains_subseq_bytes(hay: &Vec<u8>, needle: &Vec<u8>) -> (r: bool)
    ensures
        r == contains_subseq(hay@, needle@),
{
    let n = hay.len();
    let m = needle.len();
    if m > n {
        return false;
    }
    if m == 0 {
        proof {
            assert(hay@.subrange(0, 0 + needle@.len() as int) =~= needle@);
            assert(contains_subseq(hay@, needle@));
        }
        return true;
    }
    let mut i: usize = 0;
    while i <= n - m
        invariant
            n == hay@.len(),
            m == needle@.len(),
            1 <= m <= n,
            i <= n - m + 1,
            forall|k: int|
                0 <= k < i ==> #[trigger] hay@.subrange(k, k + needle@.len()) != needle@,
        decreases n - m + 1 - i,
    {
        if matches_at(hay, needle, i) {
            return true;
        }
        i = i + 1;
    }
    false
}

/// Whether an `href` value marks its link element as a zoom region.
pub open spec fn is_zoom_region_href(h: Seq<u8>) -> bool {
    contains_subseq(h, zoom_region_marker())
}

/// Whether an `href` value marks its link element as a zoom region.
pub fn href_marks_zoom_region(href: &Vec<u8>) -> (r: bool)
    ensures
        r == is_zoom_region_href(href@),
{
    let marker = zoom_region_marker_bytes();
    contains_subseq_bytes(href, &marker)
}

/// What a marked link's live `href` is rewritten to at attach, so the
/// element can no longer be followed as a link.
pub fn defanged_href() -> (r: &'static str)
    ensures
        r@ == "#"@,
{
    "#"
}

/// A marked link element inside the SVG: where it stood in the scanned
/// candidate list, and the `href` it carried before it was defanged.
pub struct ZoomRegion {
    /// Position in the candidate list handed to [`ArchiZoom::new`].
    pub index: usize,
    /// The marker-bearing `href` recorded at attach.
    pub original_href: Vec<u8>,
}

/// Copies a byte vector.
fn clone_bytes(v: &Vec<u8>) -> (r: Vec<u8>)
    ensures
        r@ == v@,
{
    let mut r: Vec<u8> = Vec::new();
    let mut i: usize = 0;
    while i < v.len()
        invariant
            i <= v@.len(),
            r@ == v@.subrange(0, i as int),
        decreases v@.len() - i,
    {
        r.push(v[i]);
        proof {
            assert(r@ =~= v@.subrange(0, i + 1));
        }
        i = i + 1;
    }
    proof {
        assert(v@.subrange(0, v@.len() as int) =~= v@);
    }
    r
}

/// The fraction of the viewport a region must cover to count as in
/// view: `9/20`.
pub open spec fn view_threshold() -> Ratio {
    Ratio { num: 9, den: 20 }
}

/// One-dimensional overlap of two intervals; negative when disjoint.
pub open spec fn overlap_1d(a_left: Ratio, a_right: Ratio, b_left: Ratio, b_right: Ratio) -> Ratio {
    ratio_sub(ratio_min(a_right, b_right), ratio_max(a_left, b_left))
}

/// Horizontal overlap of a viewport and a region rectangle.
pub open spec fn overlap_x(v: RRect, r: RRect) -> Ratio {
    overlap_1d(v.top_left.x, v.bottom_right.x, r.top_left.x, r.bottom_right.x)
}

/// Vertical overlap of a viewport and a region rectangle.
pub open spec fn overlap_y(v: RRect, r: RRect) -> Ratio {
    overlap_1d(v.top_left.y, v.bottom_right.y, r.top_left.y, r.bottom_right.y)
}

/// Coverage: the (unclamped) overlap area over the viewport area.
pub open spec fn coverage(v: RRect, r: RRect) -> Ratio {
    ratio_div(ratio_mul(overlap_x(v, r), overlap_y(v, r)), rrect_area(v))
}

/// The in-view decision: the viewport area is nonzero and the coverage
/// reaches the threshold.
pub open spec fn region_in_view(v: RRect, r: RRect) -> bool {
    rrect_area(v).num != 0 && ratio_le(view_threshold(), coverage(v, r))
}

/// Whether every intermediate of the in-view decision fits the
/// executable range.
pub open spec fn region_in_view_fits(v: RRect, r: RRect) -> bool {
    let ox = overlap_x(v, r);
    let oy = overlap_y(v, r);
    let area = rrect_area(v);
    ratio_fits(ox) && ratio_fits(oy) && ratio_fits(crate::matrix::rrect_width(v)) && ratio_fits(
        crate::matrix::rrect_height(v),
    ) && ratio_fits(area) && ratio_fits(ratio_mul(ox, oy)) && (area.num != 0 ==> ratio_fits(
        ratio_div(ratio_mul(ox, oy), area),
    ))
}

/// One-dimensional overlap `min(a_right, b_right) - max(a_left, b_left)`;
/// `None` exactly when the difference leaves the executable range.
pub fn overlap(a_left: Frac, a_right: Frac, b_left: Frac, b_right: Frac) -> (r: Option<Frac>)
    requires
        ratio_wf(a_left@),
        ratio_wf(a_right@),
        ratio_wf(b_left@),
        ratio_wf(b_right@),
    ensures
        r is Some <==> ratio_fits(overlap_1d(a_left@, a_right@, b_left@, b_right@)),
        r matches Some(o) ==> o@ == overlap_1d(a_left@, a_right@, b_left@, b_right@) && ratio_wf(
            o@,
        ),
    {
    let lesser_right = a_right.min_with(&b_right);
    let greater_left = a_left.max_with(&b_left);
    lesser_right.sub(&greater_left)
}

/// The in-view decision for one region rectangle against the viewport.
/// A value outside the executable range drops the region for this
/// update, as an unavailable geometry query would.
pub fn region_in_view_check(viewport: &Rect, region: &Rect) -> (r: bool)
    requires
        rrect_wf(viewport@),
        rrect_wf(region@),
    ensures
        region_in_view_fits(viewport@, region@) ==> r == region_in_view(viewport@, region@),
        !region_in_view_fits(viewport@, region@) ==> r == false,
{
    let ox = match overlap(viewport.left(), viewport.right(), region.left(), region.right()) {
        Some(v) => v,
        None => {
            return false;
        },
    };
    let oy = match overlap(viewport.top(), viewport.bottom(), region.top(), region.bottom()) {
        Some(v) => v,
        None => {
            return false;
        },
    };
    let total_area = match viewport.area() {
        Some(v) => v,
        None => {
            return false;
        },
    };
    let viewable_area = match ox.mul(&oy) {
        Some(v) => v,
        None => {
            return false;
        },
    };
    if total_area.is_zero() {
        return false;
    }
    let area_percentage = match viewable_area.div(&total_area) {
        Some(v) => v,
        None => {
            return false;
        },
    };
    let threshold = Frac::new(9, 20);
    threshold.le(&area_percentage)
}

/// A viewport and a region that are disjoint along one axis and not
/// overlapping backwards on the other give nonpositive coverage, so the
/// threshold check fails and no signal fires. (When the rectangles are
/// disjoint along both axes at once the two negative overlaps multiply
/// to a positive coverage, so that case is left out here.)
pub proof fn lemma_disjoint_region_not_in_view(v: RRect, r: RRect)
    requires
        rrect_wf(v),
        rrect_wf(r),
        ratio_lt(ratio_of_int(0), rrect_area(v)),
        (ratio_lt(overlap_x(v, r), ratio_of_int(0)) && ratio_le(ratio_of_int(0), overlap_y(v, r)))
            || (ratio_lt(overlap_y(v, r), ratio_of_int(0)) && ratio_le(
            ratio_of_int(0),
            overlap_x(v, r),
        )),
    ensures
        ratio_le(coverage(v, r), ratio_of_int(0)),
        !region_in_view(v, r),
{
    let ox = overlap_x(v, r);
    let oy = overlap_y(v, r);
    let area = rrect_area(v);
    let prod = ratio_mul(ox, oy);
    let cov = coverage(v, r);
    lemma_pos_prod(ratio_min(v.bottom_right.x, r.bottom_right.x).den, ratio_max(v.top_left.x, r.top_left.x).den);
    lemma_pos_prod(ratio_min(v.bottom_right.y, r.bottom_right.y).den, ratio_max(v.top_left.y, r.top_left.y).den);
    lemma_pos_prod(v.bottom_right.x.den, v.top_left.x.den);
    lemma_pos_prod(v.bottom_right.y.den, v.top_left.y.den);
    lemma_pos_prod(crate::matrix::rrect_width(v).den, crate::matrix::rrect_height(v).den);
    lemma_pos_prod(ox.den, oy.den);
    lemma_pos_prod(prod.den, area.num);
    assert(prod.num <= 0) by (nonlinear_arith)
        requires
            prod.num == ox.num * oy.num,
            (ox.num < 0 && oy.num >= 0) || (oy.num < 0 && ox.num >= 0),
    ;
    assert(cov.num <= 0) by (nonlinear_arith)
        requires
            cov.num == prod.num * area.den,
            prod.num <= 0,
            area.den > 0,
    ;
}

/// The zoom-region visibility evaluator: the fixed set of marked link
/// elements found at attach, watched against every published viewport.
pub struct ArchiZoom {
    zoom_regions: Vec<ZoomRegion>,
}

impl ArchiZoom {
    /// The recorded regions, in document order.
    pub closed spec fn regions_spec(&self) -> Seq<ZoomRegion> {
        self.zoom_regions@
    }

    /// Scans the candidate `href` values (one per link element, in
    /// document order) and records exactly the marked ones, each with
    /// its place in the candidate list.
    pub fn new(hrefs: &Vec<Vec<u8>>) -> (r: ArchiZoom)
        ensures
            forall|k: int|
                0 <= k < r.regions_spec().len() ==> (#[trigger] r.regions_spec()[k]).index
                    < hrefs@.len() && is_zoom_region_href(
                    hrefs@[r.regions_spec()[k].index as int]@,
                ) && r.regions_spec()[k].original_href@ == hrefs@[r.regions_spec()[k].index as int]@,
            forall|k1: int, k2: int|
                0 <= k1 < k2 < r.regions_spec().len() ==> (#[trigger] r.regions_spec()[k1]).index
                    < (#[trigger] r.regions_spec()[k2]).index,
            forall|i: int|
                0 <= i < hrefs@.len() && is_zoom_region_href(#[trigger] hrefs@[i]@) ==> exists|k: int|
                    0 <= k < r.regions_spec().len() && (#[trigger] r.regions_spec()[k]).index == i,
    {
        let mut zoom_regions: Vec<ZoomRegion> = Vec::new();
        let mut i: usize = 0;
        while i < hrefs.len()
            invariant
                i <= hrefs@.len(),
                forall|k: int|
                    0 <= k < zoom_regions@.len() ==> (#[trigger] zoom_regions@[k]).index < i
                        && is_zoom_region_href(hrefs@[zoom_regions@[k].index as int]@)
                        && zoom_regions@[k].original_href@ == hrefs@[zoom_regions@[k].index as int]@,
                forall|k1: int, k2: int|
                    0 <= k1 < k2 < zoom_regions@.len() ==> (#[trigger] zoom_regions@[k1]).index < (
                    #[trigger] zoom_regions@[k2]).index,
                forall|i0: int|
                    0 <= i0 < i && is_zoom_region_href(#[trigger] hrefs@[i0]@) ==> exists|k: int|
                        0 <= k < zoom_regions@.len() && (#[trigger] zoom_regions@[k]).index == i0,
            decreases hrefs@.len() - i,
        {
            if href_marks_zoom_region(&hrefs[i]) {
                let ghost prev = zoom_regions@;
                zoom_regions.push(ZoomRegion { index: i, original_href: clone_bytes(&hrefs[i]) });
                proof {
                    assert forall|i0: int|
                        0 <= i0 < i + 1 && is_zoom_region_href(
                            #[trigger] hrefs@[i0]@,
                        ) implies exists|k: int|
                        0 <= k < zoom_regions@.len() && (#[trigger] zoom_regions@[k]).index
                            == i0 by {
                        if i0 == i {
                            assert(zoom_regions@[prev.len() as int].index == i0);
                        } else {
                            let k = choose|k: int|
                                0 <= k < prev.len() && (#[trigger] prev[k]).index == i0;
                            assert(zoom_regions@[k].index == i0);
                        }
                    }
                }
            }
            i = i + 1;
        }
        let ghost regs = zoom_regions@;
        let r = ArchiZoom { zoom_regions };
        proof {
            assert forall|i0: int|
                0 <= i0 < hrefs@.len() && is_zoom_region_href(
                    #[trigger] hrefs@[i0]@,
                ) implies exists|k: int|
                0 <= k < r.regions_spec().len() && (#[trigger] r.regions_spec()[k]).index
                    == i0 by {
                let k = choose|k: int| 0 <= k < regs.len() && (#[trigger] regs[k]).index == i0;
                assert(r.regions_spec()[k].index == i0);
            }
        }
        r
    }

    /// How many regions were recorded.
    pub fn region_count(&self) -> (r: usize)
        ensures
            r == self.regions_spec().len(),
    {
        self.zoom_regions.len()
    }

    /// The recorded regions.
    pub fn regions(&self) -> (r: &Vec<ZoomRegion>)
        ensures
            r@ == self.regions_spec(),
    {
        &self.zoom_regions
    }

    /// One view update: decides for every region, from its screen-space
    /// rectangle (or `None` where the host could not provide one), whether
    /// it is in view. Regions without a rectangle are skipped.
    pub fn view_update(&self, event: &ViewUpdateEvent, region_rects: &Vec<Option<Rect>>) -> (signals:
        Vec<bool>)
        requires
            rrect_wf(event@),
            region_rects@.len() == self.regions_spec().len(),
            forall|k: int|
                0 <= k < region_rects@.len() ==> ((#[trigger] region_rects@[k]) matches Some(rr)
                    ==> rrect_wf(rr@)),
        ensures
            signals@.len() == region_rects@.len(),
            forall|k: int|
                0 <= k < signals@.len() ==> #[trigger] signals@[k] == (match region_rects@[k] {
                    Some(rr) => region_in_view_fits(event@, rr@) && region_in_view(event@, rr@),
                    None => false,
                }),
    {
        let viewport = event.viewport();
        let mut signals: Vec<bool> = Vec::new();
        let mut k: usize = 0;
        while k < region_rects.len()
            invariant
                k <= region_rects@.len(),
                signals@.len() == k as int,
                rrect_wf(viewport@),
                viewport@ == event@,
                forall|k0: int|
                    0 <= k0 < region_rects@.len() ==> ((#[trigger] region_rects@[k0]) matches Some(
                        rr,
                    ) ==> rrect_wf(rr@)),
                forall|k0: int|
                    0 <= k0 < k ==> #[trigger] signals@[k0] == (match region_rects@[k0] {
                        Some(rr) => region_in_view_fits(event@, rr@) && region_in_view(event@, rr@),
                        None => false,
                    }),
            decreases region_rects@.len() - k,
        {
            let s = match &region_rects[k] {
                Some(rr) => region_in_view_check(viewport, rr),
                None => false,
            };
            signals.push(s);
            k = k + 1;
        }
        signals
    }
}

} // verus!

use vstd::prelude::*;

use crate::ratio::{
    ratio_add, ratio_div, ratio_fits, ratio_mul, ratio_neg, ratio_sub, ratio_wf, Frac, Ratio,
};

verus! {

/// Model of a two-dimensional point.
pub ghost struct RPoint {
    pub x: Ratio,
    pub y: Ratio,
}

/// Model of an axis-aligned rectangle stored by its two corners.
pub ghost struct RRect {
    pub top_left: RPoint,
    pub bottom_right: RPoint,
}

/// Model of a 2x3 affine matrix `[a c e; b d f]`.
pub ghost struct RMat {
    pub a: Ratio,
    pub b: Ratio,
    pub c: Ratio,
    pub d: Ratio,
    pub e: Ratio,
    pub f: Ratio,
}

pub open spec fn rpoint_wf(p: RPoint) -> bool {
    ratio_wf(p.x) && ratio_wf(p.y)
}

pub open spec fn rrect_wf(r: RRect) -> bool {
    rpoint_wf(r.top_left) && rpoint_wf(r.bottom_right)
}

pub open spec fn rmat_wf(m: RMat) -> bool {
    ratio_wf(m.a) && ratio_wf(m.b) && ratio_wf(m.c) && ratio_wf(m.d) && ratio_wf(m.e)
        && ratio_wf(m.f)
}

/// Applying the affine matrix to a point:
/// `x' = a*x + c*y + e` and `y' = b*x + d*y + f`.
pub open spec fn rpoint_transform(p: RPoint, m: RMat) -> RPoint {
    RPoint {
        x: ratio_add(ratio_add(ratio_mul(p.x, m.a), ratio_mul(p.y, m.c)), m.e),
        y: ratio_add(ratio_add(ratio_mul(p.x, m.b), ratio_mul(p.y, m.d)), m.f),
    }
}

/// Whether every intermediate of [`rpoint_transform`] fits the executable
/// representation.
pub open spec fn rpoint_transform_fits(p: RPoint, m: RMat) -> bool {
    let xa = ratio_mul(p.x, m.a);
    let yc = ratio_mul(p.y, m.c);
    let xs = ratio_add(xa, yc);
    let xb = ratio_mul(p.x, m.b);
    let yd = ratio_mul(p.y, m.d);
    let ys = ratio_add(xb, yd);
    ratio_fits(xa) && ratio_fits(yc) && ratio_fits(xs) && ratio_fits(ratio_add(xs, m.e))
        && ratio_fits(xb) && ratio_fits(yd) && ratio_fits(ys) && ratio_fits(ratio_add(ys, m.f))
}

/// Transforming a rectangle transforms both corners.
pub open spec fn rrect_transform(r: RRect, m: RMat) -> RRect {
    RRect {
        top_left: rpoint_transform(r.top_left, m),
        bottom_right: rpoint_transform(r.bottom_right, m),
    }
}

pub open spec fn rrect_transform_fits(r: RRect, m: RMat) -> bool {
    rpoint_transform_fits(r.top_left, m) && rpoint_transform_fits(r.bottom_right, m)
}

/// Width of a rectangle: `right - left`.
pub open spec fn rrect_width(r: RRect) -> Ratio {
    ratio_sub(r.bottom_right.x, r.top_left.x)
}

/// Height of a rectangle: `bottom - top`.
pub open spec fn rrect_height(r: RRect) -> Ratio {
    ratio_sub(r.bottom_right.y, r.top_left.y)
}

/// Area of a rectangle: `width * height`.
pub open spec fn rrect_area(r: RRect) -> Ratio {
    ratio_mul(rrect_width(r), rrect_height(r))
}

/// Determinant of the linear part: `a*d - b*c`.
pub open spec fn rmat_det(m: RMat) -> Ratio {
    ratio_sub(ratio_mul(m.a, m.d), ratio_mul(m.b, m.c))
}

/// A well-formed determinant is zero exactly when its numerator is.
pub open spec fn rmat_invertible(m: RMat) -> bool {
    rmat_det(m).num != 0
}

/// Inverse of the affine matrix, defined when the determinant is nonzero.
pub open spec fn rmat_inverse(m: RMat) -> RMat {
    let det = rmat_det(m);
    RMat {
        a: ratio_div(m.d, det),
        b: ratio_div(ratio_neg(m.b), det),
        c: ratio_div(ratio_neg(m.c), det),
        d: ratio_div(m.a, det),
        e: ratio_div(ratio_sub(ratio_mul(m.c, m.f), ratio_mul(m.d, m.e)), det),
        f: ratio_div(ratio_sub(ratio_mul(m.b, m.e), ratio_mul(m.a, m.f)), det),
    }
}

/// Whether every intermediate of [`rmat_inverse`] fits the executable
/// representation.
pub open spec fn rmat_inverse_fits(m: RMat) -> bool {
    let ad = ratio_mul(m.a, m.d);
    let bc = ratio_mul(m.b, m.c);
    let det = rmat_det(m);
    let cf = ratio_mul(m.c, m.f);
    let de = ratio_mul(m.d, m.e);
    let be = ratio_mul(m.b, m.e);
    let af = ratio_mul(m.a, m.f);
    ratio_fits(ad) && ratio_fits(bc) && ratio_fits(det) && ratio_fits(ratio_div(m.d, det))
        && ratio_fits(ratio_neg(m.b)) && ratio_fits(ratio_div(ratio_neg(m.b), det))
        && ratio_fits(ratio_neg(m.c)) && ratio_fits(ratio_div(ratio_neg(m.c), det))
        && ratio_fits(ratio_div(m.a, det)) && ratio_fits(cf) && ratio_fits(de)
        && ratio_fits(ratio_sub(cf, de)) && ratio_fits(ratio_div(ratio_sub(cf, de), det))
        && ratio_fits(be) && ratio_fits(af) && ratio_fits(ratio_sub(be, af))
        && ratio_fits(ratio_div(ratio_sub(be, af), det))
}

/// A two-dimensional point with exact rational coordinates.
#[derive(Clone, Copy, Debug)]
pub struct Point2D {
    pub x: Frac,
    pub y: Frac,
}

impl View for Point2D {
    type V = RPoint;

    open spec fn view(&self) -> RPoint {
        RPoint { x: self.x@, y: self.y@ }
    }
}

impl Point2D {
    pub fn new(x: Frac, y: Frac) -> (r: Point2D)
        ensures
            r@ == (RPoint { x: x@, y: y@ }),
    {
        Point2D { x, y }
    }

    /// Applies the affine matrix; `None` exactly when an intermediate
    /// leaves the executable range.
    pub fn matrix_transform(&self, matrix: &Matrix2D) -> (r: Option<Point2D>)
        requires
            rpoint_wf(self@),
            rmat_wf(matrix@),
        ensures
            r is Some <==> rpoint_transform_fits(self@, matrix@),
            r matches Some(p) ==> p@ == rpoint_transform(self@, matrix@) && rpoint_wf(p@),
    {
        let xa = self.x.mul(&matrix.a)?;
        let yc = self.y.mul(&matrix.c)?;
        let xs = xa.add(&yc)?;
        let x = xs.add(&matrix.e)?;
        let xb = self.x.mul(&matrix.b)?;
        let yd = self.y.mul(&matrix.d)?;
        let ys = xb.add(&yd)?;
        let y = ys.add(&matrix.f)?;
        Some(Point2D { x, y })
    }
}

/// An axis-aligned rectangle stored as two corners.
#[derive(Clone, Copy, Debug)]
pub struct Rect {
    pub top_left: Point2D,
    pub bottom_right: Point2D,
}

impl View for Rect {
    type V = RRect;

    open spec fn view(&self) -> RRect {
        RRect { top_left: self.top_left@, bottom_right: self.bottom_right@ }
    }
}

impl Rect {
    pub fn new(top_left: Point2D, bottom_right: Point2D) -> (r: Rect)
        ensures
            r@ == (RRect { top_left: top_left@, bottom_right: bottom_right@ }),
    {
        Rect { top_left, bottom_right }
    }

    /// Builds a rectangle from an origin and a size, the shape in which a
    /// host SVG bounding box arrives; `None` exactly when a corner leaves
    /// the executable range.
    pub fn from_svg(x: Frac, y: Frac, width: Frac, height: Frac) -> (r: Option<Rect>)
        requires
            ratio_wf(x@),
            ratio_wf(y@),
            ratio_wf(width@),
            ratio_wf(height@),
        ensures
            r is Some <==> ratio_fits(ratio_add(x@, width@)) && ratio_fits(
                ratio_add(y@, height@),
            ),
            r matches Some(rect) ==> rect@ == (RRect {
                top_left: RPoint { x: x@, y: y@ },
                bottom_right: RPoint {
                    x: ratio_add(x@, width@),
                    y: ratio_add(y@, height@),
                },
            }) && rrect_wf(rect@),
    {
        let right = x.add(&width)?;
        let bottom = y.add(&height)?;
        Some(Rect {
            top_left: Point2D { x, y },
            bottom_right: Point2D { x: right, y: bottom },
        })
    }

    /// Transforms both corners; `None` exactly when an intermediate leaves
    /// the executable range.
    pub fn matrix_transform(&self, matrix: &Matrix2D) -> (r: Option<Rect>)
        requires
            rrect_wf(self@),
            rmat_wf(matrix@),
        ensures
            r is Some <==> rrect_transform_fits(self@, matrix@),
            r matches Some(rect) ==> rect@ == rrect_transform(self@, matrix@) && rrect_wf(rect@),
    {
        let top_left = self.top_left.matrix_transform(matrix)?;
        let bottom_right = self.bottom_right.matrix_transform(matrix)?;
        Some(Rect { top_left, bottom_right })
    }

    pub fn left(&self) -> (r: Frac)
        ensures
            r@ == self@.top_left.x,
    {
        self.top_left.x
    }

    pub fn top(&self) -> (r: Frac)
        ensures
            r@ == self@.top_left.y,
    {
        self.top_left.y
    }

    pub fn right(&self) -> (r: Frac)
        ensures
            r@ == self@.bottom_right.x,
    {
        self.bottom_right.x
    }

    pub fn bottom(&self) -> (r: Frac)
        ensures
            r@ == self@.bottom_right.y,
    {
        self.bottom_right.y
    }

    /// Width as `right - left`; `None` exactly when the difference leaves
    /// the executable range.
    pub fn width(&self) -> (r: Option<Frac>)
        requires
            rrect_wf(self@),
        ensures
            r is Some <==> ratio_fits(rrect_width(self@)),
            r matches Some(w) ==> w@ == rrect_width(self@) && ratio_wf(w@),
    {
        self.bottom_right.x.sub(&self.top_left.x)
    }

    /// Height as `bottom - top`; `None` exactly when the difference leaves
    /// the executable range.
    pub fn height(&self) -> (r: Option<Frac>)
        requires
            rrect_wf(self@),
        ensures
            r is Some <==> ratio_fits(rrect_height(self@)),
            r matches Some(h) ==> h@ == rrect_height(self@) && ratio_wf(h@),
    {
        self.bottom_right.y.sub(&self.top_left.y)
    }

    /// Area as `width * height`; `None` exactly when an intermediate leaves
    /// the executable range.
    pub fn area(&self) -> (r: Option<Frac>)
        requires
            rrect_wf(self@),
        ensures
            r is Some <==> ratio_fits(rrect_width(self@)) && ratio_fits(rrect_height(self@))
                && ratio_fits(rrect_area(self@)),
            r matches Some(a) ==> a@ == rrect_area(self@) && ratio_wf(a@),
    {
        let w = self.width()?;
        let h = self.height()?;
        w.mul(&h)
    }
}

/// A 2x3 affine matrix `[a c e; b d f]`, applied as
/// `x' = a*x + c*y + e` and `y' = b*x + d*y + f`.
#[derive(Clone, Copy, Debug)]
pub struct Matrix2D {
    pub a: Frac,
    pub b: Frac,
    pub c: Frac,
    pub d: Frac,
    pub e: Frac,
    pub f: Frac,
}

impl View for Matrix2D {
    type V = RMat;

    open spec fn view(&self) -> RMat {
        RMat { a: self.a@, b: self.b@, c: self.c@, d: self.d@, e: self.e@, f: self.f@ }
    }
}

impl Matrix2D {
    /// Builds the matrix from the six entries in which a host screen CTM
    /// arrives.
    pub fn from_js(a: Frac, b: Frac, c: Frac, d: Frac, e: Frac, f: Frac) -> (r: Matrix2D)
        ensures
            r@ == (RMat { a: a@, b: b@, c: c@, d: d@, e: e@, f: f@ }),
    {
        Matrix2D { a, b, c, d, e, f }
    }

    /// The inverse affine matrix. `None` exactly when the matrix is
    /// singular or an intermediate leaves the executable range.
    pub fn inverse(&self) -> (r: Option<Matrix2D>)
        requires
            rmat_wf(self@),
        ensures
            r is Some <==> rmat_invertible(self@) && rmat_inverse_fits(self@),
            r matches Some(m) ==> m@ == rmat_inverse(self@) && rmat_wf(m@),
    {
        let ad = self.a.mul(&self.d)?;
        let bc = self.b.mul(&self.c)?;
        let det = ad.sub(&bc)?;
        if det.is_zero() {
            return None;
        }
        let ia = self.d.div(&det)?;
        let nb = self.b.neg()?;
        let ib = nb.div(&det)?;
        let nc = self.c.neg()?;
        let ic = nc.div(&det)?;
        let id = self.a.div(&det)?;
        let cf = self.c.mul(&self.f)?;
        let de = self.d.mul(&self.e)?;
        let en = cf.sub(&de)?;
        let ie = en.div(&det)?;
        let be = self.b.mul(&self.e)?;
        let af = self.a.mul(&self.f)?;
        let fnum = be.sub(&af)?;
        let if_ = fnum.div(&det)?;
        Some(Matrix2D { a: ia, b: ib, c: ic, d: id, e: ie, f: if_ })
    }
}

} // verus!

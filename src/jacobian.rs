//! Points in Jacobian coordinates: `(X, Y, Z)` stands for `(X / Z^2, Y / Z^3)`,
//! and `Z = 0` for the identity.
use vstd::prelude::*;
use crate::curve::{Point, PointModel};
use crate::field::{f_inv, f_mul, f_sq, fe_inverse, fe_mul, lemma_inv_unique, Fe};

verus! {

/// The affine point that `(x, y, z)` stands for.
pub open spec fn jacobian_to_affine(x: int, y: int, z: int) -> PointModel {
    if z == 0 {
        PointModel::Identity
    } else if z == 1 {
        PointModel::Affine(x, y)
    } else {
        let zinv = f_inv(z);
        let zinv2 = f_sq(zinv);
        PointModel::Affine(f_mul(x, zinv2), f_mul(y, f_mul(zinv2, zinv)))
    }
}

/// A point in Jacobian coordinates.
#[derive(Clone, Copy, Debug, PartialEq, Eq)]
pub struct Jacobian {
    /// `X`, with affine abscissa `X / Z^2`.
    pub x: Fe,
    /// `Y`, with affine ordinate `Y / Z^3`.
    pub y: Fe,
    pub z: Fe,
}

impl Jacobian {
    pub open spec fn wf(&self) -> bool {
        self.x.wf() && self.y.wf() && self.z.wf()
    }

    /// The triple `(x, y, z)`, with no check that it lies on the curve.
    pub fn new_unchecked(x: Fe, y: Fe, z: Fe) -> (r: Jacobian)
        ensures
            r == (Jacobian { x, y, z }),
    {
        Jacobian { x, y, z }
    }

    /// Whether this stands for the identity (`Z = 0`).
    fn is_zero(&self) -> (r: bool)
        ensures
            r == (self.z@ == 0),
    {
        self.z.is_zero()
    }

    /// The affine point this stands for.
    pub fn to_affine(&self) -> (r: Point)
        requires
            self.wf(),
        ensures
            r.wf(),
            r@ == jacobian_to_affine(self.x@, self.y@, self.z@),
    {
        if self.is_zero() {
            Point::identity()
        } else if self.z.is_one() {
            Point::new_unchecked(self.x, self.y)
        } else {
            let zinv = fe_inverse(&self.z).unwrap();
            proof {
                lemma_inv_unique(self.z@, zinv@);
            }
            let zinv_squared = fe_mul(&zinv, &zinv);
            let x = fe_mul(&self.x, &zinv_squared);
            let y = fe_mul(&self.y, &fe_mul(&zinv_squared, &zinv));
            Point::new_unchecked(x, y)
        }
    }
}

} // verus!

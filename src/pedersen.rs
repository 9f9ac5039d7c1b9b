//! Pedersen vector commitments: `C = g[0] * v[0] + ... + g[n-1] * v[n-1] + h * r`.
use vstd::prelude::*;
use crate::curve::{add_spec, msm_spec, mul_spec, on_curve, point_add, point_msm, point_mul, Point, PointModel};
use crate::error::Error;
use crate::scalar::Scalar;

verus! {

/// The generators `g` for the committed values and `h` for the blinding.
pub struct Parameters {
    pub g: Vec<Point>,
    pub h: Point,
}

/// Every point of the sequence is well formed and on the curve.
pub open spec fn all_on_curve(points: Seq<Point>) -> bool {
    forall|i: int| 0 <= i < points.len() ==> (#[trigger] points[i]).wf() && on_curve(points[i]@)
}

/// Every scalar of the sequence is below the group order.
pub open spec fn all_scalars_wf(v: Seq<Scalar>) -> bool {
    forall|i: int| 0 <= i < v.len() ==> (#[trigger] v[i]).wf()
}

pub open spec fn point_models(points: Seq<Point>) -> Seq<PointModel> {
    points.map_values(|p: Point| p@)
}

pub open spec fn scalar_values(v: Seq<Scalar>) -> Seq<int> {
    v.map_values(|k: Scalar| k@)
}

/// The commitment to `v` with blinding `r`.
pub open spec fn commitment_spec(params: &Parameters, v: Seq<Scalar>, r: int) -> PointModel {
    add_spec(
        msm_spec(point_models(params.g@), scalar_values(v)),
        mul_spec(r as nat, params.h@),
    )
}

impl Parameters {
    pub open spec fn wf(&self) -> bool {
        all_on_curve(self.g@) && self.h.wf() && on_curve(self.h@)
    }
}

/// The Pedersen commitment scheme over secp256k1.
pub struct Pedersen;

impl Pedersen {
    /// Parameters for up to `len` values, from `len + 1` points drawn
    /// uniformly from the curve: the first `len` become `g`, the last `h`.
    pub fn setup(len: usize, points: Vec<Point>) -> (r: Parameters)
        requires
            points.len() == len + 1,
            all_on_curve(points@),
        ensures
            r.wf(),
            r.g@ == points@.take(len as int),
            r.h == points@[len as int],
    {
        let mut g: Vec<Point> = Vec::with_capacity(len);
        let mut i: usize = 0;
        while i < len
            invariant
                i <= len,
                points.len() == len + 1,
                g@ == points@.take(i as int),
            decreases len - i,
        {
            g.push(points[i]);
            i = i + 1;
            assert(g@ =~= points@.take(i as int));
        }
        let h = points[len];
        proof {
            assert(all_on_curve(g@)) by {
                assert forall|j: int| 0 <= j < g@.len() implies (#[trigger] g@[j]).wf() && on_curve(
                    g@[j]@,
                ) by {
                    assert(g@[j] == points@[j]);
                }
            }
        }
        Parameters { g, h }
    }

    /// Commits to `v` with blinding `r`; fails where `v` has more values
    /// than there are generators.
    pub fn commit(params: &Parameters, v: &[Scalar], r: &Scalar) -> (res: Result<Point, Error>)
        requires
            params.wf(),
            all_scalars_wf(v@),
            r.wf(),
        ensures
            match res {
                Ok(c) => v@.len() <= params.g@.len() && c.wf() && on_curve(c@) && c@
                    == commitment_spec(params, v@, r@),
                Err(e) => e == Error::CommitmentTooLong && v@.len() > params.g@.len(),
            },
    {
        if v.len() > params.g.len() {
            return Err(Error::CommitmentTooLong);
        }
        let sum = point_msm(params.g.as_slice(), v);
        let blinding = point_mul(&params.h, r);
        Ok(point_add(&sum, &blinding))
    }
}

} // verus!

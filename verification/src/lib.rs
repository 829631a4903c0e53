//! Evaluation of smooth motion trajectories through a sequence of waypoints.
//!
//! A trajectory is an ordered sequence of poses spaced one unit apart along
//! the query-parameter axis.  A query selects the two poses bounding the
//! parameter, normalizes the parameter to the segment, and blends the poses'
//! state variables with Hermite basis weights: the cubic family for poses
//! carrying position and velocity, the quintic family for poses that carry
//! acceleration as well.  All arithmetic is exact, over rational scalars.

pub mod blend;
pub mod display;
pub mod hermite;
pub mod scalar;
pub mod vec;
pub mod vecn;

use crate::blend::{blend4, blend4_frac, blend6, blend6_frac, lemma_blend4_picks,
    lemma_blend6_picks};
use crate::hermite::cubic::{h3_frac, h3p_frac, h_3, h_3p, lemma_h3_at_start, lemma_h3_weight_ok,
    lemma_h3p_at_start, lemma_h3p_weight_ok};
use crate::hermite::{h5_frac, h5p_frac, h5pp_frac, h_5, h_5p, h_5pp, lemma_h5_at_start,
    lemma_h5_weight_ok, lemma_h5p_at_start, lemma_h5p_weight_ok, lemma_h5pp_at_start,
    lemma_h5pp_weight_ok};
use crate::scalar::{frac_wf, Frac, Scalar, PARAM_DEN_MAX};
use crate::vec::{vec3_coord_ok, vec3_eq, vec3_wf, Vec3Frac, Vec3d};
use vstd::arithmetic::div_mod::{lemma_div_by_multiple, lemma_div_is_ordered,
    lemma_div_multiples_vanish, lemma_fundamental_div_mod, lemma_mod_bound,
    lemma_mod_multiples_basic};
use vstd::prelude::*;

verus! {

/// A waypoint carrying position, velocity and acceleration, as the quintic
/// basis family needs for its boundary conditions.
#[derive(Clone, Copy, Debug, PartialEq)]
pub struct Pose3<V> {
    pub position: V,
    pub velocity: V,
    pub acceleration: V,
}

/// A waypoint carrying position and velocity, as the cubic basis family
/// needs for its boundary conditions.
#[derive(Clone, Copy, Debug, PartialEq)]
pub struct Pose2<V> {
    pub position: V,
    pub velocity: V,
}

/// A segment selected for a query: the normalized local parameter and the
/// two poses bounding it.
#[derive(Clone, Copy, Debug, PartialEq)]
pub struct Segment2(pub Scalar, pub Pose2<Vec3d>, pub Pose2<Vec3d>);

/// A segment selected for a query on a three-state trajectory.
#[derive(Clone, Copy, Debug, PartialEq)]
pub struct Segment3(pub Scalar, pub Pose3<Vec3d>, pub Pose3<Vec3d>);

/// The parameter's denominator is representable for basis evaluation.
pub open spec fn param_ok(t: Frac) -> bool {
    frac_wf(t) && t.den <= PARAM_DEN_MAX as int
}

/// The parameter lies between the first and the last waypoint index.
pub open spec fn param_in_domain(len: int, t: Frac) -> bool {
    0 <= t.num && t.num <= (len - 1) * t.den
}

/// The index of the waypoint at or just before the parameter.
pub open spec fn floor_index(t: Frac) -> int {
    t.num / t.den
}

/// The index of the waypoint at or just after the parameter.
pub open spec fn ceil_index(t: Frac) -> int {
    if t.num % t.den == 0 {
        t.num / t.den
    } else {
        t.num / t.den + 1
    }
}

/// The fractional part of the parameter: the position within the selected
/// segment, in `[0, 1)`.
pub open spec fn frac_part(t: Frac) -> Frac {
    Frac { num: t.num % t.den, den: t.den }
}

/// Every coordinate of the pose is a representable waypoint coordinate.
pub open spec fn pose3_ok(p: Pose3<Vec3d>) -> bool {
    vec3_coord_ok(p.position@) && vec3_coord_ok(p.velocity@) && vec3_coord_ok(p.acceleration@)
}

/// Every coordinate of every pose is a representable waypoint coordinate.
pub open spec fn poses3_ok(s: Seq<Pose3<Vec3d>>) -> bool {
    forall|i: int| 0 <= i < s.len() ==> pose3_ok(#[trigger] s[i])
}

/// Every coordinate of the pose is a representable waypoint coordinate.
pub open spec fn pose2_ok(p: Pose2<Vec3d>) -> bool {
    vec3_coord_ok(p.position@) && vec3_coord_ok(p.velocity@)
}

/// Every coordinate of every pose is a representable waypoint coordinate.
pub open spec fn poses2_ok(s: Seq<Pose2<Vec3d>>) -> bool {
    forall|i: int| 0 <= i < s.len() ==> pose2_ok(#[trigger] s[i])
}

/// The interpolated position on a three-state segment: the boundary
/// positions, velocities and accelerations blended with the quintic value
/// weights at the local parameter.
pub open spec fn position3_frac(prec: Pose3<Vec3d>, succ: Pose3<Vec3d>, u: Frac) -> Vec3Frac {
    Vec3Frac {
        x: blend6_frac(
            prec.position@.x,
            prec.velocity@.x,
            prec.acceleration@.x,
            succ.acceleration@.x,
            succ.velocity@.x,
            succ.position@.x,
            h5_frac(u, 0),
            h5_frac(u, 1),
            h5_frac(u, 2),
            h5_frac(u, 3),
            h5_frac(u, 4),
            h5_frac(u, 5),
        ),
        y: blend6_frac(
            prec.position@.y,
            prec.velocity@.y,
            prec.acceleration@.y,
            succ.acceleration@.y,
            succ.velocity@.y,
            succ.position@.y,
            h5_frac(u, 0),
            h5_frac(u, 1),
            h5_frac(u, 2),
            h5_frac(u, 3),
            h5_frac(u, 4),
            h5_frac(u, 5),
        ),
        z: blend6_frac(
            prec.position@.z,
            prec.velocity@.z,
            prec.acceleration@.z,
            succ.acceleration@.z,
            succ.velocity@.z,
            succ.position@.z,
            h5_frac(u, 0),
            h5_frac(u, 1),
            h5_frac(u, 2),
            h5_frac(u, 3),
            h5_frac(u, 4),
            h5_frac(u, 5),
        ),
    }
}

/// The interpolated velocity on a three-state segment: the same boundary
/// state blended with the quintic first-derivative weights.
pub open spec fn velocity3_frac(prec: Pose3<Vec3d>, succ: Pose3<Vec3d>, u: Frac) -> Vec3Frac {
    Vec3Frac {
        x: blend6_frac(
            prec.position@.x,
            prec.velocity@.x,
            prec.acceleration@.x,
            succ.acceleration@.x,
            succ.velocity@.x,
            succ.position@.x,
            h5p_frac(u, 0),
            h5p_frac(u, 1),
            h5p_frac(u, 2),
            h5p_frac(u, 3),
            h5p_frac(u, 4),
            h5p_frac(u, 5),
        ),
        y: blend6_frac(
            prec.position@.y,
            prec.velocity@.y,
            prec.acceleration@.y,
            succ.acceleration@.y,
            succ.velocity@.y,
            succ.position@.y,
            h5p_frac(u, 0),
            h5p_frac(u, 1),
            h5p_frac(u, 2),
            h5p_frac(u, 3),
            h5p_frac(u, 4),
            h5p_frac(u, 5),
        ),
        z: blend6_frac(
            prec.position@.z,
            prec.velocity@.z,
            prec.acceleration@.z,
            succ.acceleration@.z,
            succ.velocity@.z,
            succ.position@.z,
            h5p_frac(u, 0),
            h5p_frac(u, 1),
            h5p_frac(u, 2),
            h5p_frac(u, 3),
            h5p_frac(u, 4),
            h5p_frac(u, 5),
        ),
    }
}

/// The interpolated acceleration on a three-state segment: the same boundary
/// state blended with the quintic second-derivative weights.
pub open spec fn acceleration3_frac(prec: Pose3<Vec3d>, succ: Pose3<Vec3d>, u: Frac) -> Vec3Frac {
    Vec3Frac {
        x: blend6_frac(
            prec.position@.x,
            prec.velocity@.x,
            prec.acceleration@.x,
            succ.acceleration@.x,
            succ.velocity@.x,
            succ.position@.x,
            h5pp_frac(u, 0),
            h5pp_frac(u, 1),
            h5pp_frac(u, 2),
            h5pp_frac(u, 3),
            h5pp_frac(u, 4),
            h5pp_frac(u, 5),
        ),
        y: blend6_frac(
            prec.position@.y,
            prec.velocity@.y,
            prec.acceleration@.y,
            succ.acceleration@.y,
            succ.velocity@.y,
            succ.position@.y,
            h5pp_frac(u, 0),
            h5pp_frac(u, 1),
            h5pp_frac(u, 2),
            h5pp_frac(u, 3),
            h5pp_frac(u, 4),
            h5pp_frac(u, 5),
        ),
        z: blend6_frac(
            prec.position@.z,
            prec.velocity@.z,
            prec.acceleration@.z,
            succ.acceleration@.z,
            succ.velocity@.z,
            succ.position@.z,
            h5pp_frac(u, 0),
            h5pp_frac(u, 1),
            h5pp_frac(u, 2),
            h5pp_frac(u, 3),
            h5pp_frac(u, 4),
            h5pp_frac(u, 5),
        ),
    }
}

/// The interpolated position on a two-state segment: the boundary positions
/// and velocities blended with the cubic value weights.
pub open spec fn position2_frac(prec: Pose2<Vec3d>, succ: Pose2<Vec3d>, u: Frac) -> Vec3Frac {
    Vec3Frac {
        x: blend4_frac(
            prec.position@.x,
            prec.velocity@.x,
            succ.velocity@.x,
            succ.position@.x,
            h3_frac(u, 0),
            h3_frac(u, 1),
            h3_frac(u, 2),
            h3_frac(u, 3),
        ),
        y: blend4_frac(
            prec.position@.y,
            prec.velocity@.y,
            succ.velocity@.y,
            succ.position@.y,
            h3_frac(u, 0),
            h3_frac(u, 1),
            h3_frac(u, 2),
            h3_frac(u, 3),
        ),
        z: blend4_frac(
            prec.position@.z,
            prec.velocity@.z,
            succ.velocity@.z,
            succ.position@.z,
            h3_frac(u, 0),
            h3_frac(u, 1),
            h3_frac(u, 2),
            h3_frac(u, 3),
        ),
    }
}

/// The interpolated velocity on a two-state segment: the same boundary state
/// blended with the cubic first-derivative weights.
pub open spec fn velocity2_frac(prec: Pose2<Vec3d>, succ: Pose2<Vec3d>, u: Frac) -> Vec3Frac {
    Vec3Frac {
        x: blend4_frac(
            prec.position@.x,
            prec.velocity@.x,
            succ.velocity@.x,
            succ.position@.x,
            h3p_frac(u, 0),
            h3p_frac(u, 1),
            h3p_frac(u, 2),
            h3p_frac(u, 3),
        ),
        y: blend4_frac(
            prec.position@.y,
            prec.velocity@.y,
            succ.velocity@.y,
            succ.position@.y,
            h3p_frac(u, 0),
            h3p_frac(u, 1),
            h3p_frac(u, 2),
            h3p_frac(u, 3),
        ),
        z: blend4_frac(
            prec.position@.z,
            prec.velocity@.z,
            succ.velocity@.z,
            succ.position@.z,
            h3p_frac(u, 0),
            h3p_frac(u, 1),
            h3p_frac(u, 2),
            h3p_frac(u, 3),
        ),
    }
}

/// Splits an in-domain parameter into the bounding waypoint indices and the
/// local parameter within the segment they delimit.
fn split_param(len: usize, t: Scalar) -> (r: (Scalar, usize, usize))
    requires
        len > 0,
        param_ok(t@),
        param_in_domain(len as int, t@),
    ensures
        r.0@ == frac_part(t@),
        r.1 == floor_index(t@),
        r.2 == ceil_index(t@),
        r.1 < len,
        r.2 < len,
        r.1 <= r.2,
{
    let tn = t.num();
    let td = t.den();
    let fl = tn / td;
    let rem = tn % td;
    proof {
        let tni = tn as int;
        let tdi = td as int;
        let last = len as int - 1;
        lemma_fundamental_div_mod(tni, tdi);
        lemma_mod_bound(tni, tdi);
        lemma_div_is_ordered(tni, last * tdi, tdi);
        lemma_div_multiples_vanish(last, tdi);
        assert(tdi * last == last * tdi) by (nonlinear_arith);
        assert(0 <= tni / tdi) by (nonlinear_arith)
            requires
                0 <= tni,
                1 <= tdi;
        assert(tni % tdi != 0 ==> tni / tdi < last) by (nonlinear_arith)
            requires
                1 <= tdi,
                tdi * (tni / tdi) + tni % tdi == tni,
                0 <= tni % tdi < tdi,
                tni <= last * tdi;
    }
    let prec_idx = fl as usize;
    let succ_idx = if rem == 0 {
        prec_idx
    } else {
        prec_idx + 1
    };
    (Scalar::new(rem, td), prec_idx, succ_idx)
}

/// Evaluation of a two-state waypoint sequence with the cubic basis family.
pub trait Trajectory2 {
    /// The waypoint sequence being evaluated.
    spec fn poses(&self) -> Seq<Pose2<Vec3d>>;

    /// Selects the segment bounding the parameter, or nothing when the
    /// sequence is empty.
    fn get_segment(&self, t: Scalar) -> (r: Option<Segment2>)
        requires
            param_ok(t@),
            self.poses().len() == 0 || param_in_domain(self.poses().len() as int, t@),
        ensures
            (r is None) <==> self.poses().len() == 0,
            r matches Some(seg) ==> {
                &&& 0 <= floor_index(t@) < self.poses().len()
                &&& 0 <= ceil_index(t@) < self.poses().len()
                &&& seg.0@ == frac_part(t@)
                &&& seg.1 == self.poses()[floor_index(t@)]
                &&& seg.2 == self.poses()[ceil_index(t@)]
            },
    ;

    /// The interpolated position at the parameter, or nothing when the
    /// sequence is empty.
    fn position_at(&self, t: Scalar) -> (r: Option<Vec3d>)
        requires
            param_ok(t@),
            self.poses().len() == 0 || param_in_domain(self.poses().len() as int, t@),
            poses2_ok(self.poses()),
        ensures
            (r is None) <==> self.poses().len() == 0,
            r matches Some(v) ==> {
                &&& v@ == position2_frac(
                    self.poses()[floor_index(t@)],
                    self.poses()[ceil_index(t@)],
                    frac_part(t@),
                )
                &&& vec3_wf(v@)
            },
    ;

    /// The interpolated velocity at the parameter, or nothing when the
    /// sequence is empty.
    fn velocity_at(&self, t: Scalar) -> (r: Option<Vec3d>)
        requires
            param_ok(t@),
            self.poses().len() == 0 || param_in_domain(self.poses().len() as int, t@),
            poses2_ok(self.poses()),
        ensures
            (r is None) <==> self.poses().len() == 0,
            r matches Some(v) ==> {
                &&& v@ == velocity2_frac(
                    self.poses()[floor_index(t@)],
                    self.poses()[ceil_index(t@)],
                    frac_part(t@),
                )
                &&& vec3_wf(v@)
            },
    ;
}

/// Evaluation of a three-state waypoint sequence with the quintic basis
/// family.
pub trait Trajectory3 {
    /// The waypoint sequence being evaluated.
    spec fn poses(&self) -> Seq<Pose3<Vec3d>>;

    /// Selects the segment bounding the parameter, or nothing when the
    /// sequence is empty.
    fn get_segment(&self, t: Scalar) -> (r: Option<Segment3>)
        requires
            param_ok(t@),
            self.poses().len() == 0 || param_in_domain(self.poses().len() as int, t@),
        ensures
            (r is None) <==> self.poses().len() == 0,
            r matches Some(seg) ==> {
                &&& 0 <= floor_index(t@) < self.poses().len()
                &&& 0 <= ceil_index(t@) < self.poses().len()
                &&& seg.0@ == frac_part(t@)
                &&& seg.1 == self.poses()[floor_index(t@)]
                &&& seg.2 == self.poses()[ceil_index(t@)]
            },
    ;

    /// The interpolated position at the parameter, or nothing when the
    /// sequence is empty.
    fn position_at(&self, t: Scalar) -> (r: Option<Vec3d>)
        requires
            param_ok(t@),
            self.poses().len() == 0 || param_in_domain(self.poses().len() as int, t@),
            poses3_ok(self.poses()),
        ensures
            (r is None) <==> self.poses().len() == 0,
            r matches Some(v) ==> {
                &&& v@ == position3_frac(
                    self.poses()[floor_index(t@)],
                    self.poses()[ceil_index(t@)],
                    frac_part(t@),
                )
                &&& vec3_wf(v@)
            },
    ;

    /// The interpolated velocity at the parameter, or nothing when the
    /// sequence is empty.
    fn velocity_at(&self, t: Scalar) -> (r: Option<Vec3d>)
        requires
            param_ok(t@),
            self.poses().len() == 0 || param_in_domain(self.poses().len() as int, t@),
            poses3_ok(self.poses()),
        ensures
            (r is None) <==> self.poses().len() == 0,
            r matches Some(v) ==> {
                &&& v@ == velocity3_frac(
                    self.poses()[floor_index(t@)],
                    self.poses()[ceil_index(t@)],
                    frac_part(t@),
                )
                &&& vec3_wf(v@)
            },
    ;

    /// The interpolated acceleration at the parameter, or nothing when the
    /// sequence is empty.
    fn acceleration_at(&self, t: Scalar) -> (r: Option<Vec3d>)
        requires
            param_ok(t@),
            self.poses().len() == 0 || param_in_domain(self.poses().len() as int, t@),
            poses3_ok(self.poses()),
        ensures
            (r is None) <==> self.poses().len() == 0,
            r matches Some(v) ==> {
                &&& v@ == acceleration3_frac(
                    self.poses()[floor_index(t@)],
                    self.poses()[ceil_index(t@)],
                    frac_part(t@),
                )
                &&& vec3_wf(v@)
            },
    ;
}

/// A parameter that sits exactly on waypoint `k` selects the degenerate
/// segment from that waypoint to itself, and blending across it reproduces
/// the waypoint's own position, velocity and acceleration exactly.
pub proof fn lemma_knot_reproduction3(poses: Seq<Pose3<Vec3d>>, t: Frac, k: int)
    requires
        poses3_ok(poses),
        param_ok(t),
        0 <= k < poses.len(),
        t.num == k * t.den,
    ensures
        floor_index(t) == k,
        ceil_index(t) == k,
        vec3_eq(position3_frac(poses[k], poses[k], frac_part(t)), poses[k].position@),
        vec3_eq(velocity3_frac(poses[k], poses[k], frac_part(t)), poses[k].velocity@),
        vec3_eq(acceleration3_frac(poses[k], poses[k], frac_part(t)), poses[k].acceleration@),
{
    lemma_mod_multiples_basic(k, t.den);
    lemma_div_by_multiple(k, t.den);
    let u = frac_part(t);
    let pose = poses[k];
    assert(pose3_ok(pose));
    lemma_h5_at_start(u, 0);
    lemma_h5_at_start(u, 1);
    lemma_h5_at_start(u, 2);
    lemma_h5_at_start(u, 3);
    lemma_h5_at_start(u, 4);
    lemma_h5_at_start(u, 5);
    lemma_blend6_picks(0, pose.position@.x, pose.velocity@.x, pose.acceleration@.x,
        pose.acceleration@.x, pose.velocity@.x, pose.position@.x, h5_frac(u, 0), h5_frac(u, 1),
        h5_frac(u, 2), h5_frac(u, 3), h5_frac(u, 4), h5_frac(u, 5));
    lemma_blend6_picks(0, pose.position@.y, pose.velocity@.y, pose.acceleration@.y,
        pose.acceleration@.y, pose.velocity@.y, pose.position@.y, h5_frac(u, 0), h5_frac(u, 1),
        h5_frac(u, 2), h5_frac(u, 3), h5_frac(u, 4), h5_frac(u, 5));
    lemma_blend6_picks(0, pose.position@.z, pose.velocity@.z, pose.acceleration@.z,
        pose.acceleration@.z, pose.velocity@.z, pose.position@.z, h5_frac(u, 0), h5_frac(u, 1),
        h5_frac(u, 2), h5_frac(u, 3), h5_frac(u, 4), h5_frac(u, 5));
    lemma_h5p_at_start(u, 0);
    lemma_h5p_at_start(u, 1);
    lemma_h5p_at_start(u, 2);
    lemma_h5p_at_start(u, 3);
    lemma_h5p_at_start(u, 4);
    lemma_h5p_at_start(u, 5);
    lemma_blend6_picks(1, pose.position@.x, pose.velocity@.x, pose.acceleration@.x,
        pose.acceleration@.x, pose.velocity@.x, pose.position@.x, h5p_frac(u, 0), h5p_frac(u, 1),
        h5p_frac(u, 2), h5p_frac(u, 3), h5p_frac(u, 4), h5p_frac(u, 5));
    lemma_blend6_picks(1, pose.position@.y, pose.velocity@.y, pose.acceleration@.y,
        pose.acceleration@.y, pose.velocity@.y, pose.position@.y, h5p_frac(u, 0), h5p_frac(u, 1),
        h5p_frac(u, 2), h5p_frac(u, 3), h5p_frac(u, 4), h5p_frac(u, 5));
    lemma_blend6_picks(1, pose.position@.z, pose.velocity@.z, pose.acceleration@.z,
        pose.acceleration@.z, pose.velocity@.z, pose.position@.z, h5p_frac(u, 0), h5p_frac(u, 1),
        h5p_frac(u, 2), h5p_frac(u, 3), h5p_frac(u, 4), h5p_frac(u, 5));
    lemma_h5pp_at_start(u, 0);
    lemma_h5pp_at_start(u, 1);
    lemma_h5pp_at_start(u, 2);
    lemma_h5pp_at_start(u, 3);
    lemma_h5pp_at_start(u, 4);
    lemma_h5pp_at_start(u, 5);
    lemma_blend6_picks(2, pose.position@.x, pose.velocity@.x, pose.acceleration@.x,
        pose.acceleration@.x, pose.velocity@.x, pose.position@.x, h5pp_frac(u, 0),
        h5pp_frac(u, 1), h5pp_frac(u, 2), h5pp_frac(u, 3), h5pp_frac(u, 4), h5pp_frac(u, 5));
    lemma_blend6_picks(2, pose.position@.y, pose.velocity@.y, pose.acceleration@.y,
        pose.acceleration@.y, pose.velocity@.y, pose.position@.y, h5pp_frac(u, 0),
        h5pp_frac(u, 1), h5pp_frac(u, 2), h5pp_frac(u, 3), h5pp_frac(u, 4), h5pp_frac(u, 5));
    lemma_blend6_picks(2, pose.position@.z, pose.velocity@.z, pose.acceleration@.z,
        pose.acceleration@.z, pose.velocity@.z, pose.position@.z, h5pp_frac(u, 0),
        h5pp_frac(u, 1), h5pp_frac(u, 2), h5pp_frac(u, 3), h5pp_frac(u, 4), h5pp_frac(u, 5));
}

/// A parameter that sits exactly on waypoint `k` of a two-state sequence
/// reproduces the waypoint's own position and velocity exactly.
pub proof fn lemma_knot_reproduction2(poses: Seq<Pose2<Vec3d>>, t: Frac, k: int)
    requires
        poses2_ok(poses),
        param_ok(t),
        0 <= k < poses.len(),
        t.num == k * t.den,
    ensures
        floor_index(t) == k,
        ceil_index(t) == k,
        vec3_eq(position2_frac(poses[k], poses[k], frac_part(t)), poses[k].position@),
        vec3_eq(velocity2_frac(poses[k], poses[k], frac_part(t)), poses[k].velocity@),
{
    lemma_mod_multiples_basic(k, t.den);
    lemma_div_by_multiple(k, t.den);
    let u = frac_part(t);
    let pose = poses[k];
    assert(pose2_ok(pose));
    lemma_h3_at_start(u, 0);
    lemma_h3_at_start(u, 1);
    lemma_h3_at_start(u, 2);
    lemma_h3_at_start(u, 3);
    lemma_blend4_picks(0, pose.position@.x, pose.velocity@.x, pose.velocity@.x, pose.position@.x,
        h3_frac(u, 0), h3_frac(u, 1), h3_frac(u, 2), h3_frac(u, 3));
    lemma_blend4_picks(0, pose.position@.y, pose.velocity@.y, pose.velocity@.y, pose.position@.y,
        h3_frac(u, 0), h3_frac(u, 1), h3_frac(u, 2), h3_frac(u, 3));
    lemma_blend4_picks(0, pose.position@.z, pose.velocity@.z, pose.velocity@.z, pose.position@.z,
        h3_frac(u, 0), h3_frac(u, 1), h3_frac(u, 2), h3_frac(u, 3));
    lemma_h3p_at_start(u, 0);
    lemma_h3p_at_start(u, 1);
    lemma_h3p_at_start(u, 2);
    lemma_h3p_at_start(u, 3);
    lemma_blend4_picks(1, pose.position@.x, pose.velocity@.x, pose.velocity@.x, pose.position@.x,
        h3p_frac(u, 0), h3p_frac(u, 1), h3p_frac(u, 2), h3p_frac(u, 3));
    lemma_blend4_picks(1, pose.position@.y, pose.velocity@.y, pose.velocity@.y, pose.position@.y,
        h3p_frac(u, 0), h3p_frac(u, 1), h3p_frac(u, 2), h3p_frac(u, 3));
    lemma_blend4_picks(1, pose.position@.z, pose.velocity@.z, pose.velocity@.z, pose.position@.z,
        h3p_frac(u, 0), h3p_frac(u, 1), h3p_frac(u, 2), h3p_frac(u, 3));
}

impl Trajectory2 for Vec<Pose2<Vec3d>> {
    open spec fn poses(&self) -> Seq<Pose2<Vec3d>> {
        self@
    }

    fn get_segment(&self, t: Scalar) -> (r: Option<Segment2>) {
        let length = self.len();
        if length == 0 {
            return None;
        }
        let (u, prec_idx, succ_idx) = split_param(length, t);
        Some(Segment2(u, self[prec_idx], self[succ_idx]))
    }

    fn position_at(&self, t: Scalar) -> (r: Option<Vec3d>) {
        let seg = self.get_segment(t);
        if let Some(Segment2(u, prec, succ)) = seg {
            proof {
                lemma_h3_weight_ok(u@, 0);
                lemma_h3_weight_ok(u@, 1);
                lemma_h3_weight_ok(u@, 2);
                lemma_h3_weight_ok(u@, 3);
            }
            let w0 = h_3(u, 0);
            let w1 = h_3(u, 1);
            let w2 = h_3(u, 2);
            let w3 = h_3(u, 3);
            let x = blend4(prec.position.0, prec.velocity.0, succ.velocity.0, succ.position.0,
                w0, w1, w2, w3);
            let y = blend4(prec.position.1, prec.velocity.1, succ.velocity.1, succ.position.1,
                w0, w1, w2, w3);
            let z = blend4(prec.position.2, prec.velocity.2, succ.velocity.2, succ.position.2,
                w0, w1, w2, w3);
            Some(Vec3d(x, y, z))
        } else {
            None
        }
    }

    fn velocity_at(&self, t: Scalar) -> (r: Option<Vec3d>) {
        let seg = self.get_segment(t);
        if let Some(Segment2(u, prec, succ)) = seg {
            proof {
                lemma_h3p_weight_ok(u@, 0);
                lemma_h3p_weight_ok(u@, 1);
                lemma_h3p_weight_ok(u@, 2);
                lemma_h3p_weight_ok(u@, 3);
            }
            let w0 = h_3p(u, 0);
            let w1 = h_3p(u, 1);
            let w2 = h_3p(u, 2);
            let w3 = h_3p(u, 3);
            let x = blend4(prec.position.0, prec.velocity.0, succ.velocity.0, succ.position.0,
                w0, w1, w2, w3);
            let y = blend4(prec.position.1, prec.velocity.1, succ.velocity.1, succ.position.1,
                w0, w1, w2, w3);
            let z = blend4(prec.position.2, prec.velocity.2, succ.velocity.2, succ.position.2,
                w0, w1, w2, w3);
            Some(Vec3d(x, y, z))
        } else {
            None
        }
    }
}

impl Trajectory3 for Vec<Pose3<Vec3d>> {
    open spec fn poses(&self) -> Seq<Pose3<Vec3d>> {
        self@
    }

    fn get_segment(&self, t: Scalar) -> (r: Option<Segment3>) {
        let length = self.len();
        if length == 0 {
            return None;
        }
        let (u, prec_idx, succ_idx) = split_param(length, t);
        Some(Segment3(u, self[prec_idx], self[succ_idx]))
    }

    fn position_at(&self, t: Scalar) -> (r: Option<Vec3d>) {
        let seg = self.get_segment(t);
        if let Some(Segment3(u, prec, succ)) = seg {
            proof {
                lemma_h5_weight_ok(u@, 0);
                lemma_h5_weight_ok(u@, 1);
                lemma_h5_weight_ok(u@, 2);
                lemma_h5_weight_ok(u@, 3);
                lemma_h5_weight_ok(u@, 4);
                lemma_h5_weight_ok(u@, 5);
            }
            let w0 = h_5(u, 0);
            let w1 = h_5(u, 1);
            let w2 = h_5(u, 2);
            let w3 = h_5(u, 3);
            let w4 = h_5(u, 4);
            let w5 = h_5(u, 5);
            let x = blend6(prec.position.0, prec.velocity.0, prec.acceleration.0,
                succ.acceleration.0, succ.velocity.0, succ.position.0, w0, w1, w2, w3, w4, w5);
            let y = blend6(prec.position.1, prec.velocity.1, prec.acceleration.1,
                succ.acceleration.1, succ.velocity.1, succ.position.1, w0, w1, w2, w3, w4, w5);
            let z = blend6(prec.position.2, prec.velocity.2, prec.acceleration.2,
                succ.acceleration.2, succ.velocity.2, succ.position.2, w0, w1, w2, w3, w4, w5);
            Some(Vec3d(x, y, z))
        } else {
            None
        }
    }

    fn velocity_at(&self, t: Scalar) -> (r: Option<Vec3d>) {
        let seg = self.get_segment(t);
        if let Some(Segment3(u, prec, succ)) = seg {
            proof {
                lemma_h5p_weight_ok(u@, 0);
                lemma_h5p_weight_ok(u@, 1);
                lemma_h5p_weight_ok(u@, 2);
                lemma_h5p_weight_ok(u@, 3);
                lemma_h5p_weight_ok(u@, 4);
                lemma_h5p_weight_ok(u@, 5);
            }
            let w0 = h_5p(u, 0);
            let w1 = h_5p(u, 1);
            let w2 = h_5p(u, 2);
            let w3 = h_5p(u, 3);
            let w4 = h_5p(u, 4);
            let w5 = h_5p(u, 5);
            let x = blend6(prec.position.0, prec.velocity.0, prec.acceleration.0,
                succ.acceleration.0, succ.velocity.0, succ.position.0, w0, w1, w2, w3, w4, w5);
            let y = blend6(prec.position.1, prec.velocity.1, prec.acceleration.1,
                succ.acceleration.1, succ.velocity.1, succ.position.1, w0, w1, w2, w3, w4, w5);
            let z = blend6(prec.position.2, prec.velocity.2, prec.acceleration.2,
                succ.acceleration.2, succ.velocity.2, succ.position.2, w0, w1, w2, w3, w4, w5);
            Some(Vec3d(x, y, z))
        } else {
            None
        }
    }

    fn acceleration_at(&self, t: Scalar) -> (r: Option<Vec3d>) {
        let seg = self.get_segment(t);
        if let Some(Segment3(u, prec, succ)) = seg {
            proof {
                lemma_h5pp_weight_ok(u@, 0);
                lemma_h5pp_weight_ok(u@, 1);
                lemma_h5pp_weight_ok(u@, 2);
                lemma_h5pp_weight_ok(u@, 3);
                lemma_h5pp_weight_ok(u@, 4);
                lemma_h5pp_weight_ok(u@, 5);
            }
            let w0 = h_5pp(u, 0);
            let w1 = h_5pp(u, 1);
            let w2 = h_5pp(u, 2);
            let w3 = h_5pp(u, 3);
            let w4 = h_5pp(u, 4);
            let w5 = h_5pp(u, 5);
            let x = blend6(prec.position.0, prec.velocity.0, prec.acceleration.0,
                succ.acceleration.0, succ.velocity.0, succ.position.0, w0, w1, w2, w3, w4, w5);
            let y = blend6(prec.position.1, prec.velocity.1, prec.acceleration.1,
                succ.acceleration.1, succ.velocity.1, succ.position.1, w0, w1, w2, w3, w4, w5);
            let z = blend6(prec.position.2, prec.velocity.2, prec.acceleration.2,
                succ.acceleration.2, succ.velocity.2, succ.position.2, w0, w1, w2, w3, w4, w5);
            Some(Vec3d(x, y, z))
        } else {
            None
        }
    }
}

} // verus!

//! Rigid-body geometry over fixed-point scalars: vectors, unit quaternions,
//! and rigid transforms (rotation + translation, never scale).

use vstd::prelude::*;
use crate::fixed::{
    fdiv, fmul, fsqrt, sat_add, sat_neg, sat_sub, spec_fdiv, spec_fmul, spec_fsqrt, spec_sat_add,
    spec_sat_neg, spec_sat_sub, FX_HALF, FX_TWO, SCALE,
};

verus! {

/// A 3-component vector in fixed-point units.
#[derive(Clone, Copy, PartialEq, Eq, Structural, Debug)]
pub struct Vec3 {
    pub x: i64,
    pub y: i64,
    pub z: i64,
}

/// A quaternion in fixed-point units; rotations are carried by unit
/// quaternions.
#[derive(Clone, Copy, PartialEq, Eq, Structural, Debug)]
pub struct Quat {
    pub x: i64,
    pub y: i64,
    pub z: i64,
    pub w: i64,
}

/// A rigid transform: rotation followed by translation.
#[derive(Clone, Copy, PartialEq, Eq, Structural, Debug)]
pub struct Transform {
    pub rotation: Quat,
    pub translation: Vec3,
}

pub open spec fn spec_vec3_zero() -> Vec3 {
    Vec3 { x: 0, y: 0, z: 0 }
}

pub open spec fn spec_quat_identity() -> Quat {
    Quat { x: 0, y: 0, z: 0, w: SCALE }
}

pub open spec fn spec_tf_identity() -> Transform {
    Transform { rotation: spec_quat_identity(), translation: spec_vec3_zero() }
}

pub open spec fn spec_vec_add(a: Vec3, b: Vec3) -> Vec3 {
    Vec3 {
        x: spec_sat_add(a.x as int, b.x as int) as i64,
        y: spec_sat_add(a.y as int, b.y as int) as i64,
        z: spec_sat_add(a.z as int, b.z as int) as i64,
    }
}

pub open spec fn spec_vec_sub(a: Vec3, b: Vec3) -> Vec3 {
    Vec3 {
        x: spec_sat_sub(a.x as int, b.x as int) as i64,
        y: spec_sat_sub(a.y as int, b.y as int) as i64,
        z: spec_sat_sub(a.z as int, b.z as int) as i64,
    }
}

pub open spec fn spec_vec_neg(a: Vec3) -> Vec3 {
    Vec3 {
        x: spec_sat_neg(a.x as int) as i64,
        y: spec_sat_neg(a.y as int) as i64,
        z: spec_sat_neg(a.z as int) as i64,
    }
}

/// Scale each component by the fixed-point scalar `s`.
pub open spec fn spec_vec_scale(a: Vec3, s: int) -> Vec3 {
    Vec3 {
        x: spec_fmul(a.x as int, s) as i64,
        y: spec_fmul(a.y as int, s) as i64,
        z: spec_fmul(a.z as int, s) as i64,
    }
}

pub open spec fn spec_vec_cross(a: Vec3, b: Vec3) -> Vec3 {
    Vec3 {
        x: spec_sat_sub(spec_fmul(a.y as int, b.z as int), spec_fmul(a.z as int, b.y as int)) as i64,
        y: spec_sat_sub(spec_fmul(a.z as int, b.x as int), spec_fmul(a.x as int, b.z as int)) as i64,
        z: spec_sat_sub(spec_fmul(a.x as int, b.y as int), spec_fmul(a.y as int, b.x as int)) as i64,
    }
}

/// Squared length in fixed-point units.
pub open spec fn spec_vec_len_sq(a: Vec3) -> int {
    spec_sat_add(
        spec_sat_add(spec_fmul(a.x as int, a.x as int), spec_fmul(a.y as int, a.y as int)),
        spec_fmul(a.z as int, a.z as int),
    )
}

pub open spec fn spec_quat_conj(q: Quat) -> Quat {
    Quat {
        x: spec_sat_neg(q.x as int) as i64,
        y: spec_sat_neg(q.y as int) as i64,
        z: spec_sat_neg(q.z as int) as i64,
        w: q.w,
    }
}

/// Hamilton product.
pub open spec fn spec_quat_mul(a: Quat, b: Quat) -> Quat {
    Quat {
        x: spec_sat_sub(
            spec_sat_add(
                spec_sat_add(spec_fmul(a.w as int, b.x as int), spec_fmul(a.x as int, b.w as int)),
                spec_fmul(a.y as int, b.z as int),
            ),
            spec_fmul(a.z as int, b.y as int),
        ) as i64,
        y: spec_sat_add(
            spec_sat_sub(
                spec_sat_add(spec_fmul(a.w as int, b.y as int), spec_fmul(a.y as int, b.w as int)),
                spec_fmul(a.x as int, b.z as int),
            ),
            spec_fmul(a.z as int, b.x as int),
        ) as i64,
        z: spec_sat_sub(
            spec_sat_add(
                spec_sat_add(spec_fmul(a.w as int, b.z as int), spec_fmul(a.z as int, b.w as int)),
                spec_fmul(a.x as int, b.y as int),
            ),
            spec_fmul(a.y as int, b.x as int),
        ) as i64,
        w: spec_sat_sub(
            spec_sat_sub(
                spec_sat_sub(spec_fmul(a.w as int, b.w as int), spec_fmul(a.x as int, b.x as int)),
                spec_fmul(a.y as int, b.y as int),
            ),
            spec_fmul(a.z as int, b.z as int),
        ) as i64,
    }
}

/// Rotate `v` by the unit quaternion `q`:
/// `v + 2 (w t + u x t)` with `t = u x v` and `u` the vector part of `q`.
pub open spec fn spec_quat_rotate(q: Quat, v: Vec3) -> Vec3 {
    let u = Vec3 { x: q.x, y: q.y, z: q.z };
    let t = spec_vec_cross(u, v);
    let s = spec_vec_add(spec_vec_scale(t, q.w as int), spec_vec_cross(u, t));
    spec_vec_add(v, spec_vec_scale(s, FX_TWO as int))
}

/// Composition `a ∘ b`: apply `b` first, then `a`.
pub open spec fn spec_tf_compose(a: Transform, b: Transform) -> Transform {
    Transform {
        rotation: spec_quat_mul(a.rotation, b.rotation),
        translation: spec_vec_add(spec_quat_rotate(a.rotation, b.translation), a.translation),
    }
}

/// Apply `t` to a point.
pub open spec fn spec_tf_point(t: Transform, p: Vec3) -> Vec3 {
    spec_vec_add(spec_quat_rotate(t.rotation, p), t.translation)
}

/// Apply the inverse of `t`'s rotation to a direction (the linear part of the
/// rigid inverse).
pub open spec fn spec_tf_inv_vector(t: Transform, v: Vec3) -> Vec3 {
    spec_quat_rotate(spec_quat_conj(t.rotation), v)
}

/// Sine and cosine of the yaw angle of the delta rotation `dq`, i.e. of
/// `atan2(2 (y w + x z), 2 (w^2 + x^2) - 1)`; `(0, SCALE)` (yaw 0) when both
/// arguments vanish.
pub open spec fn spec_yaw_sin_cos(dq: Quat) -> (int, int) {
    let a = spec_fmul(
        spec_sat_add(spec_fmul(dq.y as int, dq.w as int), spec_fmul(dq.x as int, dq.z as int)),
        FX_TWO as int,
    );
    let b = spec_sat_sub(
        spec_fmul(
            spec_sat_add(spec_fmul(dq.w as int, dq.w as int), spec_fmul(dq.x as int, dq.x as int)),
            FX_TWO as int,
        ),
        SCALE as int,
    );
    let h = spec_fsqrt(spec_sat_add(spec_fmul(a, a), spec_fmul(b, b)));
    if h == 0 {
        (0, SCALE as int)
    } else {
        (spec_fdiv(a, h), spec_fdiv(b, h))
    }
}

/// The yaw-only rotation extracted from `dq`, as a unit quaternion about the
/// vertical axis, built from the half-angle of the yaw.
pub open spec fn spec_yaw_quat(dq: Quat) -> Quat {
    let (sin_yaw, cos_yaw) = spec_yaw_sin_cos(dq);
    let cos_half = spec_fsqrt(spec_fmul(spec_sat_add(SCALE as int, cos_yaw), FX_HALF as int));
    let sin_half_mag = spec_fsqrt(spec_fmul(spec_sat_sub(SCALE as int, cos_yaw), FX_HALF as int));
    let sin_half = if sin_yaw < 0 {
        spec_sat_neg(sin_half_mag)
    } else {
        sin_half_mag
    };
    Quat { x: 0, y: sin_half as i64, z: 0, w: cos_half as i64 }
}

impl Vec3 {
    pub fn zero() -> (r: Vec3)
        ensures
            r == spec_vec3_zero(),
    {
        Vec3 { x: 0, y: 0, z: 0 }
    }
}

impl Quat {
    pub fn identity() -> (r: Quat)
        ensures
            r == spec_quat_identity(),
    {
        Quat { x: 0, y: 0, z: 0, w: SCALE }
    }
}

impl Transform {
    pub fn identity() -> (r: Transform)
        ensures
            r == spec_tf_identity(),
    {
        Transform { rotation: Quat::identity(), translation: Vec3::zero() }
    }
}

pub fn vec_add(a: Vec3, b: Vec3) -> (r: Vec3)
    ensures
        r == spec_vec_add(a, b),
{
    Vec3 { x: sat_add(a.x, b.x), y: sat_add(a.y, b.y), z: sat_add(a.z, b.z) }
}

pub fn vec_sub(a: Vec3, b: Vec3) -> (r: Vec3)
    ensures
        r == spec_vec_sub(a, b),
{
    Vec3 { x: sat_sub(a.x, b.x), y: sat_sub(a.y, b.y), z: sat_sub(a.z, b.z) }
}

pub fn vec_neg(a: Vec3) -> (r: Vec3)
    ensures
        r == spec_vec_neg(a),
{
    Vec3 { x: sat_neg(a.x), y: sat_neg(a.y), z: sat_neg(a.z) }
}

pub fn vec_scale(a: Vec3, s: i64) -> (r: Vec3)
    ensures
        r == spec_vec_scale(a, s as int),
{
    Vec3 { x: fmul(a.x, s), y: fmul(a.y, s), z: fmul(a.z, s) }
}

pub fn vec_cross(a: Vec3, b: Vec3) -> (r: Vec3)
    ensures
        r == spec_vec_cross(a, b),
{
    Vec3 {
        x: sat_sub(fmul(a.y, b.z), fmul(a.z, b.y)),
        y: sat_sub(fmul(a.z, b.x), fmul(a.x, b.z)),
        z: sat_sub(fmul(a.x, b.y), fmul(a.y, b.x)),
    }
}

pub fn vec_len_sq(a: Vec3) -> (r: i64)
    ensures
        r as int == spec_vec_len_sq(a),
{
    sat_add(sat_add(fmul(a.x, a.x), fmul(a.y, a.y)), fmul(a.z, a.z))
}

pub fn quat_conj(q: Quat) -> (r: Quat)
    ensures
        r == spec_quat_conj(q),
{
    Quat { x: sat_neg(q.x), y: sat_neg(q.y), z: sat_neg(q.z), w: q.w }
}

pub fn quat_mul(a: Quat, b: Quat) -> (r: Quat)
    ensures
        r == spec_quat_mul(a, b),
{
    Quat {
        x: sat_sub(
            sat_add(sat_add(fmul(a.w, b.x), fmul(a.x, b.w)), fmul(a.y, b.z)),
            fmul(a.z, b.y),
        ),
        y: sat_add(
            sat_sub(sat_add(fmul(a.w, b.y), fmul(a.y, b.w)), fmul(a.x, b.z)),
            fmul(a.z, b.x),
        ),
        z: sat_sub(
            sat_add(sat_add(fmul(a.w, b.z), fmul(a.z, b.w)), fmul(a.x, b.y)),
            fmul(a.y, b.x),
        ),
        w: sat_sub(
            sat_sub(sat_sub(fmul(a.w, b.w), fmul(a.x, b.x)), fmul(a.y, b.y)),
            fmul(a.z, b.z),
        ),
    }
}

pub fn quat_rotate(q: Quat, v: Vec3) -> (r: Vec3)
    ensures
        r == spec_quat_rotate(q, v),
{
    let u = Vec3 { x: q.x, y: q.y, z: q.z };
    let t = vec_cross(u, v);
    let s = vec_add(vec_scale(t, q.w), vec_cross(u, t));
    vec_add(v, vec_scale(s, FX_TWO))
}

pub fn tf_compose(a: Transform, b: Transform) -> (r: Transform)
    ensures
        r == spec_tf_compose(a, b),
{
    Transform {
        rotation: quat_mul(a.rotation, b.rotation),
        translation: vec_add(quat_rotate(a.rotation, b.translation), a.translation),
    }
}

pub fn tf_point(t: Transform, p: Vec3) -> (r: Vec3)
    ensures
        r == spec_tf_point(t, p),
{
    vec_add(quat_rotate(t.rotation, p), t.translation)
}

pub fn tf_inv_vector(t: Transform, v: Vec3) -> (r: Vec3)
    ensures
        r == spec_tf_inv_vector(t, v),
{
    quat_rotate(quat_conj(t.rotation), v)
}

pub fn yaw_sin_cos(dq: Quat) -> (r: (i64, i64))
    ensures
        (r.0 as int, r.1 as int) == spec_yaw_sin_cos(dq),
{
    let a = fmul(sat_add(fmul(dq.y, dq.w), fmul(dq.x, dq.z)), FX_TWO);
    let b = sat_sub(fmul(sat_add(fmul(dq.w, dq.w), fmul(dq.x, dq.x)), FX_TWO), SCALE);
    let h = fsqrt(sat_add(fmul(a, a), fmul(b, b)));
    if h == 0 {
        (0, SCALE)
    } else {
        (fdiv(a, h), fdiv(b, h))
    }
}

pub fn yaw_quat(dq: Quat) -> (r: Quat)
    ensures
        r == spec_yaw_quat(dq),
{
    let (sin_yaw, cos_yaw) = yaw_sin_cos(dq);
    let cos_half = fsqrt(fmul(sat_add(SCALE, cos_yaw), FX_HALF));
    let sin_half_mag = fsqrt(fmul(sat_sub(SCALE, cos_yaw), FX_HALF));
    let sin_half = if sin_yaw < 0 {
        sat_neg(sin_half_mag)
    } else {
        sin_half_mag
    };
    Quat { x: 0, y: sin_half, z: 0, w: cos_half }
}

} // verus!

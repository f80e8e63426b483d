//! The playspace mover: a per-frame state machine over gesture input that
//! owns the accumulated playspace transform, the floor calibration offset,
//! and at most one in-progress manipulation (drag or rotate).
//!
//! The mover only computes state transitions and the pose to commit; the
//! caller polls controllers and performs the runtime write of each returned
//! [`Pose`] (a failed write is the caller's to ignore: the mover's own
//! transform stays authoritative and the next write self-corrects).

use vstd::prelude::*;
use crate::fixed::{fmin, sat_sub, spec_min, spec_sat_sub};
use crate::geom::{
    quat_mul, quat_conj, quat_rotate, spec_quat_conj, spec_quat_mul, spec_quat_rotate,
    spec_tf_compose, spec_tf_identity, spec_tf_inv_vector, spec_tf_point, spec_vec3_zero,
    spec_vec_add, spec_vec_len_sq, spec_vec_neg, spec_vec_scale, spec_vec_sub, spec_yaw_quat,
    tf_compose, tf_inv_vector, tf_point, vec_add, vec_len_sq, vec_neg, vec_scale, vec_sub,
    yaw_quat, Quat, Transform, Vec3,
};
use crate::laws::lemma_update_mutual_exclusion;

verus! {

/// Square of the per-frame displacement (fixed-point) above which a drag
/// frame is treated as a tracking glitch and dropped: 1000.0 in real units.
pub const GLITCH_LIMIT_SQ: i64 = 1_000_000_000;

/// Margin subtracted from the lower hand height by the floor fix, standing
/// for the controller's own radius: 0.03 in real units.
pub const FLOOR_MARGIN: i64 = 30_000;

/// The gesture flags a pointer reports for one frame.
#[derive(Clone, Copy, PartialEq, Eq, Structural, Debug)]
pub struct GestureFlags {
    pub space_drag: bool,
    pub space_rotate: bool,
    pub space_fling: bool,
    pub space_reset: bool,
}

/// One hand pointer: current and previous-frame gesture flags plus the
/// controller's raw pose in tracking space.
#[derive(Clone, Copy, PartialEq, Eq, Structural, Debug)]
pub struct Pointer {
    pub now: GestureFlags,
    pub before: GestureFlags,
    pub raw_pose: Transform,
}

/// Session-fixed configuration; the multipliers are fixed-point scalars.
#[derive(Clone, Copy, PartialEq, Eq, Structural, Debug)]
pub struct MoverConfig {
    pub space_rotate_unlocked: bool,
    pub space_drag_multiplier: i64,
    pub space_fling_multiplier: i64,
}

/// The pose committed to the runtime's stage reference space.
#[derive(Clone, Copy, PartialEq, Eq, Structural, Debug)]
pub struct Pose {
    pub position: Vec3,
    pub orientation: Quat,
}

/// One overlay of the externally owned collection: grabbable overlays are
/// compensated during a drag and marked dirty when moved.
#[derive(Clone, Copy, PartialEq, Eq, Structural, Debug)]
pub struct Overlay {
    pub grabbable: bool,
    pub dirty: bool,
    pub translation: Vec3,
}

/// An in-progress drag: the playspace transform in effect when it started,
/// the controlling hand, the anchor point for per-frame deltas, and the most
/// recent linear velocity (kept to seed fling momentum).
#[derive(Clone, Copy, PartialEq, Eq, Structural, Debug)]
pub struct DragData {
    pub pose: Transform,
    pub hand: usize,
    pub anchor: Vec3,
    pub velocity: Vec3,
}

/// An in-progress rotate: like [`DragData`], with an orientation anchor.
#[derive(Clone, Copy, PartialEq, Eq, Structural, Debug)]
pub struct RotateData {
    pub pose: Transform,
    pub hand: usize,
    pub anchor: Quat,
}

/// The playspace mover's whole state.
#[derive(Clone, Copy, Debug)]
pub struct PlayspaceMover {
    pub last_transform: Transform,
    pub floor_offset: i64,
    pub space_fling_enabled: bool,
    pub momentum_velocity: Vec3,
    pub drag: Option<DragData>,
    pub rotate: Option<RotateData>,
}

/// What one frame of `update` produces: the next mover state, the overlay
/// collection after compensation, and the pose to commit, if any.
pub struct FrameOutcome {
    pub mover: PlayspaceMover,
    pub overlays: Seq<Overlay>,
    pub push: Option<Pose>,
}

/// The outcome of a frame step that cannot touch the overlay collection.
pub struct StepOutcome {
    pub mover: PlayspaceMover,
    pub push: Option<Pose>,
}

/// Index of the first pointer at or after `k` whose reset gesture is held.
pub open spec fn spec_first_reset_from(ps: Seq<Pointer>, k: int) -> Option<int>
    decreases ps.len() - k,
{
    if k < 0 || k >= ps.len() {
        None
    } else if ps[k].now.space_reset {
        Some(k)
    } else {
        spec_first_reset_from(ps, k + 1)
    }
}

/// Index of the first pointer at or after `k` whose rotate gesture is held.
pub open spec fn spec_first_rotate_from(ps: Seq<Pointer>, k: int) -> Option<int>
    decreases ps.len() - k,
{
    if k < 0 || k >= ps.len() {
        None
    } else if ps[k].now.space_rotate {
        Some(k)
    } else {
        spec_first_rotate_from(ps, k + 1)
    }
}

/// Index of the first pointer at or after `k` whose drag gesture is held.
pub open spec fn spec_first_drag_from(ps: Seq<Pointer>, k: int) -> Option<int>
    decreases ps.len() - k,
{
    if k < 0 || k >= ps.len() {
        None
    } else if ps[k].now.space_drag {
        Some(k)
    } else {
        spec_first_drag_from(ps, k + 1)
    }
}

/// Some pointer at or after `k` shows a rising edge of the fling gesture.
pub open spec fn spec_any_fling_edge_from(ps: Seq<Pointer>, k: int) -> bool
    decreases ps.len() - k,
{
    if k < 0 || k >= ps.len() {
        false
    } else {
        (ps[k].now.space_fling && !ps[k].before.space_fling) || spec_any_fling_edge_from(ps, k + 1)
    }
}

/// Some pointer at or after `k` currently holds drag or rotate.
pub open spec fn spec_any_interacting_from(ps: Seq<Pointer>, k: int) -> bool
    decreases ps.len() - k,
{
    if k < 0 || k >= ps.len() {
        false
    } else {
        ps[k].now.space_drag || ps[k].now.space_rotate || spec_any_interacting_from(ps, k + 1)
    }
}

/// The pose committed for transform `t` under mover state `m`: the floor
/// offset is layered onto the translation only at commit time.
pub open spec fn spec_apply_offset(m: PlayspaceMover, t: Transform) -> Pose {
    Pose {
        position: spec_vec_add(t.translation, Vec3 { x: 0, y: m.floor_offset, z: 0 }),
        orientation: t.rotation,
    }
}

/// Reset: cancel any manipulation and return to the identity transform. The
/// floor offset persists.
pub open spec fn spec_reset(m: PlayspaceMover) -> PlayspaceMover {
    PlayspaceMover { drag: None, rotate: None, last_transform: spec_tf_identity(), ..m }
}

/// Floor fix: cancel any manipulation and recalibrate the floor offset from
/// the lower of the two hands, less the controller-radius margin.
pub open spec fn spec_fix_floor(m: PlayspaceMover, ps: Seq<Pointer>) -> PlayspaceMover {
    PlayspaceMover {
        drag: None,
        rotate: None,
        floor_offset: spec_sat_sub(
            spec_min(
                ps[0].raw_pose.translation.y as int,
                ps[1].raw_pose.translation.y as int,
            ),
            FLOOR_MARGIN as int,
        ) as i64,
        ..m
    }
}

/// A grabbable overlay is shifted by `off` and marked dirty; others are left
/// alone.
pub open spec fn spec_overlay_shift(o: Overlay, off: Vec3) -> Overlay {
    if o.grabbable {
        Overlay { grabbable: o.grabbable, dirty: true, translation: spec_vec_add(o.translation, off) }
    } else {
        o
    }
}

/// Steps 6 and 7: the fling toggle (rising-edge triggered) and, when no
/// manipulation gesture is held, constant-velocity continuation of the last
/// drag's momentum; otherwise the momentum is cleared.
pub open spec fn spec_step_fling(
    m: PlayspaceMover,
    ps: Seq<Pointer>,
    cfg: MoverConfig,
) -> StepOutcome {
    let enabled = if spec_any_fling_edge_from(ps, 0) {
        !m.space_fling_enabled
    } else {
        m.space_fling_enabled
    };
    if !spec_any_interacting_from(ps, 0) && enabled {
        let newt = spec_vec_add(
            m.last_transform.translation,
            spec_vec_scale(m.momentum_velocity, cfg.space_fling_multiplier as int),
        );
        if newt != m.last_transform.translation {
            let m2 = PlayspaceMover {
                space_fling_enabled: enabled,
                last_transform: Transform { rotation: m.last_transform.rotation, translation: newt },
                ..m
            };
            StepOutcome { mover: m2, push: Some(spec_apply_offset(m2, m2.last_transform)) }
        } else {
            StepOutcome { mover: PlayspaceMover { space_fling_enabled: enabled, ..m }, push: None }
        }
    } else {
        StepOutcome {
            mover: PlayspaceMover {
                space_fling_enabled: enabled,
                momentum_velocity: spec_vec3_zero(),
                ..m
            },
            push: None,
        }
    }
}

/// The relative displacement an in-progress drag computes for this frame:
/// the anchored hand's movement in playspace, scaled by the drag multiplier.
pub open spec fn spec_drag_rel(m: PlayspaceMover, ps: Seq<Pointer>, cfg: MoverConfig) -> Vec3 {
    let data = m.drag->Some_0;
    spec_vec_scale(
        spec_vec_sub(
            spec_tf_point(data.pose, ps[data.hand as int].raw_pose.translation),
            data.anchor,
        ),
        cfg.space_drag_multiplier as int,
    )
}

/// Steps 4 and 5: continue, end, or start a drag; otherwise fall through to
/// the fling steps.
pub open spec fn spec_step_drag(
    m: PlayspaceMover,
    ovl: Seq<Overlay>,
    ps: Seq<Pointer>,
    cfg: MoverConfig,
) -> FrameOutcome {
    if m.drag is Some {
        let data = m.drag->Some_0;
        let p = ps[data.hand as int];
        if !p.now.space_drag {
            FrameOutcome {
                mover: PlayspaceMover {
                    drag: None,
                    last_transform: data.pose,
                    momentum_velocity: data.velocity,
                    ..m
                },
                overlays: ovl,
                push: None,
            }
        } else {
            let new_hand = spec_tf_point(data.pose, p.raw_pose.translation);
            let rel = spec_vec_scale(
                spec_vec_sub(new_hand, data.anchor),
                cfg.space_drag_multiplier as int,
            );
            if spec_vec_len_sq(rel) > GLITCH_LIMIT_SQ as int {
                FrameOutcome {
                    mover: PlayspaceMover { drag: Some(DragData { velocity: rel, ..data }), ..m },
                    overlays: ovl,
                    push: None,
                }
            } else {
                let off = spec_vec_neg(spec_tf_inv_vector(data.pose, rel));
                let pose2 = Transform {
                    rotation: data.pose.rotation,
                    translation: spec_vec_add(data.pose.translation, rel),
                };
                let m2 = PlayspaceMover {
                    drag: Some(DragData { pose: pose2, anchor: new_hand, velocity: rel, ..data }),
                    ..m
                };
                FrameOutcome {
                    mover: m2,
                    overlays: ovl.map_values(|o: Overlay| spec_overlay_shift(o, off)),
                    push: Some(spec_apply_offset(m2, pose2)),
                }
            }
        }
    } else {
        match spec_first_drag_from(ps, 0) {
            Some(i) => FrameOutcome {
                mover: PlayspaceMover {
                    drag: Some(
                        DragData {
                            pose: m.last_transform,
                            hand: i as usize,
                            anchor: spec_tf_point(m.last_transform, ps[i].raw_pose.translation),
                            velocity: spec_vec3_zero(),
                        },
                    ),
                    ..m
                },
                overlays: ovl,
                push: None,
            },
            None => {
                let s = spec_step_fling(m, ps, cfg);
                FrameOutcome { mover: s.mover, overlays: ovl, push: s.push }
            },
        }
    }
}

/// Steps 2 and 3: continue, end, or start a rotate (starting one cancels any
/// drag); otherwise fall through to the drag steps.
pub open spec fn spec_step_rotate(
    m: PlayspaceMover,
    ovl: Seq<Overlay>,
    ps: Seq<Pointer>,
    hmd_position: Vec3,
    cfg: MoverConfig,
) -> FrameOutcome {
    if m.rotate is Some {
        let data = m.rotate->Some_0;
        let p = ps[data.hand as int];
        if !p.now.space_rotate {
            FrameOutcome {
                mover: PlayspaceMover { rotate: None, last_transform: data.pose, ..m },
                overlays: ovl,
                push: None,
            }
        } else {
            let new_hand = spec_quat_mul(data.pose.rotation, p.raw_pose.rotation);
            let dq = spec_quat_mul(new_hand, spec_quat_conj(data.anchor));
            let rot = if cfg.space_rotate_unlocked {
                dq
            } else {
                spec_yaw_quat(dq)
            };
            let off = spec_vec_neg(spec_vec_sub(spec_quat_rotate(rot, hmd_position), hmd_position));
            let pose2 = spec_tf_compose(data.pose, Transform { rotation: rot, translation: off });
            let m2 = PlayspaceMover {
                rotate: Some(RotateData { pose: pose2, anchor: new_hand, ..data }),
                ..m
            };
            FrameOutcome { mover: m2, overlays: ovl, push: Some(spec_apply_offset(m2, pose2)) }
        }
    } else {
        match spec_first_rotate_from(ps, 0) {
            Some(i) => FrameOutcome {
                mover: PlayspaceMover {
                    rotate: Some(
                        RotateData {
                            pose: m.last_transform,
                            hand: i as usize,
                            anchor: spec_quat_mul(
                                m.last_transform.rotation,
                                ps[i].raw_pose.rotation,
                            ),
                        },
                    ),
                    drag: None,
                    ..m
                },
                overlays: ovl,
                push: None,
            },
            None => spec_step_drag(m, ovl, ps, cfg),
        }
    }
}

/// One whole frame, in strict priority order: reset, rotate, drag, fling.
pub open spec fn spec_update(
    m: PlayspaceMover,
    ovl: Seq<Overlay>,
    ps: Seq<Pointer>,
    hmd_position: Vec3,
    cfg: MoverConfig,
) -> FrameOutcome {
    match spec_first_reset_from(ps, 0) {
        Some(i) => {
            if !ps[i].before.space_reset {
                let m2 = spec_reset(m);
                FrameOutcome {
                    mover: m2,
                    overlays: ovl,
                    push: Some(spec_apply_offset(m2, spec_tf_identity())),
                }
            } else {
                FrameOutcome { mover: m, overlays: ovl, push: None }
            }
        }
        None => spec_step_rotate(m, ovl, ps, hmd_position, cfg),
    }
}

/// The mover constructed from the runtime's current stage offset.
pub open spec fn spec_new_mover(stage: Pose) -> PlayspaceMover {
    PlayspaceMover {
        last_transform: Transform { rotation: stage.orientation, translation: stage.position },
        floor_offset: 0,
        space_fling_enabled: false,
        momentum_velocity: spec_vec3_zero(),
        drag: None,
        rotate: None,
    }
}

impl PlayspaceMover {
    /// At most one manipulation is in progress.
    pub open spec fn wf(self) -> bool {
        !(self.drag is Some && self.rotate is Some)
    }

    /// Any in-progress manipulation names a hand that the pointer set has.
    pub open spec fn hands_in_bounds(self, n: int) -> bool {
        &&& (self.drag is Some ==> (self.drag->Some_0.hand as int) < n)
        &&& (self.rotate is Some ==> (self.rotate->Some_0.hand as int) < n)
    }

    /// Construct the mover from the stage offset the runtime reported:
    /// floor offset zero, fling disabled, no manipulation in progress.
    pub fn new(stage: Pose) -> (m: Self)
        ensures
            m == spec_new_mover(stage),
            m.wf(),
    {
        PlayspaceMover {
            last_transform: Transform { rotation: stage.orientation, translation: stage.position },
            floor_offset: 0,
            space_fling_enabled: false,
            momentum_velocity: Vec3 { x: 0, y: 0, z: 0 },
            drag: None,
            rotate: None,
        }
    }

    /// The pose to commit for `transform`: the floor offset is added to the
    /// vertical translation only here, at the commit boundary.
    pub fn apply_offset(&self, transform: Transform) -> (pose: Pose)
        ensures
            pose == spec_apply_offset(*self, transform),
    {
        Pose {
            position: vec_add(transform.translation, Vec3 { x: 0, y: self.floor_offset, z: 0 }),
            orientation: transform.rotation,
        }
    }

    /// Cancel any in-progress manipulation and return to the identity
    /// transform; the floor offset persists. Returns the pose to commit.
    pub fn reset_offset(&mut self) -> (push: Pose)
        ensures
            *final(self) == spec_reset(*old(self)),
            push == spec_apply_offset(spec_reset(*old(self)), spec_tf_identity()),
            final(self).wf(),
    {
        self.drag = None;
        self.rotate = None;
        self.last_transform = Transform::identity();
        self.apply_offset(self.last_transform)
    }

    /// Cancel any in-progress manipulation and recalibrate the floor offset
    /// from the raw vertical positions of the two hands, assumed to rest on
    /// the physical floor. Returns the pose to commit.
    pub fn fix_floor(&mut self, pointers: &Vec<Pointer>) -> (push: Pose)
        requires
            pointers@.len() >= 2,
        ensures
            *final(self) == spec_fix_floor(*old(self), pointers@),
            push == spec_apply_offset(
                spec_fix_floor(*old(self), pointers@),
                old(self).last_transform,
            ),
            final(self).wf(),
            final(self).last_transform == old(self).last_transform,
    {
        self.drag = None;
        self.rotate = None;
        let y1 = pointers[0].raw_pose.translation.y;
        let y2 = pointers[1].raw_pose.translation.y;
        self.floor_offset = sat_sub(fmin(y1, y2), FLOOR_MARGIN);
        self.apply_offset(self.last_transform)
    }


    /// Steps 6 and 7: toggle the fling flag on a rising edge, then either
    /// continue the last drag's momentum or clear it.
    fn step_fling(&mut self, pointers: &Vec<Pointer>, config: MoverConfig) -> (push: Option<Pose>)
        ensures
            ({
                let s = spec_step_fling(*old(self), pointers@, config);
                &&& *final(self) == s.mover
                &&& push == s.push
            }),
    {
        let ghost ps = pointers@;
        let n = pointers.len();
        let mut edge = false;
        let mut k: usize = 0;
        while k < n
            invariant
                n == ps.len(),
                ps == pointers@,
                k <= n,
                spec_any_fling_edge_from(ps, 0) == (edge || spec_any_fling_edge_from(ps, k as int)),
                *self == *old(self),
            decreases n - k,
        {
            let p = pointers[k];
            if p.now.space_fling && !p.before.space_fling {
                edge = true;
            }
            k += 1;
        }
        if edge {
            self.space_fling_enabled = !self.space_fling_enabled;
        }

        let mut interacting = false;
        let mut k: usize = 0;
        while k < n
            invariant
                n == ps.len(),
                ps == pointers@,
                k <= n,
                spec_any_interacting_from(ps, 0) == (interacting || spec_any_interacting_from(
                    ps,
                    k as int,
                )),
                self.space_fling_enabled == (if spec_any_fling_edge_from(ps, 0) {
                    !old(self).space_fling_enabled
                } else {
                    old(self).space_fling_enabled
                }),
                self.last_transform == old(self).last_transform,
                self.momentum_velocity == old(self).momentum_velocity,
                self.floor_offset == old(self).floor_offset,
                self.drag == old(self).drag,
                self.rotate == old(self).rotate,
            decreases n - k,
        {
            let p = pointers[k];
            if p.now.space_drag || p.now.space_rotate {
                interacting = true;
            }
            k += 1;
        }
        if !interacting && self.space_fling_enabled {
            let newt = vec_add(
                self.last_transform.translation,
                vec_scale(self.momentum_velocity, config.space_fling_multiplier),
            );
            if newt != self.last_transform.translation {
                self.last_transform.translation = newt;
                let push = self.apply_offset(self.last_transform);
                Some(push)
            } else {
                None
            }
        } else {
            self.momentum_velocity = Vec3 { x: 0, y: 0, z: 0 };
            None
        }
    }

    /// Steps 4 and 5: continue, end, or start a drag, shifting grabbable
    /// overlays while a drag moves the playspace under them; fall through to
    /// the fling steps when no drag is involved.
    fn step_drag(
        &mut self,
        overlays: &mut Vec<Overlay>,
        pointers: &Vec<Pointer>,
        config: MoverConfig,
    ) -> (push: Option<Pose>)
        requires
            old(self).drag is Some ==> (old(self).drag->Some_0.hand as int) < pointers@.len(),
        ensures
            ({
                let o = spec_step_drag(*old(self), old(overlays)@, pointers@, config);
                &&& *final(self) == o.mover
                &&& final(overlays)@ == o.overlays
                &&& push == o.push
            }),
    {
        let ghost ps = pointers@;
        let n = pointers.len();
        if let Some(data) = self.drag {
            let p = pointers[data.hand];
            if !p.now.space_drag {
                self.momentum_velocity = data.velocity;
                self.last_transform = data.pose;
                self.drag = None;
                return None;
            }
            let new_hand = tf_point(data.pose, p.raw_pose.translation);
            let rel = vec_scale(vec_sub(new_hand, data.anchor), config.space_drag_multiplier);
            if vec_len_sq(rel) > GLITCH_LIMIT_SQ {
                self.drag = Some(
                    DragData { pose: data.pose, hand: data.hand, anchor: data.anchor, velocity: rel },
                );
                return None;
            }
            let off = vec_neg(tf_inv_vector(data.pose, rel));
            let ghost ovl0 = overlays@;
            let n_ovl = overlays.len();
            let mut k: usize = 0;
            while k < n_ovl
                invariant
                    n_ovl == ovl0.len(),
                    overlays@.len() == ovl0.len(),
                    k <= n_ovl,
                    forall|j: int| 0 <= j < k ==> overlays@[j] == spec_overlay_shift(ovl0[j], off),
                    forall|j: int| k <= j < ovl0.len() ==> overlays@[j] == ovl0[j],
                decreases n_ovl - k,
            {
                if overlays[k].grabbable {
                    let cur = overlays[k];
                    overlays[k] = Overlay {
                        grabbable: cur.grabbable,
                        dirty: true,
                        translation: vec_add(cur.translation, off),
                    };
                }
                k += 1;
            }
            proof {
                assert(overlays@ =~= ovl0.map_values(|o: Overlay| spec_overlay_shift(o, off)));
            }
            let pose2 = Transform {
                rotation: data.pose.rotation,
                translation: vec_add(data.pose.translation, rel),
            };
            self.drag = Some(
                DragData { pose: pose2, hand: data.hand, anchor: new_hand, velocity: rel },
            );
            let push = self.apply_offset(pose2);
            return Some(push);
        }
        let mut i: usize = 0;
        while i < n
            invariant
                n == ps.len(),
                ps == pointers@,
                i <= n,
                spec_first_drag_from(ps, 0) == spec_first_drag_from(ps, i as int),
                *self == *old(self),
                overlays@ == old(overlays)@,
                self.drag is None,
            decreases n - i,
        {
            let p = pointers[i];
            if p.now.space_drag {
                let anchor = tf_point(self.last_transform, p.raw_pose.translation);
                self.drag = Some(
                    DragData {
                        pose: self.last_transform,
                        hand: i,
                        anchor,
                        velocity: Vec3 { x: 0, y: 0, z: 0 },
                    },
                );
                return None;
            }
            i += 1;
        }
        self.step_fling(pointers, config)
    }

    /// Steps 2 and 3: continue, end, or start a rotate (starting one cancels
    /// any drag); fall through to the drag steps when no rotate is involved.
    fn step_rotate(
        &mut self,
        overlays: &mut Vec<Overlay>,
        pointers: &Vec<Pointer>,
        hmd_position: Vec3,
        config: MoverConfig,
    ) -> (push: Option<Pose>)
        requires
            old(self).hands_in_bounds(pointers@.len() as int),
        ensures
            ({
                let o = spec_step_rotate(
                    *old(self),
                    old(overlays)@,
                    pointers@,
                    hmd_position,
                    config,
                );
                &&& *final(self) == o.mover
                &&& final(overlays)@ == o.overlays
                &&& push == o.push
            }),
    {
        let ghost ps = pointers@;
        let n = pointers.len();
        if let Some(data) = self.rotate {
            let p = pointers[data.hand];
            if !p.now.space_rotate {
                self.rotate = None;
                self.last_transform = data.pose;
                return None;
            }
            let new_hand = quat_mul(data.pose.rotation, p.raw_pose.rotation);
            let dq = quat_mul(new_hand, quat_conj(data.anchor));
            let rot = if config.space_rotate_unlocked {
                dq
            } else {
                yaw_quat(dq)
            };
            let off = vec_neg(vec_sub(quat_rotate(rot, hmd_position), hmd_position));
            let pose2 = tf_compose(data.pose, Transform { rotation: rot, translation: off });
            self.rotate = Some(RotateData { pose: pose2, hand: data.hand, anchor: new_hand });
            let push = self.apply_offset(pose2);
            return Some(push);
        }
        let mut i: usize = 0;
        while i < n
            invariant
                n == ps.len(),
                ps == pointers@,
                i <= n,
                spec_first_rotate_from(ps, 0) == spec_first_rotate_from(ps, i as int),
                *self == *old(self),
                overlays@ == old(overlays)@,
                self.rotate is None,
            decreases n - i,
        {
            let p = pointers[i];
            if p.now.space_rotate {
                let anchor = quat_mul(self.last_transform.rotation, p.raw_pose.rotation);
                self.rotate = Some(RotateData { pose: self.last_transform, hand: i, anchor });
                self.drag = None;
                return None;
            }
            i += 1;
        }
        self.step_drag(overlays, pointers, config)
    }

    /// One frame: evaluate reset, rotate, drag and fling in strict priority
    /// order, shift grabbable overlays during a drag, and return the pose to
    /// commit to the runtime, if this frame committed one.
    #[verifier::rlimit(60)]
    pub fn update(
        &mut self,
        overlays: &mut Vec<Overlay>,
        pointers: &Vec<Pointer>,
        hmd_position: Vec3,
        config: MoverConfig,
    ) -> (push: Option<Pose>)
        requires
            old(self).wf(),
            old(self).hands_in_bounds(pointers@.len() as int),
        ensures
            ({
                let o = spec_update(*old(self), old(overlays)@, pointers@, hmd_position, config);
                &&& *final(self) == o.mover
                &&& final(overlays)@ == o.overlays
                &&& push == o.push
            }),
            final(self).wf(),
            final(self).floor_offset == old(self).floor_offset,
    {
        proof {
            lemma_update_mutual_exclusion(
                *old(self),
                old(overlays)@,
                pointers@,
                hmd_position,
                config,
            );
        }
        match Self::find_reset(pointers) {
            Some(i) => {
                if !pointers[i].before.space_reset {
                    Some(self.reset_offset())
                } else {
                    None
                }
            },
            None => self.step_rotate(overlays, pointers, hmd_position, config),
        }
    }

    /// The first pointer whose reset gesture is held this frame, if any.
    fn find_reset(pointers: &Vec<Pointer>) -> (r: Option<usize>)
        ensures
            match r {
                Some(i) => (i as int) < pointers@.len() && spec_first_reset_from(pointers@, 0)
                    == Some(i as int),
                None => spec_first_reset_from(pointers@, 0) is None,
            },
    {
        let ghost ps = pointers@;
        let n = pointers.len();
        let mut i: usize = 0;
        while i < n
            invariant
                n == ps.len(),
                ps == pointers@,
                i <= n,
                spec_first_reset_from(ps, 0) == spec_first_reset_from(ps, i as int),
            decreases n - i,
        {
            if pointers[i].now.space_reset {
                return Some(i);
            }
            i += 1;
        }
        None
    }
}

} // verus!

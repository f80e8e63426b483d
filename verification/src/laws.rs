//! The guarantees the mover gives across whole frames, stated and proved
//! over the frame transition [`spec_update`] for every possible input.

use vstd::prelude::*;
use crate::geom::{spec_tf_identity, spec_vec_len_sq, Vec3};
use crate::mover::{
    spec_any_fling_edge_from, spec_drag_rel, spec_first_drag_from, spec_first_reset_from,
    spec_first_rotate_from, spec_reset, spec_update, MoverConfig, Overlay, PlayspaceMover,
    Pointer, GLITCH_LIMIT_SQ,
};

verus! {

/// Mutual exclusion: for every sequence of gesture inputs, a frame that
/// starts with at most one manipulation in progress ends with at most one;
/// drag and rotate records are never simultaneously present.
pub proof fn lemma_update_mutual_exclusion(
    m: PlayspaceMover,
    ovl: Seq<Overlay>,
    ps: Seq<Pointer>,
    hmd_position: Vec3,
    cfg: MoverConfig,
)
    requires
        m.wf(),
    ensures
        spec_update(m, ovl, ps, hmd_position, cfg).mover.wf(),
{
}

/// Rotate priority: a rotate gesture arriving while a drag is in progress
/// cancels the drag within the same frame, and the new rotate record picks
/// up exactly the last committed playspace transform, so the handoff has no
/// discontinuity.
pub proof fn lemma_rotate_priority(
    m: PlayspaceMover,
    ovl: Seq<Overlay>,
    ps: Seq<Pointer>,
    hmd_position: Vec3,
    cfg: MoverConfig,
)
    requires
        m.wf(),
        m.rotate is None,
        spec_first_reset_from(ps, 0) is None,
        spec_first_rotate_from(ps, 0) is Some,
    ensures
        spec_update(m, ovl, ps, hmd_position, cfg).mover.drag is None,
        spec_update(m, ovl, ps, hmd_position, cfg).mover.rotate is Some,
        spec_update(m, ovl, ps, hmd_position, cfg).mover.rotate->Some_0.pose == m.last_transform,
{
}

/// Idempotent reset: resetting twice in a row yields the identity transform
/// both times, and the floor offset survives any number of resets.
pub proof fn lemma_reset_idempotent(m: PlayspaceMover)
    ensures
        spec_reset(spec_reset(m)) == spec_reset(m),
        spec_reset(m).last_transform == spec_tf_identity(),
        spec_reset(m).floor_offset == m.floor_offset,
{
}

/// Glitch guard: while a drag is held, a frame whose relative displacement
/// has squared magnitude above the limit leaves the committed transform, the
/// drag pose and the drag anchor untouched, commits nothing to the runtime,
/// and does not move any overlay.
pub proof fn lemma_glitch_guard(
    m: PlayspaceMover,
    ovl: Seq<Overlay>,
    ps: Seq<Pointer>,
    hmd_position: Vec3,
    cfg: MoverConfig,
)
    requires
        m.wf(),
        m.drag is Some,
        0 <= m.drag->Some_0.hand < ps.len(),
        spec_first_reset_from(ps, 0) is None,
        spec_first_rotate_from(ps, 0) is None,
        ps[m.drag->Some_0.hand as int].now.space_drag,
        spec_vec_len_sq(spec_drag_rel(m, ps, cfg)) > GLITCH_LIMIT_SQ as int,
    ensures
        ({
            let o = spec_update(m, ovl, ps, hmd_position, cfg);
            &&& o.mover.last_transform == m.last_transform
            &&& o.mover.drag is Some
            &&& o.mover.drag->Some_0.pose == m.drag->Some_0.pose
            &&& o.mover.drag->Some_0.anchor == m.drag->Some_0.anchor
            &&& o.push is None
            &&& o.overlays == ovl
        }),
{
}

/// The fling toggle is edge-triggered: a frame in which no pointer shows a
/// rising edge of the fling gesture — holding it from the previous frame
/// included — leaves the enabled flag as it was, whatever else the frame
/// does.
pub proof fn lemma_fling_no_edge_no_toggle(
    m: PlayspaceMover,
    ovl: Seq<Overlay>,
    ps: Seq<Pointer>,
    hmd_position: Vec3,
    cfg: MoverConfig,
)
    requires
        m.wf(),
        !spec_any_fling_edge_from(ps, 0),
    ensures
        spec_update(m, ovl, ps, hmd_position, cfg).mover.space_fling_enabled
            == m.space_fling_enabled,
{
}

/// The fling toggle flips exactly once on a rising edge: a frame that shows
/// one and reaches the fling step (no reset, no rotate, no drag gesture)
/// inverts the enabled flag.
pub proof fn lemma_fling_edge_toggles(
    m: PlayspaceMover,
    ovl: Seq<Overlay>,
    ps: Seq<Pointer>,
    hmd_position: Vec3,
    cfg: MoverConfig,
)
    requires
        m.wf(),
        m.rotate is None,
        m.drag is None,
        spec_first_reset_from(ps, 0) is None,
        spec_first_rotate_from(ps, 0) is None,
        spec_first_drag_from(ps, 0) is None,
        spec_any_fling_edge_from(ps, 0),
    ensures
        spec_update(m, ovl, ps, hmd_position, cfg).mover.space_fling_enabled
            == !m.space_fling_enabled,
{
}

} // verus!

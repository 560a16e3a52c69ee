use vstd::prelude::*;

verus! {

/// Points interpolated between two neighbouring input points, counting the
/// far end.
pub const SUBDIVISIONS: u32 = 8;

/// Invocations per compute workgroup.
pub const WORKGROUP_SIZE: u32 = 64;

/// The number of workgroups that covers `count` invocations: `count`
/// divided by the workgroup size, rounded up.
pub open spec fn workgroups_needed(count: nat) -> nat {
    ((count + WORKGROUP_SIZE - 1) / (WORKGROUP_SIZE as int)) as nat
}

/// Interpolated points for `raw` input points: the first point and
/// `SUBDIVISIONS` more per gap; none with fewer than two input points.
pub open spec fn interp_count_of(raw: nat) -> nat {
    if raw >= 2 {
        ((raw - 1) * SUBDIVISIONS + 1) as nat
    } else {
        0
    }
}

/// The compute work of one frame.
#[derive(Clone, Copy, Debug, PartialEq, Eq, Structural)]
pub struct ComputePlan {
    /// Workgroups of the Bézier subdivision pass; `None` skips it.
    pub bezier_workgroups: Option<u32>,
    /// Interpolated points. When positive, the point parameters are written
    /// and both point passes run.
    pub interp_count: u32,
    /// Workgroups of the point interpolation pass; `None` skips it.
    pub interp_workgroups: Option<u32>,
    /// Workgroups of the segment building pass; `None` skips it.
    pub segment_workgroups: Option<u32>,
    /// Segment instances the stroke renderer draws.
    pub stroke_instance_count: u32,
}

/// Workgroups of size `WORKGROUP_SIZE` that cover `count` invocations.
pub fn workgroups_for(count: u32) -> (n: u32)
    ensures
        n == workgroups_needed(count as nat),
{
    let q = count / WORKGROUP_SIZE;
    let r = count % WORKGROUP_SIZE;
    proof {
        let c = count as int;
        assert(c == 64 * q + r);
        assert((c + 63) / 64 == q + (if r == 0 { 0int } else { 1int })) by (nonlinear_arith)
            requires
                c == 64 * q + r,
                0 <= r < 64,
                q >= 0,
        ;
    }
    if r == 0 {
        q
    } else {
        q + 1
    }
}

/// Plans a frame's compute passes from the number of raw input points and
/// the Bézier segments and instances uploaded.
pub fn plan_compute(raw_point_count: u32, bezier_segment_count: u32, bezier_instance_count: u32) -> (p: ComputePlan)
    requires
        interp_count_of(raw_point_count as nat) <= u32::MAX,
    ensures
        p.bezier_workgroups == (if bezier_segment_count > 0 {
            Some(workgroups_needed(bezier_instance_count as nat) as u32)
        } else {
            None
        }),
        p.interp_count == interp_count_of(raw_point_count as nat),
        p.interp_workgroups == (if raw_point_count >= 2 {
            Some(workgroups_needed((raw_point_count - 1) as nat) as u32)
        } else {
            None
        }),
        p.segment_workgroups == (if raw_point_count >= 2 {
            Some(workgroups_needed((interp_count_of(raw_point_count as nat) - 1) as nat) as u32)
        } else {
            None
        }),
        p.stroke_instance_count == (if raw_point_count >= 2 {
            interp_count_of(raw_point_count as nat) - 1
        } else {
            0
        }),
{
    let bezier_workgroups = if bezier_segment_count > 0 {
        Some(workgroups_for(bezier_instance_count))
    } else {
        None
    };
    if raw_point_count >= 2 {
        let interp_count = (raw_point_count - 1) * SUBDIVISIONS + 1;
        ComputePlan {
            bezier_workgroups,
            interp_count,
            interp_workgroups: Some(workgroups_for(raw_point_count - 1)),
            segment_workgroups: Some(workgroups_for(interp_count - 1)),
            stroke_instance_count: interp_count - 1,
        }
    } else {
        ComputePlan {
            bezier_workgroups,
            interp_count: 0,
            interp_workgroups: None,
            segment_workgroups: None,
            stroke_instance_count: 0,
        }
    }
}

/// Enough workgroups for every invocation, and not one more than needed.
pub proof fn lemma_workgroups_cover(count: nat)
    ensures
        workgroups_needed(count) * (WORKGROUP_SIZE as int) >= count,
        workgroups_needed(count) == 0 || (workgroups_needed(count) - 1) * (WORKGROUP_SIZE as int) < count,
{
    let n = workgroups_needed(count) as int;
    let c = count as int;
    assert(n * 64 >= c && (n == 0 || (n - 1) * 64 < c)) by (nonlinear_arith)
        requires
            n == (c + 63) / 64,
            c >= 0,
    ;
}

/// Every interpolated point but the last starts one stroke segment, so a
/// stroke of `raw >= 2` points is drawn as `SUBDIVISIONS` segments per gap.
pub proof fn lemma_segments_per_gap(raw: nat)
    requires
        raw >= 2,
    ensures
        interp_count_of(raw) - 1 == (raw - 1) * SUBDIVISIONS,
{
}

/// The state of the surface texture acquired for a frame.
#[derive(Clone, Copy, Debug, PartialEq, Eq, Structural)]
pub enum SurfaceStatus {
    Success,
    Suboptimal,
    Timeout,
    Occluded,
    Validation,
    Outdated,
    Lost,
}

/// What a frame does with the surface texture it got.
#[derive(Clone, Copy, Debug, PartialEq, Eq, Structural)]
pub enum SurfaceAction {
    /// Draw into the texture, after configuring the surface anew when
    /// `reconfigure`.
    Draw { reconfigure: bool },
    /// Draw nothing this frame, after configuring the surface anew when
    /// `reconfigure`.
    Skip { reconfigure: bool },
    /// The device is lost: rendering fails.
    Fail,
}

pub open spec fn surface_action_of(status: SurfaceStatus) -> SurfaceAction {
    match status {
        SurfaceStatus::Success => SurfaceAction::Draw { reconfigure: false },
        SurfaceStatus::Suboptimal => SurfaceAction::Draw { reconfigure: true },
        SurfaceStatus::Timeout | SurfaceStatus::Occluded | SurfaceStatus::Validation => SurfaceAction::Skip {
            reconfigure: false,
        },
        SurfaceStatus::Outdated => SurfaceAction::Skip { reconfigure: true },
        SurfaceStatus::Lost => SurfaceAction::Fail,
    }
}

/// A usable texture is drawn into (a suboptimal one after reconfiguring);
/// a timeout, an occluded window or a validation error skips the frame; an
/// outdated surface is reconfigured and the frame skipped; a lost device
/// fails.
pub fn surface_action(status: SurfaceStatus) -> (a: SurfaceAction)
    ensures
        a == surface_action_of(status),
{
    match status {
        SurfaceStatus::Success => SurfaceAction::Draw { reconfigure: false },
        SurfaceStatus::Suboptimal => SurfaceAction::Draw { reconfigure: true },
        SurfaceStatus::Timeout | SurfaceStatus::Occluded | SurfaceStatus::Validation => SurfaceAction::Skip {
            reconfigure: false,
        },
        SurfaceStatus::Outdated => SurfaceAction::Skip { reconfigure: true },
        SurfaceStatus::Lost => SurfaceAction::Fail,
    }
}

/// The instance buffers a frame can draw.
#[derive(Clone, Copy, Debug, PartialEq, Eq, Structural)]
pub enum PassKind {
    /// The resampled points shown in debug mode.
    DebugDiscs,
    /// The segments of the stroke being drawn.
    Strokes,
    /// The round joins and caps.
    Discs,
    /// The subdivided Bézier curves of finished strokes.
    Beziers,
}

/// One instanced draw of six vertices per instance.
#[derive(Clone, Copy, Debug, PartialEq, Eq, Structural)]
pub struct DrawPass {
    pub kind: PassKind,
    pub instance_count: u32,
}

/// A draw of `count` instances of `kind`, or none when there are none.
pub open spec fn pass_if_any(kind: PassKind, count: u32) -> Seq<DrawPass> {
    if count > 0 {
        seq![DrawPass { kind, instance_count: count }]
    } else {
        Seq::empty()
    }
}

/// The draws of a frame: in debug mode only the debug points; otherwise
/// the stroke segments, the discs and the Bézier curves, in this order.
pub open spec fn draw_passes(debug_mode: bool, debug_count: u32, stroke_count: u32, disc_count: u32, bezier_count: u32) -> Seq<DrawPass> {
    if debug_mode {
        pass_if_any(PassKind::DebugDiscs, debug_count)
    } else {
        pass_if_any(PassKind::Strokes, stroke_count) + pass_if_any(PassKind::Discs, disc_count)
            + pass_if_any(PassKind::Beziers, bezier_count)
    }
}

/// Plans the draws of a frame; buffers with no instances are not drawn.
pub fn plan_draw_passes(
    debug_mode: bool,
    debug_point_count: u32,
    stroke_instance_count: u32,
    disc_instance_count: u32,
    bezier_instance_count: u32,
) -> (passes: Vec<DrawPass>)
    ensures
        passes@ == draw_passes(
            debug_mode,
            debug_point_count,
            stroke_instance_count,
            disc_instance_count,
            bezier_instance_count,
        ),
{
    let mut passes: Vec<DrawPass> = Vec::new();
    if debug_mode {
        if debug_point_count > 0 {
            passes.push(DrawPass { kind: PassKind::DebugDiscs, instance_count: debug_point_count });
        }
    } else {
        if stroke_instance_count > 0 {
            passes.push(DrawPass { kind: PassKind::Strokes, instance_count: stroke_instance_count });
        }
        if disc_instance_count > 0 {
            passes.push(DrawPass { kind: PassKind::Discs, instance_count: disc_instance_count });
        }
        if bezier_instance_count > 0 {
            passes.push(DrawPass { kind: PassKind::Beziers, instance_count: bezier_instance_count });
        }
        assert(passes@ =~= pass_if_any(PassKind::Strokes, stroke_instance_count) + pass_if_any(
            PassKind::Discs,
            disc_instance_count,
        ) + pass_if_any(PassKind::Beziers, bezier_instance_count));
    }
    passes
}

/// Every planned draw has instances, and debug mode draws nothing but the
/// debug points.
pub proof fn lemma_draws_are_nonempty(debug_mode: bool, d: u32, s: u32, c: u32, b: u32)
    ensures
        forall|i: int|
            0 <= i < draw_passes(debug_mode, d, s, c, b).len() ==> #[trigger] draw_passes(
                debug_mode,
                d,
                s,
                c,
                b,
            )[i].instance_count > 0,
        debug_mode ==> forall|i: int|
            0 <= i < draw_passes(debug_mode, d, s, c, b).len() ==> #[trigger] draw_passes(
                debug_mode,
                d,
                s,
                c,
                b,
            )[i].kind == PassKind::DebugDiscs,
{
}

/// Outside debug mode each of the three buffers is drawn, with its own
/// instance count, exactly when it has instances, whatever the other counts
/// are, and nothing else is drawn; in debug mode only the debug points are
/// drawn, when there are any.
pub proof fn lemma_each_buffer_drawn_when_nonempty(debug_mode: bool, d: u32, s: u32, c: u32, b: u32)
    ensures
        !debug_mode ==> (draw_passes(debug_mode, d, s, c, b).contains(
            DrawPass { kind: PassKind::Strokes, instance_count: s },
        ) <==> s > 0),
        !debug_mode ==> (draw_passes(debug_mode, d, s, c, b).contains(
            DrawPass { kind: PassKind::Discs, instance_count: c },
        ) <==> c > 0),
        !debug_mode ==> (draw_passes(debug_mode, d, s, c, b).contains(
            DrawPass { kind: PassKind::Beziers, instance_count: b },
        ) <==> b > 0),
        !debug_mode ==> draw_passes(debug_mode, d, s, c, b).len() == (if s > 0 { 1int } else { 0int }) + (
        if c > 0 { 1int } else { 0int }) + (if b > 0 { 1int } else { 0int }),
        debug_mode ==> (draw_passes(debug_mode, d, s, c, b).contains(
            DrawPass { kind: PassKind::DebugDiscs, instance_count: d },
        ) <==> d > 0),
        debug_mode ==> draw_passes(debug_mode, d, s, c, b).len() == (if d > 0 { 1int } else { 0int }),
{
    let ps = draw_passes(debug_mode, d, s, c, b);
    let sp = DrawPass { kind: PassKind::Strokes, instance_count: s };
    let cp = DrawPass { kind: PassKind::Discs, instance_count: c };
    let bp = DrawPass { kind: PassKind::Beziers, instance_count: b };
    let dp = DrawPass { kind: PassKind::DebugDiscs, instance_count: d };
    if !debug_mode {
        let a1 = pass_if_any(PassKind::Strokes, s);
        let a2 = pass_if_any(PassKind::Discs, c);
        let a3 = pass_if_any(PassKind::Beziers, b);
        assert(ps == a1 + a2 + a3);
        assert(ps.contains(sp) <==> s > 0) by {
            if s > 0 {
                assert(ps[0] == sp);
            }
            if ps.contains(sp) {
                let i = choose|i: int| 0 <= i < ps.len() && ps[i] == sp;
                assert(ps[i].kind == PassKind::Strokes);
            }
        }
        assert(ps.contains(cp) <==> c > 0) by {
            if c > 0 {
                assert(ps[a1.len() as int] == cp);
            }
            if ps.contains(cp) {
                let i = choose|i: int| 0 <= i < ps.len() && ps[i] == cp;
                assert(ps[i].kind == PassKind::Discs);
            }
        }
        assert(ps.contains(bp) <==> b > 0) by {
            if b > 0 {
                assert(ps[(a1.len() + a2.len()) as int] == bp);
            }
            if ps.contains(bp) {
                let i = choose|i: int| 0 <= i < ps.len() && ps[i] == bp;
                assert(ps[i].kind == PassKind::Beziers);
            }
        }
    } else {
        if d > 0 {
            assert(ps[0] == dp);
        }
    }
}

} // verus!

use stroke_canvas::frame::{
    plan_compute, plan_draw_passes, surface_action, workgroups_for, DrawPass, PassKind, SurfaceAction,
    SurfaceStatus,
};
use stroke_canvas::layout::{segment_instance_layout, AttributeFormat, StepMode};
use stroke_canvas::segments::{
    bezier_instance_count, committed_disc_sites, plan_bezier_segments, polyline_disc_sites, segment_junctions,
    DiscSite, SegmentRef,
};

#[test]
fn workgroups_round_up() {
    assert_eq!(workgroups_for(0), 0);
    assert_eq!(workgroups_for(1), 1);
    assert_eq!(workgroups_for(64), 1);
    assert_eq!(workgroups_for(65), 2);
    assert_eq!(workgroups_for(128), 2);
    assert_eq!(workgroups_for(u32::MAX), 67_108_864);
}

#[test]
fn compute_plan_without_points() {
    for raw in [0u32, 1] {
        let p = plan_compute(raw, 0, 0);
        assert_eq!(p.interp_count, 0);
        assert_eq!(p.interp_workgroups, None);
        assert_eq!(p.segment_workgroups, None);
        assert_eq!(p.stroke_instance_count, 0);
        assert_eq!(p.bezier_workgroups, None);
    }
}

#[test]
fn compute_plan_with_points() {
    let p = plan_compute(2, 0, 0);
    assert_eq!(p.interp_count, 9);
    assert_eq!(p.interp_workgroups, Some(1));
    assert_eq!(p.segment_workgroups, Some(1));
    assert_eq!(p.stroke_instance_count, 8);
    let p = plan_compute(100, 3, 24);
    assert_eq!(p.interp_count, 793);
    assert_eq!(p.interp_workgroups, Some(2));
    assert_eq!(p.segment_workgroups, Some(13));
    assert_eq!(p.stroke_instance_count, 792);
    assert_eq!(p.bezier_workgroups, Some(1));
    let p = plan_compute(0, 20, 160);
    assert_eq!(p.bezier_workgroups, Some(3));
}

#[test]
fn surface_statuses() {
    assert_eq!(surface_action(SurfaceStatus::Success), SurfaceAction::Draw { reconfigure: false });
    assert_eq!(surface_action(SurfaceStatus::Suboptimal), SurfaceAction::Draw { reconfigure: true });
    assert_eq!(surface_action(SurfaceStatus::Timeout), SurfaceAction::Skip { reconfigure: false });
    assert_eq!(surface_action(SurfaceStatus::Occluded), SurfaceAction::Skip { reconfigure: false });
    assert_eq!(surface_action(SurfaceStatus::Validation), SurfaceAction::Skip { reconfigure: false });
    assert_eq!(surface_action(SurfaceStatus::Outdated), SurfaceAction::Skip { reconfigure: true });
    assert_eq!(surface_action(SurfaceStatus::Lost), SurfaceAction::Fail);
}

#[test]
fn draw_passes_skip_empty_buffers() {
    assert_eq!(
        plan_draw_passes(false, 5, 8, 0, 16),
        vec![
            DrawPass { kind: PassKind::Strokes, instance_count: 8 },
            DrawPass { kind: PassKind::Beziers, instance_count: 16 },
        ]
    );
    assert_eq!(plan_draw_passes(true, 5, 8, 3, 16), vec![DrawPass { kind: PassKind::DebugDiscs, instance_count: 5 }]);
    assert!(plan_draw_passes(true, 0, 8, 3, 16).is_empty());
    assert!(plan_draw_passes(false, 5, 0, 0, 0).is_empty());
    assert_eq!(plan_draw_passes(false, 0, 1, 2, 3).len(), 3);
}

#[test]
fn bezier_segments_of_several_strokes() {
    let plan = plan_bezier_segments(&vec![4, 2, 8, 12, 0]);
    assert_eq!(plan.info_strokes, vec![0, 2, 3]);
    let segs = plan.segments;
    let seg = |stroke_index, stroke_id, start| SegmentRef { stroke_index, stroke_id, start };
    assert_eq!(
        segs,
        vec![seg(0, 0, 0), seg(2, 1, 0), seg(2, 1, 4), seg(3, 2, 0), seg(3, 2, 4), seg(3, 2, 8)]
    );
    assert_eq!(bezier_instance_count(segs.len()), 48);
}

#[test]
fn short_strokes_have_no_segments() {
    let plan = plan_bezier_segments(&vec![0, 1, 2, 3]);
    assert!(plan.segments.is_empty());
    assert!(plan.info_strokes.is_empty());
    let plan = plan_bezier_segments(&vec![]);
    assert!(plan.segments.is_empty());
    assert!(plan.info_strokes.is_empty());
}

#[test]
fn segment_counts_per_length() {
    for (len, expected) in [(4usize, 1usize), (5, 1), (7, 1), (8, 2), (12, 3), (13, 3)] {
        let segs = plan_bezier_segments(&vec![len]).segments;
        assert_eq!(segs.len(), expected, "len {}", len);
        assert_eq!(segs.len(), len / 4);
    }
}

#[test]
fn junctions_lie_between_segments() {
    for len in [0usize, 3, 4, 7] {
        assert!(segment_junctions(len).is_empty());
    }
    assert_eq!(segment_junctions(8), vec![3]);
    assert_eq!(segment_junctions(10), vec![3]);
    assert_eq!(segment_junctions(12), vec![3, 7]);
    assert_eq!(segment_junctions(16), vec![3, 7, 11]);
    let segs = plan_bezier_segments(&vec![16]).segments;
    let ends: Vec<usize> = segs.iter().take(segs.len() - 1).map(|s| s.start + 3).collect();
    let next_starts: Vec<usize> = segs.iter().skip(1).map(|s| s.start - 1).collect();
    assert_eq!(segment_junctions(16), ends);
    assert_eq!(segment_junctions(16), next_starts);
}

#[test]
fn segment_instance_layout_values() {
    let l = segment_instance_layout();
    assert_eq!(l.array_stride, 48);
    assert_eq!(l.step_mode, StepMode::Instance);
    let a: Vec<(u64, u32, AttributeFormat)> =
        l.attributes.iter().map(|a| (a.offset, a.shader_location, a.format)).collect();
    assert_eq!(
        a,
        vec![
            (0, 0, AttributeFormat::Float32x2),
            (8, 1, AttributeFormat::Float32x2),
            (16, 2, AttributeFormat::Float32x4),
            (32, 3, AttributeFormat::Float32),
        ]
    );
}

#[test]
fn disc_sites_of_finished_strokes() {
    assert!(committed_disc_sites(0).is_empty());
    assert!(committed_disc_sites(3).is_empty());
    assert_eq!(committed_disc_sites(4), vec![DiscSite::Cap(0), DiscSite::Cap(3)]);
    assert_eq!(
        committed_disc_sites(12),
        vec![
            DiscSite::Cap(0),
            DiscSite::Cap(11),
            DiscSite::Join { end: 3, start: 4 },
            DiscSite::Join { end: 7, start: 8 }
        ]
    );
}

#[test]
fn disc_sites_of_polylines() {
    assert!(polyline_disc_sites(0).is_empty());
    assert!(polyline_disc_sites(1).is_empty());
    assert_eq!(polyline_disc_sites(2), vec![DiscSite::Cap(0), DiscSite::Cap(1)]);
    assert_eq!(
        polyline_disc_sites(5),
        vec![
            DiscSite::Cap(0),
            DiscSite::Cap(4),
            DiscSite::Join { end: 1, start: 1 },
            DiscSite::Join { end: 2, start: 2 },
            DiscSite::Join { end: 3, start: 3 }
        ]
    );
}

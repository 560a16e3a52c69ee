use vstd::prelude::*;

use crate::frame::SUBDIVISIONS;

verus! {

/// One cubic Bézier segment of a finished stroke: the control points
/// `start..=start + 3` of stroke `stroke_index`, drawn with the colour and
/// width of stroke info `stroke_id`.
#[derive(Clone, Copy, Debug, PartialEq, Eq, Structural)]
pub struct SegmentRef {
    pub stroke_index: usize,
    pub stroke_id: u32,
    pub start: usize,
}

/// The control points of a finished stroke come as the curve fitter gives
/// them: four per segment, `[P0, P1, P2, P3, P0, P1, P2, P3, ...]`, the end
/// point of one segment repeated as the start point of the next.
pub open spec fn has_curve(len: nat) -> bool {
    len >= 4
}

/// Segments of a stroke with `len` control points: one for each whole block
/// of four.
pub open spec fn segment_count_of(len: nat) -> nat {
    len / 4
}

/// The segments of stroke `index` with info `id` and `len` control points:
/// segment `k` is the block starting at `4k`.
pub open spec fn stroke_segments(index: nat, id: nat, len: nat) -> Seq<SegmentRef> {
    Seq::new(
        segment_count_of(len),
        |k: int| SegmentRef { stroke_index: index as usize, stroke_id: id as u32, start: (4 * k) as usize },
    )
}

/// The strokes that get a stroke info, in order: those with a curve.
pub open spec fn info_strokes_of(lens: Seq<usize>) -> Seq<usize>
    decreases lens.len(),
{
    if lens.len() == 0 {
        Seq::empty()
    } else {
        info_strokes_of(lens.drop_last()) + (if has_curve(lens.last() as nat) {
            seq![(lens.len() - 1) as usize]
        } else {
            Seq::empty()
        })
    }
}

/// Stroke infos uploaded for strokes with these control point counts.
pub open spec fn info_count(lens: Seq<usize>) -> nat {
    info_strokes_of(lens).len()
}

/// All segments, stroke by stroke; the strokes with a curve are numbered
/// from 0 in order.
pub open spec fn planned_segments(lens: Seq<usize>) -> Seq<SegmentRef>
    decreases lens.len(),
{
    if lens.len() == 0 {
        Seq::empty()
    } else {
        planned_segments(lens.drop_last()) + stroke_segments(
            (lens.len() - 1) as nat,
            info_count(lens.drop_last()),
            lens.last() as nat,
        )
    }
}

proof fn lemma_info_count_bound(lens: Seq<usize>)
    ensures
        info_count(lens) <= lens.len(),
    decreases lens.len(),
{
    if lens.len() > 0 {
        lemma_info_count_bound(lens.drop_last());
    }
}

/// The segments and stroke infos of the finished strokes.
pub struct BezierPlan {
    /// The segments, stroke by stroke.
    pub segments: Vec<SegmentRef>,
    /// For each stroke info, in order, the stroke it describes.
    pub info_strokes: Vec<usize>,
}

/// The Bézier segments of finished strokes with these numbers of control
/// points, and the strokes whose infos are uploaded.
pub fn plan_bezier_segments(committed_lens: &Vec<usize>) -> (plan: BezierPlan)
    requires
        committed_lens.len() <= u32::MAX,
    ensures
        plan.segments@ == planned_segments(committed_lens@),
        plan.info_strokes@ == info_strokes_of(committed_lens@),
{
    let mut segments: Vec<SegmentRef> = Vec::new();
    let mut info_strokes: Vec<usize> = Vec::new();
    let mut info_id: u32 = 0;
    let mut s: usize = 0;
    while s < committed_lens.len()
        invariant
            s <= committed_lens.len() <= u32::MAX,
            segments@ == planned_segments(committed_lens@.take(s as int)),
            info_id == info_count(committed_lens@.take(s as int)),
            info_strokes@ == info_strokes_of(committed_lens@.take(s as int)),
        decreases committed_lens.len() - s,
    {
        let ghost prefix = committed_lens@.take(s as int);
        let ghost next = committed_lens@.take(s + 1);
        assert(next.drop_last() =~= prefix);
        proof {
            lemma_info_count_bound(prefix);
        }
        let len = committed_lens[s];
        let count = len / 4;
        let ghost base = segments@;
        let mut k: usize = 0;
        while k < count
            invariant
                count == len / 4,
                k <= count,
                segments@ == base + stroke_segments(s as nat, info_id as nat, len as nat).take(k as int),
            decreases count - k,
        {
            assert(4 * k + 3 < len) by (nonlinear_arith)
                requires
                    k < count,
                    count == len / 4,
            ;
            segments.push(SegmentRef { stroke_index: s, stroke_id: info_id, start: 4 * k });
            assert(stroke_segments(s as nat, info_id as nat, len as nat).take(k + 1)
                =~= stroke_segments(s as nat, info_id as nat, len as nat).take(k as int).push(
                SegmentRef { stroke_index: s, stroke_id: info_id, start: (4 * k) as usize },
            ));
            k = k + 1;
        }
        assert(stroke_segments(s as nat, info_id as nat, len as nat).take(k as int) =~= stroke_segments(
            s as nat,
            info_id as nat,
            len as nat,
        ));
        if len >= 4 {
            info_id = info_id + 1;
            info_strokes.push(s);
        }
        s = s + 1;
    }
    assert(committed_lens@.take(s as int) =~= committed_lens@);
    BezierPlan { segments, info_strokes }
}

/// Instances of the Bézier renderer for `segment_count` segments: each
/// segment is drawn as `SUBDIVISIONS` pieces.
pub fn bezier_instance_count(segment_count: usize) -> (n: u32)
    requires
        segment_count * SUBDIVISIONS <= u32::MAX,
    ensures
        n == segment_count * SUBDIVISIONS,
{
    (segment_count as u32) * SUBDIVISIONS
}

/// Where two segments of a stroke with `len` control points meet: the end
/// point `4k + 3` of every block but the last, which the next block repeats
/// at `4k + 4`.
pub open spec fn junctions_of(len: nat) -> Seq<usize> {
    Seq::new(
        (if has_curve(len) { segment_count_of(len) - 1 } else { 0 }) as nat,
        |k: int| (4 * k + 3) as usize,
    )
}

/// The junctions of a finished stroke with `len` control points, in order.
pub fn segment_junctions(len: usize) -> (js: Vec<usize>)
    ensures
        js@ == junctions_of(len as nat),
{
    let mut js: Vec<usize> = Vec::new();
    let count: usize = if len >= 4 {
        len / 4 - 1
    } else {
        0
    };
    let mut k: usize = 0;
    while k < count
        invariant
            count == (if has_curve(len as nat) { segment_count_of(len as nat) - 1 } else { 0 }),
            k <= count,
            js@ == Seq::new(k as nat, |m: int| (4 * m + 3) as usize),
        decreases count - k,
    {
        assert(4 * k + 3 < len) by (nonlinear_arith)
            requires
                k < count,
                count == len / 4 - 1,
        ;
        js.push(4 * k + 3);
        k = k + 1;
        assert(js@ =~= Seq::new(k as nat, |m: int| (4 * m + 3) as usize));
    }
    js
}

/// Where a round disc may be drawn over a stroke.
#[derive(Clone, Copy, Debug, PartialEq, Eq, Structural)]
pub enum DiscSite {
    /// An end of the stroke: always drawn.
    Cap(usize),
    /// A point where two pieces meet, drawn at point `end` when the turn
    /// there is sharp enough: the incoming direction runs from point
    /// `end - 1` to `end`, the outgoing one from point `start` to
    /// `start + 1`. Along a polyline `end` and `start` are one point; at a
    /// junction of Bézier segments `start` is the copy of `end` that begins
    /// the next segment.
    Join { end: usize, start: usize },
}

/// The disc sites of a finished stroke with `len` control points: both
/// ends, then every junction of two segments; none without a curve.
pub open spec fn committed_sites_of(len: nat) -> Seq<DiscSite> {
    if has_curve(len) {
        seq![DiscSite::Cap(0), DiscSite::Cap((len - 1) as usize)] + junctions_of(len).map_values(
            |j: usize| DiscSite::Join { end: j, start: (j + 1) as usize },
        )
    } else {
        Seq::empty()
    }
}

/// The disc sites of a polyline of `len` points: both ends, then every
/// interior point; none with fewer than two points.
pub open spec fn polyline_sites_of(len: nat) -> Seq<DiscSite> {
    if len >= 2 {
        seq![DiscSite::Cap(0), DiscSite::Cap((len - 1) as usize)] + Seq::new(
            (len - 2) as nat,
            |i: int| DiscSite::Join { end: (i + 1) as usize, start: (i + 1) as usize },
        )
    } else {
        Seq::empty()
    }
}

/// The disc sites of a finished stroke with `len` control points.
pub fn committed_disc_sites(len: usize) -> (sites: Vec<DiscSite>)
    ensures
        sites@ == committed_sites_of(len as nat),
{
    let mut sites: Vec<DiscSite> = Vec::new();
    if len >= 4 {
        sites.push(DiscSite::Cap(0));
        sites.push(DiscSite::Cap(len - 1));
        let js = segment_junctions(len);
        let mut n: usize = 0;
        while n < js.len()
            invariant
                len >= 4,
                js@ == junctions_of(len as nat),
                n <= js.len(),
                sites@ == seq![DiscSite::Cap(0), DiscSite::Cap((len - 1) as usize)] + js@.take(
                    n as int,
                ).map_values(|j: usize| DiscSite::Join { end: j, start: (j + 1) as usize }),
            decreases js.len() - n,
        {
            let j = js[n];
            assert(4 * n + 3 < len) by (nonlinear_arith)
                requires
                    n < len / 4 - 1,
            ;
            sites.push(DiscSite::Join { end: j, start: j + 1 });
            assert(js@.take(n + 1).map_values(|j: usize| DiscSite::Join { end: j, start: (j + 1) as usize })
                =~= js@.take(n as int).map_values(
                |j: usize| DiscSite::Join { end: j, start: (j + 1) as usize },
            ).push(DiscSite::Join { end: j, start: (j + 1) as usize }));
            n = n + 1;
        }
        assert(js@.take(n as int) =~= js@);
    }
    sites
}

/// The disc sites of a polyline of `len` points.
pub fn polyline_disc_sites(len: usize) -> (sites: Vec<DiscSite>)
    ensures
        sites@ == polyline_sites_of(len as nat),
{
    let mut sites: Vec<DiscSite> = Vec::new();
    if len >= 2 {
        sites.push(DiscSite::Cap(0));
        sites.push(DiscSite::Cap(len - 1));
        let mut i: usize = 1;
        while i < len - 1
            invariant
                len >= 2,
                1 <= i <= len - 1,
                sites@ == seq![DiscSite::Cap(0), DiscSite::Cap((len - 1) as usize)] + Seq::new(
                    (i - 1) as nat,
                    |k: int| DiscSite::Join { end: (k + 1) as usize, start: (k + 1) as usize },
                ),
            decreases len - i,
        {
            sites.push(DiscSite::Join { end: i, start: i });
            i = i + 1;
            assert(sites@ =~= seq![DiscSite::Cap(0), DiscSite::Cap((len - 1) as usize)] + Seq::new(
                (i - 1) as nat,
                |k: int| DiscSite::Join { end: (k + 1) as usize, start: (k + 1) as usize },
            ));
        }
        assert(sites@ =~= polyline_sites_of(len as nat));
    }
    sites
}

/// Whether disc site `s` can be drawn on a stroke of `len` points: a cap is
/// a point of the stroke; a join has a point before its end and a point
/// after its start.
pub open spec fn site_in_range(s: DiscSite, len: nat) -> bool {
    match s {
        DiscSite::Cap(i) => i < len,
        DiscSite::Join { end, start } => 1 <= end && end <= start && start + 1 < len,
    }
}

/// Every disc site indexes points of its stroke, so the turn test never
/// reads past the stroke.
pub proof fn lemma_disc_sites_in_range(len: nat)
    requires
        len <= usize::MAX,
    ensures
        forall|i: int|
            0 <= i < committed_sites_of(len).len() ==> site_in_range(
                #[trigger] committed_sites_of(len)[i],
                len,
            ),
        forall|i: int|
            0 <= i < polyline_sites_of(len).len() ==> site_in_range(
                #[trigger] polyline_sites_of(len)[i],
                len,
            ),
{
    if has_curve(len) {
        assert forall|i: int| 0 <= i < committed_sites_of(len).len() implies site_in_range(
            #[trigger] committed_sites_of(len)[i],
            len,
        ) by {
            if i >= 2 {
                let k = i - 2;
                assert(4 * k + 5 < len) by (nonlinear_arith)
                    requires
                        0 <= k < len / 4 - 1,
                ;
            }
        }
    }
}

/// Every planned segment reads one whole block of four control points of
/// an existing stroke, and uses the stroke info that describes its own
/// stroke.
pub proof fn lemma_segments_in_range(lens: Seq<usize>)
    requires
        lens.len() <= u32::MAX,
    ensures
        forall|i: int|
            0 <= i < planned_segments(lens).len() ==> {
                let seg = #[trigger] planned_segments(lens)[i];
                &&& seg.stroke_index < lens.len()
                &&& seg.start % 4 == 0
                &&& seg.start + 3 < lens[seg.stroke_index as int]
                &&& seg.stroke_id < info_count(lens)
                &&& info_strokes_of(lens)[seg.stroke_id as int] == seg.stroke_index
            },
    decreases lens.len(),
{
    if lens.len() > 0 {
        let prev = lens.drop_last();
        lemma_segments_in_range(prev);
        lemma_info_count_bound(prev);
        let last = lens.last() as nat;
        let tail = stroke_segments((lens.len() - 1) as nat, info_count(prev), last);
        assert forall|i: int| 0 <= i < planned_segments(lens).len() implies {
            let seg = #[trigger] planned_segments(lens)[i];
            &&& seg.stroke_index < lens.len()
            &&& seg.start % 4 == 0
            &&& seg.start + 3 < lens[seg.stroke_index as int]
            &&& seg.stroke_id < info_count(lens)
            &&& info_strokes_of(lens)[seg.stroke_id as int] == seg.stroke_index
        } by {
            let n = planned_segments(prev).len() as int;
            if i < n {
                assert(planned_segments(lens)[i] == planned_segments(prev)[i]);
                assert(lens[planned_segments(prev)[i].stroke_index as int]
                    == prev[planned_segments(prev)[i].stroke_index as int]);
            } else {
                let k = i - n;
                assert(planned_segments(lens)[i] == tail[k]);
                assert(4 * k + 3 < last && last >= 4) by (nonlinear_arith)
                    requires
                        0 <= k < last / 4,
                ;
            }
        }
    }
}

/// The junctions of a stroke are exactly where one segment ends and the
/// next begins: junction `k` is the last control point of segment `k`, and
/// the point after it is the first of segment `k + 1`.
pub proof fn lemma_junctions_join_segments(index: nat, id: nat, len: nat)
    requires
        len >= 4,
        len <= usize::MAX,
    ensures
        junctions_of(len).len() + 1 == segment_count_of(len),
        forall|k: int|
            0 <= k < junctions_of(len).len() ==> {
                &&& #[trigger] junctions_of(len)[k] == stroke_segments(index, id, len)[k].start + 3
                &&& junctions_of(len)[k] + 1 == stroke_segments(index, id, len)[k + 1].start
            },
{
    assert forall|k: int| 0 <= k < junctions_of(len).len() implies {
        &&& #[trigger] junctions_of(len)[k] == stroke_segments(index, id, len)[k].start + 3
        &&& junctions_of(len)[k] + 1 == stroke_segments(index, id, len)[k + 1].start
    } by {
        assert(4 * k + 7 < len + 4 && 4 * (k + 1) <= usize::MAX) by (nonlinear_arith)
            requires
                0 <= k < len / 4 - 1,
                len <= usize::MAX,
        ;
    }
}

/// Adding a finished stroke of `len` control points plans exactly
/// `len / 4` more segments, all of that stroke, the `k`-th starting at
/// control point `4k`: every whole block of four is drawn, up to the last,
/// and the earlier strokes' segments stay as they were.
pub proof fn lemma_new_stroke_plans_every_block(lens: Seq<usize>, len: usize)
    ensures
        planned_segments(lens.push(len)).len() == planned_segments(lens).len() + len / 4,
        planned_segments(lens.push(len)).subrange(0, planned_segments(lens).len() as int)
            == planned_segments(lens),
        forall|k: int|
            0 <= k < len / 4 ==> {
                let seg = #[trigger] planned_segments(lens.push(len))[planned_segments(lens).len() + k];
                &&& seg.stroke_index == lens.len() as usize
                &&& seg.start == (4 * k) as usize
            },
{
    assert(lens.push(len).drop_last() =~= lens);
    let whole = planned_segments(lens.push(len));
    assert(whole.subrange(0, planned_segments(lens).len() as int) =~= planned_segments(lens));
}

/// A stroke of `len >= 4` control points has a junction between every two
/// consecutive blocks: `len / 4 - 1` of them, the `k`-th at the block end
/// `4k + 3`.
pub proof fn lemma_junction_between_every_two_blocks(len: nat)
    requires
        len >= 4,
        len <= usize::MAX,
    ensures
        junctions_of(len).len() == len / 4 - 1,
        forall|k: int| 0 <= k < len / 4 - 1 ==> #[trigger] junctions_of(len)[k] == 4 * k + 3,
{
    assert forall|k: int| 0 <= k < len / 4 - 1 implies #[trigger] junctions_of(len)[k] == 4 * k + 3 by {
        assert(4 * k + 3 < len) by (nonlinear_arith)
            requires
                0 <= k < len / 4 - 1,
        ;
    }
}

} // verus!

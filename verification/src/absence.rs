//! ABSENCE claims: no GPS point lies in the exclusion zone during the
//! period.
//!
//! Each point in the time window is classified against the bounding box of
//! the exclusion zone: inside is a violation, outside supports the claim.
//! A valid ABSENCE claim has no violations.
use vstd::prelude::*;
use crate::circuit::{in_bbox, in_window};
use crate::types::{ProofRequest, SignedGPSPoint};

verus! {

/// The window-and-zone classification of a GPS history.
#[derive(Debug, Clone)]
pub struct AbsenceClassification {
    /// Number of points in the time window.
    pub total_in_window: u32,
    /// Indices of the points in the window that lie outside the zone.
    pub outside_indices: Vec<usize>,
    /// Number of points in the window that lie inside the zone.
    pub violation_count: u32,
}

/// Whether a point lies in the request's time window.
pub open spec fn point_in_window(p: SignedGPSPoint, req: ProofRequest) -> bool {
    in_window(p.timestamp, req.time_start, req.time_end)
}

/// Whether a point lies in the time window and inside the exclusion zone.
pub open spec fn is_violation(p: SignedGPSPoint, req: ProofRequest) -> bool {
    point_in_window(p, req) && in_bbox(p.lat_scaled, p.lng_scaled, req.bbox)
}

/// Number of the first `n` points that lie in the window.
pub open spec fn window_count(points: Seq<SignedGPSPoint>, req: ProofRequest, n: nat) -> nat
    decreases n,
{
    if n == 0 {
        0
    } else {
        window_count(points, req, (n - 1) as nat) + if point_in_window(points[n - 1], req) {
            1nat
        } else {
            0nat
        }
    }
}

/// Number of the first `n` points that are violations.
pub open spec fn violation_count_spec(points: Seq<SignedGPSPoint>, req: ProofRequest, n: nat) -> nat
    decreases n,
{
    if n == 0 {
        0
    } else {
        violation_count_spec(points, req, (n - 1) as nat) + if is_violation(points[n - 1], req) {
            1nat
        } else {
            0nat
        }
    }
}

/// Indices, in order, of the first `n` points in the window and outside
/// the zone.
pub open spec fn outside_prefix(points: Seq<SignedGPSPoint>, req: ProofRequest, n: nat) -> Seq<usize>
    decreases n,
{
    if n == 0 {
        Seq::empty()
    } else {
        let prev = outside_prefix(points, req, (n - 1) as nat);
        if point_in_window(points[n - 1], req) && !in_bbox(
            points[n - 1].lat_scaled,
            points[n - 1].lng_scaled,
            req.bbox,
        ) {
            prev.push((n - 1) as usize)
        } else {
            prev
        }
    }
}

/// Every point in the window is either outside the zone or a violation.
pub proof fn lemma_absence_partition(points: Seq<SignedGPSPoint>, req: ProofRequest, n: nat)
    requires
        n <= points.len(),
    ensures
        window_count(points, req, n) == outside_prefix(points, req, n).len() + violation_count_spec(
            points,
            req,
            n,
        ),
        window_count(points, req, n) <= n,
    decreases n,
{
    if n > 0 {
        lemma_absence_partition(points, req, (n - 1) as nat);
    }
}

proof fn lemma_absence_prefix(
    points: Seq<SignedGPSPoint>,
    req: ProofRequest,
    n: nat,
    in_period: spec_fn(SignedGPSPoint) -> bool,
    in_zone: spec_fn(SignedGPSPoint) -> bool,
)
    requires
        n <= points.len(),
        points.len() <= usize::MAX,
        forall|p: SignedGPSPoint| #[trigger] in_period(p) == (req.time_start <= p.timestamp && p.timestamp <= req.time_end),
        forall|p: SignedGPSPoint|
            #[trigger] in_zone(p) == (req.time_start <= p.timestamp && p.timestamp <= req.time_end
                && req.bbox.lat_min <= p.lat_scaled && p.lat_scaled <= req.bbox.lat_max && req.bbox.lng_min
                <= p.lng_scaled && p.lng_scaled <= req.bbox.lng_max),
    ensures
        window_count(points, req, n) == points.take(n as int).filter(in_period).len(),
        violation_count_spec(points, req, n) == points.take(n as int).filter(in_zone).len(),
        forall|k: int|
            0 <= k < outside_prefix(points, req, n).len() ==> {
                let i = #[trigger] outside_prefix(points, req, n)[k];
                &&& i < n
                &&& in_period(points[i as int])
                &&& !in_zone(points[i as int])
            },
        forall|i: int|
            0 <= i < n && in_period(#[trigger] points[i]) && !in_zone(points[i]) ==> outside_prefix(
                points,
                req,
                n,
            ).contains(i as usize),
    decreases n,
{
    reveal(Seq::filter);
    if n > 0 {
        lemma_absence_prefix(points, req, (n - 1) as nat, in_period, in_zone);
        assert(points.take(n as int).drop_last() =~= points.take(n - 1));
        assert(points.take(n as int).last() == points[n - 1]);
        let prev = outside_prefix(points, req, (n - 1) as nat);
        let cur = outside_prefix(points, req, n);
        assert forall|i: int| 0 <= i < n && in_period(#[trigger] points[i]) && !in_zone(points[i]) implies cur.contains(
            i as usize,
        ) by {
            if i < n - 1 {
                let k = choose|k: int| 0 <= k < prev.len() && prev[k] == i as usize;
                assert(cur[k] == i as usize);
            } else {
                assert(cur[cur.len() - 1] == i as usize);
            }
        }
    }
}

/// An ABSENCE classification is about the claim's period alone: the
/// points counted in the window are exactly those taken between
/// `time_start` and `time_end` inclusive, the violations exactly those of
/// them whose scaled coordinates lie in the exclusion zone's box (bounds
/// inclusive), and the points listed outside are exactly the others of the
/// period.
pub proof fn lemma_absence_classification_is_the_period(points: Seq<SignedGPSPoint>, req: ProofRequest)
    requires
        points.len() <= usize::MAX,
    ensures
        window_count(points, req, points.len()) == points.filter(
            |p: SignedGPSPoint| req.time_start <= p.timestamp && p.timestamp <= req.time_end,
        ).len(),
        violation_count_spec(points, req, points.len()) == points.filter(
            |p: SignedGPSPoint|
                req.time_start <= p.timestamp && p.timestamp <= req.time_end && req.bbox.lat_min
                    <= p.lat_scaled && p.lat_scaled <= req.bbox.lat_max && req.bbox.lng_min <= p.lng_scaled
                    && p.lng_scaled <= req.bbox.lng_max,
        ).len(),
        forall|k: int|
            0 <= k < outside_prefix(points, req, points.len()).len() ==> {
                let i = #[trigger] outside_prefix(points, req, points.len())[k];
                let p = points[i as int];
                &&& i < points.len()
                &&& req.time_start <= p.timestamp <= req.time_end
                &&& !(req.bbox.lat_min <= p.lat_scaled <= req.bbox.lat_max && req.bbox.lng_min <= p.lng_scaled
                    <= req.bbox.lng_max)
            },
        forall|i: int|
            0 <= i < points.len() && req.time_start <= #[trigger] points[i].timestamp <= req.time_end && !(
            req.bbox.lat_min <= points[i].lat_scaled <= req.bbox.lat_max && req.bbox.lng_min
                <= points[i].lng_scaled <= req.bbox.lng_max) ==> outside_prefix(points, req, points.len()).contains(
                i as usize,
            ),
{
    let in_period = |p: SignedGPSPoint| req.time_start <= p.timestamp && p.timestamp <= req.time_end;
    let in_zone = |p: SignedGPSPoint|
        req.time_start <= p.timestamp && p.timestamp <= req.time_end && req.bbox.lat_min <= p.lat_scaled
            && p.lat_scaled <= req.bbox.lat_max && req.bbox.lng_min <= p.lng_scaled && p.lng_scaled
            <= req.bbox.lng_max;
    lemma_absence_prefix(points, req, points.len(), in_period, in_zone);
    assert(points.take(points.len() as int) =~= points);
}

/// The window count only grows along the history.
pub proof fn lemma_window_count_monotone(points: Seq<SignedGPSPoint>, req: ProofRequest, n: nat, m: nat)
    requires
        n <= m,
    ensures
        window_count(points, req, n) <= window_count(points, req, m),
    decreases m,
{
    if n < m {
        lemma_window_count_monotone(points, req, n, (m - 1) as nat);
    }
}

/// Classify the points of the request's time window against the exclusion
/// zone's bounding box. The counts are `u32`, so at most `u32::MAX` points
/// may lie in the window.
pub fn classify_absence(points: &[SignedGPSPoint], request: &ProofRequest) -> (a: AbsenceClassification)
    requires
        window_count(points@, *request, points@.len()) <= u32::MAX,
    ensures
        a.total_in_window == window_count(points@, *request, points@.len()),
        a.outside_indices@ == outside_prefix(points@, *request, points@.len()),
        a.violation_count == violation_count_spec(points@, *request, points@.len()),
        a.total_in_window == a.outside_indices@.len() + a.violation_count,
        a.total_in_window == points@.filter(
            |p: SignedGPSPoint| request.time_start <= p.timestamp && p.timestamp <= request.time_end,
        ).len(),
        a.violation_count == points@.filter(
            |p: SignedGPSPoint|
                request.time_start <= p.timestamp && p.timestamp <= request.time_end
                    && request.bbox.lat_min <= p.lat_scaled && p.lat_scaled <= request.bbox.lat_max
                    && request.bbox.lng_min <= p.lng_scaled && p.lng_scaled <= request.bbox.lng_max,
        ).len(),
        forall|k: int|
            0 <= k < a.outside_indices@.len() ==> #[trigger] a.outside_indices@[k] < points@.len()
                && request.time_start <= points@[a.outside_indices@[k] as int].timestamp
                <= request.time_end,
{
    let len: usize = points.len();
    proof {
        lemma_absence_classification_is_the_period(points@, *request);
    }
    let mut outside_indices: Vec<usize> = Vec::new();
    let mut violation_count: u32 = 0;
    let mut total_in_window: u32 = 0;
    let mut i: usize = 0;
    while i < points.len()
        invariant
            i <= points@.len(),
            window_count(points@, *request, points@.len()) <= u32::MAX,
            total_in_window == window_count(points@, *request, i as nat),
            outside_indices@ == outside_prefix(points@, *request, i as nat),
            violation_count == violation_count_spec(points@, *request, i as nat),
        decreases points@.len() - i,
    {
        proof {
            lemma_absence_partition(points@, *request, i as nat);
            lemma_absence_partition(points@, *request, (i + 1) as nat);
            lemma_window_count_monotone(points@, *request, (i + 1) as nat, points@.len());
        }
        let p = &points[i];
        if p.timestamp >= request.time_start && p.timestamp <= request.time_end {
            total_in_window = total_in_window + 1;
            let inside = p.lat_scaled >= request.bbox.lat_min && p.lat_scaled <= request.bbox.lat_max
                && p.lng_scaled >= request.bbox.lng_min && p.lng_scaled <= request.bbox.lng_max;
            if inside {
                violation_count = violation_count + 1;
            } else {
                outside_indices.push(i);
            }
        }
        i = i + 1;
    }
    proof {
        lemma_absence_partition(points@, *request, points@.len());
    }
    AbsenceClassification { total_in_window, outside_indices, violation_count }
}

} // verus!

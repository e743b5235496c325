//! Point selection and range statements for location claims.
//!
//! A circular geofence is approximated by its latitude/longitude bounding
//! box (computed by the caller from the center and radius). A point
//! qualifies when its timestamp lies in the request's window, it lies in
//! the night hours if the request asks for them, and its scaled
//! coordinates lie in the box. Each qualifying point yields two range
//! statements, one per coordinate.
use vstd::prelude::*;
use crate::types::{BoundingBox, ProofRequest, SignedGPSPoint};

verus! {

/// Rust's `%` on integers: the remainder takes the sign of the dividend.
pub open spec fn trunc_rem(a: int, b: int) -> int {
    if a >= 0 {
        a % b
    } else {
        -((-a) % b)
    }
}

/// Rust's `/` on integers: the quotient is rounded toward zero.
pub open spec fn trunc_div(a: int, b: int) -> int {
    if a >= 0 {
        a / b
    } else {
        -((-a) / b)
    }
}

/// The hour of the UTC day of a timestamp, computed as
/// `((ts % 86_400) / 3_600) as u32` (negative timestamps wrap to large
/// values).
pub open spec fn hour_of_day(ts: i64) -> u32 {
    trunc_div(trunc_rem(ts as int, 86400), 3600) as u32
}

/// Whether an hour lies in the daytime band `[7, 22)` that night-only
/// claims exclude.
pub open spec fn is_daytime_hour(h: u32) -> bool {
    7 <= h && h < 22
}

/// Whether scaled coordinates lie in a box (bounds inclusive).
pub open spec fn in_bbox(lat: i64, lng: i64, b: BoundingBox) -> bool {
    b.lat_min <= lat && lat <= b.lat_max && b.lng_min <= lng && lng <= b.lng_max
}

/// Whether a timestamp lies in the inclusive window `[start, end]`.
pub open spec fn in_window(ts: i64, start: i64, end: i64) -> bool {
    start <= ts && ts <= end
}

/// Whether a point counts for a request.
pub open spec fn point_qualifies(p: SignedGPSPoint, req: ProofRequest) -> bool {
    &&& in_window(p.timestamp, req.time_start, req.time_end)
    &&& req.night_only ==> !is_daytime_hour(hour_of_day(p.timestamp))
    &&& in_bbox(p.lat_scaled, p.lng_scaled, req.bbox)
}

/// Indices, in increasing order, of the first `n` points that qualify.
pub open spec fn qualifying_prefix(points: Seq<SignedGPSPoint>, req: ProofRequest, n: nat) -> Seq<usize>
    decreases n,
{
    if n == 0 {
        Seq::empty()
    } else {
        let prev = qualifying_prefix(points, req, (n - 1) as nat);
        if point_qualifies(points[n - 1], req) {
            prev.push((n - 1) as usize)
        } else {
            prev
        }
    }
}

/// Indices, in increasing order, of all points that qualify for a request.
pub open spec fn qualifying_indices(points: Seq<SignedGPSPoint>, req: ProofRequest) -> Seq<usize> {
    qualifying_prefix(points, req, points.len())
}

/// The qualifying indices of a prefix are increasing, in range, and list
/// exactly the qualifying points of that prefix.
pub proof fn lemma_qualifying_prefix(points: Seq<SignedGPSPoint>, req: ProofRequest, n: nat)
    requires
        n <= points.len(),
        points.len() <= usize::MAX,
    ensures
        qualifying_prefix(points, req, n).len() <= n,
        forall|k: int|
            0 <= k < qualifying_prefix(points, req, n).len() ==> {
                let i = #[trigger] qualifying_prefix(points, req, n)[k];
                &&& i < n
                &&& point_qualifies(points[i as int], req)
            },
        forall|k: int, l: int|
            0 <= k < l < qualifying_prefix(points, req, n).len() ==> qualifying_prefix(
                points,
                req,
                n,
            )[k] < qualifying_prefix(points, req, n)[l],
        forall|i: int|
            0 <= i < n && point_qualifies(points[i], req) ==> qualifying_prefix(
                points,
                req,
                n,
            ).contains(i as usize),
    decreases n,
{
    if n > 0 {
        lemma_qualifying_prefix(points, req, (n - 1) as nat);
        let prev = qualifying_prefix(points, req, (n - 1) as nat);
        let cur = qualifying_prefix(points, req, n);
        assert forall|i: int| 0 <= i < n && point_qualifies(points[i], req) implies cur.contains(
            i as usize,
        ) by {
            if i < n - 1 {
                let k = choose|k: int| 0 <= k < prev.len() && prev[k] == i as usize;
                assert(cur[k] == i as usize);
            } else {
                assert(cur[cur.len() - 1] == i as usize);
            }
        }
    }
}

/// The points that qualify for a request are exactly, in increasing
/// order, those taken within the request's period (between `time_start`
/// and `time_end` inclusive), at night (hour of the UTC day below 7 or from
/// 22 on) when the request asks for nights, and whose scaled coordinates
/// lie within the bounding box (bounds inclusive).
pub proof fn lemma_qualifying_points_are_the_claim(points: Seq<SignedGPSPoint>, req: ProofRequest)
    requires
        points.len() <= usize::MAX,
    ensures
        forall|k: int|
            0 <= k < qualifying_indices(points, req).len() ==> {
                let i = #[trigger] qualifying_indices(points, req)[k];
                let p = points[i as int];
                &&& i < points.len()
                &&& req.time_start <= p.timestamp <= req.time_end
                &&& req.night_only ==> hour_of_day(p.timestamp) < 7 || hour_of_day(p.timestamp) >= 22
                &&& req.bbox.lat_min <= p.lat_scaled <= req.bbox.lat_max
                &&& req.bbox.lng_min <= p.lng_scaled <= req.bbox.lng_max
            },
        forall|k: int, l: int|
            0 <= k < l < qualifying_indices(points, req).len() ==> qualifying_indices(points, req)[k]
                < qualifying_indices(points, req)[l],
        forall|i: int|
            0 <= i < points.len() && req.time_start <= #[trigger] points[i].timestamp <= req.time_end && (
            req.night_only ==> hour_of_day(points[i].timestamp) < 7 || hour_of_day(points[i].timestamp)
                >= 22) && req.bbox.lat_min <= points[i].lat_scaled <= req.bbox.lat_max && req.bbox.lng_min
                <= points[i].lng_scaled <= req.bbox.lng_max ==> qualifying_indices(points, req).contains(
                i as usize,
            ),
{
    lemma_qualifying_prefix(points, req, points.len());
}

/// Qualifying indices only accumulate: a longer prefix lists at least as
/// many.
pub proof fn lemma_qualifying_prefix_monotone(points: Seq<SignedGPSPoint>, req: ProofRequest, n: nat, m: nat)
    requires
        n <= m,
    ensures
        qualifying_prefix(points, req, n).len() <= qualifying_prefix(points, req, m).len(),
    decreases m,
{
    if n < m {
        lemma_qualifying_prefix_monotone(points, req, n, (m - 1) as nat);
    }
}

/// Check whether scaled coordinates fall within a bounding box
/// (cleartext, for pre-filtering).
pub fn point_in_bbox(
    lat_scaled: i64,
    lng_scaled: i64,
    lat_min: i64,
    lat_max: i64,
    lng_min: i64,
    lng_max: i64,
) -> (r: bool)
    ensures
        r == in_bbox(
            lat_scaled,
            lng_scaled,
            BoundingBox { lat_min, lat_max, lng_min, lng_max },
        ),
{
    lat_scaled >= lat_min && lat_scaled <= lat_max && lng_scaled >= lng_min && lng_scaled <= lng_max
}

/// The hour of the UTC day of a timestamp.
pub fn hour_of_day_exec(ts: i64) -> (h: u32)
    ensures
        h == hour_of_day(ts),
{
    #[verifier::truncate]
    (((ts % 86_400) / 3_600) as u32)
}

/// Whether a single point counts for a request.
pub fn qualifies(p: &SignedGPSPoint, request: &ProofRequest) -> (r: bool)
    ensures
        r == point_qualifies(*p, *request),
{
    if p.timestamp < request.time_start || p.timestamp > request.time_end {
        return false;
    }
    if request.night_only {
        let hour = hour_of_day_exec(p.timestamp);
        if hour < 22 && hour >= 7 {
            return false;
        }
    }
    point_in_bbox(
        p.lat_scaled,
        p.lng_scaled,
        request.bbox.lat_min,
        request.bbox.lat_max,
        request.bbox.lng_min,
        request.bbox.lng_max,
    )
}

/// Pre-filter GPS points: the number and the indices of the points within
/// the geofence bounding box, the time window and (if asked) the night.
/// The count is a `u32`, so at most `u32::MAX` points may qualify.
pub fn count_qualifying_points(points: &[SignedGPSPoint], request: &ProofRequest) -> (r: (
    u32,
    Vec<usize>,
))
    requires
        qualifying_indices(points@, *request).len() <= u32::MAX,
    ensures
        r.1@ == qualifying_indices(points@, *request),
        r.0 == r.1@.len(),
        forall|k: int|
            0 <= k < r.1@.len() ==> #[trigger] r.1@[k] < points@.len() && request.time_start
                <= points@[r.1@[k] as int].timestamp <= request.time_end,
{
    let len: usize = points.len();
    proof {
        lemma_qualifying_points_are_the_claim(points@, *request);
    }
    let mut count: u32 = 0;
    let mut indices: Vec<usize> = Vec::new();
    let mut i: usize = 0;
    while i < points.len()
        invariant
            i <= points@.len(),
            qualifying_indices(points@, *request).len() <= u32::MAX,
            indices@ == qualifying_prefix(points@, *request, i as nat),
            count == indices@.len(),
        decreases points@.len() - i,
    {
        proof {
            lemma_qualifying_prefix(points@, *request, i as nat);
            lemma_qualifying_prefix_monotone(points@, *request, (i + 1) as nat, points@.len());
        }
        if qualifies(&points[i], request) {
            count = count + 1;
            indices.push(i);
        }
        i = i + 1;
    }
    (count, indices)
}

/// A range statement: "value V is in [lower, upper]".
#[derive(Debug, Clone)]
pub struct RangeStatement {
    /// The secret value being proven.
    pub value: i64,
    /// Lower bound (inclusive).
    pub lower: i64,
    /// Upper bound (inclusive).
    pub upper: i64,
}

/// Whether a statement holds.
pub open spec fn statement_holds(s: RangeStatement) -> bool {
    s.lower <= s.value && s.value <= s.upper
}

impl RangeStatement {
    /// Whether the value lies in `[lower, upper]`.
    pub fn is_valid(&self) -> (r: bool)
        ensures
            r == statement_holds(*self),
    {
        self.value >= self.lower && self.value <= self.upper
    }
}

/// The `k`-th statement for a list of point indices: for the `j`-th index,
/// the latitude statement at `2j` and the longitude statement at `2j + 1`.
pub open spec fn statement_at(
    points: Seq<SignedGPSPoint>,
    indices: Seq<usize>,
    b: BoundingBox,
    k: int,
) -> RangeStatement {
    let p = points[indices[k / 2] as int];
    if k % 2 == 0 {
        RangeStatement { value: p.lat_scaled, lower: b.lat_min, upper: b.lat_max }
    } else {
        RangeStatement { value: p.lng_scaled, lower: b.lng_min, upper: b.lng_max }
    }
}

/// The statements for a list of point indices, two per index.
pub open spec fn range_statements(
    points: Seq<SignedGPSPoint>,
    indices: Seq<usize>,
    b: BoundingBox,
) -> Seq<RangeStatement> {
    Seq::new((2 * indices.len()) as nat, |k: int| statement_at(points, indices, b, k))
}

/// Build range statements for the given points: two per index,
/// `lat_scaled ∈ [lat_min, lat_max]` then `lng_scaled ∈ [lng_min, lng_max]`.
pub fn build_range_statements(
    points: &[SignedGPSPoint],
    qualifying_indices: &[usize],
    lat_min: i64,
    lat_max: i64,
    lng_min: i64,
    lng_max: i64,
) -> (st: Vec<RangeStatement>)
    requires
        forall|k: int|
            0 <= k < qualifying_indices@.len() ==> #[trigger] qualifying_indices@[k] < points@.len(),
        2 * qualifying_indices@.len() <= usize::MAX,
    ensures
        st@ == range_statements(
            points@,
            qualifying_indices@,
            BoundingBox { lat_min, lat_max, lng_min, lng_max },
        ),
{
    let ghost b = BoundingBox { lat_min, lat_max, lng_min, lng_max };
    let mut statements: Vec<RangeStatement> = Vec::with_capacity(qualifying_indices.len() * 2);
    let mut j: usize = 0;
    while j < qualifying_indices.len()
        invariant
            j <= qualifying_indices@.len(),
            2 * qualifying_indices@.len() <= usize::MAX,
            b == (BoundingBox { lat_min, lat_max, lng_min, lng_max }),
            forall|k: int|
                0 <= k < qualifying_indices@.len() ==> #[trigger] qualifying_indices@[k]
                    < points@.len(),
            statements@ =~= range_statements(points@, qualifying_indices@.take(j as int), b),
        decreases qualifying_indices@.len() - j,
    {
        let idx = qualifying_indices[j];
        let p = &points[idx];
        let ghost prev = statements@;
        statements.push(RangeStatement { value: p.lat_scaled, lower: lat_min, upper: lat_max });
        statements.push(RangeStatement { value: p.lng_scaled, lower: lng_min, upper: lng_max });
        proof {
            let old_idx = qualifying_indices@.take(j as int);
            let new_idx = qualifying_indices@.take(j + 1);
            let target = range_statements(points@, new_idx, b);
            assert forall|k: int| 0 <= k < target.len() implies statements@[k] == target[k] by {
                if k < 2 * j {
                    assert(new_idx[k / 2] == old_idx[k / 2]);
                    assert(prev[k] == range_statements(points@, old_idx, b)[k]);
                } else {
                    assert(k / 2 == j);
                    assert(new_idx[k / 2] == idx);
                }
            }
            assert(statements@ =~= target);
        }
        j = j + 1;
    }
    assert(qualifying_indices@.take(qualifying_indices@.len() as int) =~= qualifying_indices@);
    statements
}

/// Every range statement built from the points that qualify for a request,
/// over the request's own bounding box, holds: the box test that selects a
/// point is the statement the proof makes about it.
pub proof fn lemma_qualifying_statements_hold(points: Seq<SignedGPSPoint>, req: ProofRequest)
    requires
        points.len() <= usize::MAX,
    ensures
        forall|k: int|
            0 <= k < range_statements(points, qualifying_indices(points, req), req.bbox).len()
                ==> statement_holds(
                #[trigger] range_statements(points, qualifying_indices(points, req), req.bbox)[k],
            ),
{
    lemma_qualifying_prefix(points, req, points.len());
}

} // verus!

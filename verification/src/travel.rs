//! TRAVEL claims: visits to several distinct geographic regions.
//!
//! The caller clusters the points of the time window into regions (a
//! leader clustering by great-circle distance around running centroids).
//! This module selects the window, counts the distinct UTC days of each
//! region, ranks the regions by that count (most days first, ties in
//! discovery order) and collects the indices the range proof anchors on.
use vstd::prelude::*;
use crate::circuit::{in_window, trunc_div};
use crate::types::SignedGPSPoint;

verus! {

/// The UTC day number of a timestamp (`ts / 86_400`, rounded toward zero).
pub open spec fn day_of(ts: i64) -> i64 {
    trunc_div(ts as int, 86400) as i64
}

/// The set of UTC days a list of timestamps falls on.
pub open spec fn day_set(ts: Seq<i64>) -> Set<i64> {
    ts.map_values(|t: i64| day_of(t)).to_set()
}

/// Number of distinct days among timestamps (`days.len() as u32` after
/// sorting and deduplicating the day numbers).
pub fn count_distinct_days(timestamps: &[i64]) -> (n: u32)
    ensures
        n == day_set(timestamps@).len() as u32,
{
    let mut distinct: Vec<i64> = Vec::new();
    let mut i: usize = 0;
    while i < timestamps.len()
        invariant
            i <= timestamps@.len(),
            distinct@.no_duplicates(),
            forall|d: i64| #[trigger]
                distinct@.contains(d) <==> timestamps@.take(i as int).map_values(
                    |t: i64| day_of(t),
                ).contains(d),
        decreases timestamps@.len() - i,
    {
        let d = timestamps[i] / 86_400;
        let ghost prev_days = timestamps@.take(i as int).map_values(|t: i64| day_of(t));
        let ghost next_days = timestamps@.take(i + 1).map_values(|t: i64| day_of(t));
        proof {
            assert(d == day_of(timestamps@[i as int]));
            assert(next_days =~= prev_days.push(d));
        }
        let mut found = false;
        let mut k: usize = 0;
        while k < distinct.len()
            invariant
                k <= distinct@.len(),
                found == (exists|q: int| 0 <= q < k && distinct@[q] == d),
            decreases distinct@.len() - k,
        {
            if distinct[k] == d {
                found = true;
            }
            k = k + 1;
        }
        let ghost old_distinct = distinct@;
        if !found {
            distinct.push(d);
        }
        proof {
            assert forall|e: i64| #[trigger] distinct@.contains(e) <==> next_days.contains(e) by {
                if next_days.contains(e) {
                    let q = choose|q: int| 0 <= q < next_days.len() && next_days[q] == e;
                    if q < prev_days.len() {
                        assert(prev_days[q] == e);
                        assert(prev_days.contains(e));
                        assert(old_distinct.contains(e));
                        let w = choose|w: int| 0 <= w < old_distinct.len() && old_distinct[w] == e;
                        assert(distinct@[w] == e);
                    } else {
                        assert(e == d);
                        if found {
                            let w = choose|w: int| 0 <= w < old_distinct.len() && old_distinct[w] == d;
                            assert(distinct@[w] == e);
                        } else {
                            assert(distinct@[distinct@.len() - 1] == e);
                        }
                    }
                }
                if distinct@.contains(e) {
                    let w = choose|w: int| 0 <= w < distinct@.len() && distinct@[w] == e;
                    if w < old_distinct.len() {
                        assert(old_distinct.contains(e));
                        assert(prev_days.contains(e));
                        let q = choose|q: int| 0 <= q < prev_days.len() && prev_days[q] == e;
                        assert(next_days[q] == e);
                    } else {
                        assert(e == d);
                        assert(next_days[next_days.len() - 1] == e);
                    }
                }
            }
        }
        i = i + 1;
    }
    proof {
        assert(timestamps@.take(timestamps@.len() as int) =~= timestamps@);
        distinct@.unique_seq_to_set();
        assert(distinct@.to_set() =~= day_set(timestamps@));
    }
    #[verifier::truncate]
    (distinct.len() as u32)
}

/// Indices, in increasing order, of the points whose timestamps lie in the
/// window `[start, end]`.
pub open spec fn window_prefix(points: Seq<SignedGPSPoint>, start: i64, end: i64, n: nat) -> Seq<usize>
    decreases n,
{
    if n == 0 {
        Seq::empty()
    } else {
        let prev = window_prefix(points, start, end, (n - 1) as nat);
        if in_window(points[n - 1].timestamp, start, end) {
            prev.push((n - 1) as usize)
        } else {
            prev
        }
    }
}

/// The window selection of the first `n` points lists, in increasing
/// order, exactly those of them whose timestamps lie between `start` and
/// `end` inclusive.
pub proof fn lemma_window_prefix_is_the_period(points: Seq<SignedGPSPoint>, start: i64, end: i64, n: nat)
    requires
        n <= points.len(),
        points.len() <= usize::MAX,
    ensures
        forall|k: int|
            0 <= k < window_prefix(points, start, end, n).len() ==> {
                let i = #[trigger] window_prefix(points, start, end, n)[k];
                &&& i < n
                &&& start <= points[i as int].timestamp <= end
            },
        forall|k: int, l: int|
            0 <= k < l < window_prefix(points, start, end, n).len() ==> window_prefix(points, start, end, n)[k]
                < window_prefix(points, start, end, n)[l],
        forall|i: int|
            0 <= i < n && start <= #[trigger] points[i].timestamp <= end ==> window_prefix(
                points,
                start,
                end,
                n,
            ).contains(i as usize),
    decreases n,
{
    if n > 0 {
        lemma_window_prefix_is_the_period(points, start, end, (n - 1) as nat);
        let prev = window_prefix(points, start, end, (n - 1) as nat);
        let cur = window_prefix(points, start, end, n);
        assert forall|i: int| 0 <= i < n && start <= #[trigger] points[i].timestamp <= end implies cur.contains(
            i as usize,
        ) by {
            if i < n - 1 {
                let k = choose|k: int| 0 <= k < prev.len() && prev[k] == i as usize;
                assert(cur[k] == i as usize);
            } else {
                assert(cur[cur.len() - 1] == i as usize);
            }
        }
    }
}

/// The points of a time window are exactly those whose timestamps lie
/// between its start and its end inclusive: every listed index is such a
/// point, every such point is listed, and the list is in increasing order.
pub proof fn lemma_points_in_window_is_the_period(points: Seq<SignedGPSPoint>, start: i64, end: i64)
    requires
        points.len() <= usize::MAX,
    ensures
        forall|k: int|
            0 <= k < window_prefix(points, start, end, points.len()).len() ==> {
                let i = #[trigger] window_prefix(points, start, end, points.len())[k];
                &&& i < points.len()
                &&& start <= points[i as int].timestamp <= end
            },
        forall|k: int, l: int|
            0 <= k < l < window_prefix(points, start, end, points.len()).len() ==> window_prefix(
                points,
                start,
                end,
                points.len(),
            )[k] < window_prefix(points, start, end, points.len())[l],
        forall|i: int|
            0 <= i < points.len() && start <= #[trigger] points[i].timestamp <= end ==> window_prefix(
                points,
                start,
                end,
                points.len(),
            ).contains(i as usize),
{
    lemma_window_prefix_is_the_period(points, start, end, points.len());
}

/// The indices of the points in a time window, in order.
pub fn points_in_window(points: &[SignedGPSPoint], time_start: i64, time_end: i64) -> (idx: Vec<usize>)
    ensures
        idx@ == window_prefix(points@, time_start, time_end, points@.len()),
        forall|k: int|
            0 <= k < idx@.len() ==> #[trigger] idx@[k] < points@.len() && time_start
                <= points@[idx@[k] as int].timestamp <= time_end,
        forall|i: int|
            0 <= i < points@.len() && time_start <= #[trigger] points@[i].timestamp <= time_end
                ==> idx@.contains(i as usize),
{
    let len: usize = points.len();
    proof {
        lemma_points_in_window_is_the_period(points@, time_start, time_end);
    }
    let mut idx: Vec<usize> = Vec::new();
    let mut i: usize = 0;
    while i < points.len()
        invariant
            i <= points@.len(),
            idx@ == window_prefix(points@, time_start, time_end, i as nat),
        decreases points@.len() - i,
    {
        if points[i].timestamp >= time_start && points[i].timestamp <= time_end {
            idx.push(i);
        }
        i = i + 1;
    }
    idx
}

/// A cluster found by the caller: its centroid, and the indices and
/// timestamps of its points (in the order they joined).
#[derive(Debug, Clone)]
pub struct ClusterDraft {
    /// IEEE-754 bits of the centroid latitude.
    pub centroid_lat_bits: u64,
    /// IEEE-754 bits of the centroid longitude.
    pub centroid_lng_bits: u64,
    /// Indices into the input points.
    pub point_indices: Vec<usize>,
    /// Timestamps of the cluster's points.
    pub timestamps: Vec<i64>,
}

/// A discovered geographic region.
#[derive(Debug, Clone)]
pub struct Region {
    /// IEEE-754 bits of the centroid latitude.
    pub centroid_lat_bits: u64,
    /// IEEE-754 bits of the centroid longitude.
    pub centroid_lng_bits: u64,
    /// Number of distinct days with GPS points in this region.
    pub distinct_days: u32,
    /// Total GPS points in this region.
    pub point_count: u32,
    /// Indices into the input points.
    pub point_indices: Vec<usize>,
}

/// Whether a region summarizes a cluster.
pub open spec fn region_of(r: Region, c: ClusterDraft) -> bool {
    &&& r.centroid_lat_bits == c.centroid_lat_bits
    &&& r.centroid_lng_bits == c.centroid_lng_bits
    &&& r.distinct_days == day_set(c.timestamps@).len() as u32
    &&& r.point_count == c.point_indices@.len() as u32
    &&& r.point_indices@ == c.point_indices@
}

/// Whether `regions` is the ranking of `clusters`: `perm` sends each
/// position of the ranking to the cluster it summarizes and `inv` sends
/// each cluster back to its position; days never increase along the
/// ranking, and regions with equal days keep the clusters' order.
pub open spec fn is_ranking(clusters: Seq<ClusterDraft>, regions: Seq<Region>, perm: Seq<int>, inv: Seq<int>) -> bool {
    &&& regions.len() == clusters.len()
    &&& perm.len() == regions.len()
    &&& inv.len() == clusters.len()
    &&& forall|a: int| 0 <= a < perm.len() ==> 0 <= #[trigger] perm[a] < clusters.len()
    &&& forall|c: int| 0 <= c < inv.len() ==> 0 <= #[trigger] inv[c] < regions.len() && perm[inv[c]] == c
    &&& forall|a: int| 0 <= a < regions.len() ==> region_of(#[trigger] regions[a], clusters[perm[a]])
    &&& forall|a: int, b: int|
        0 <= a < b < regions.len() ==> (#[trigger] regions[a]).distinct_days >= (#[trigger] regions[b]).distinct_days
    &&& forall|a: int, b: int|
        0 <= a < b < regions.len() && (#[trigger] regions[a]).distinct_days == (#[trigger] regions[b]).distinct_days
            ==> perm[a] < perm[b]
}

fn summarize_cluster(c: &ClusterDraft) -> (r: Region)
    ensures
        region_of(r, *c),
{
    let days = count_distinct_days(c.timestamps.as_slice());
    #[verifier::truncate]
    let count: u32 = c.point_indices.len() as u32;
    Region {
        centroid_lat_bits: c.centroid_lat_bits,
        centroid_lng_bits: c.centroid_lng_bits,
        distinct_days: days,
        point_count: count,
        point_indices: c.point_indices.clone(),
    }
}

/// Summarize each cluster as a region (distinct days, point count) and
/// rank the regions by distinct days, most first; regions with equal days
/// stay in the order their clusters were found.
pub fn rank_regions(clusters: &[ClusterDraft]) -> (regions: Vec<Region>)
    ensures
        exists|perm: Seq<int>, inv: Seq<int>| is_ranking(clusters@, regions@, perm, inv),
{
    let mut regions: Vec<Region> = Vec::new();
    let ghost mut perm: Seq<int> = Seq::empty();
    let ghost mut inv: Seq<int> = Seq::empty();
    let mut i: usize = 0;
    while i < clusters.len()
        invariant
            i <= clusters@.len(),
            is_ranking(clusters@.take(i as int), regions@, perm, inv),
            forall|a: int| 0 <= a < regions@.len() ==> region_of(#[trigger] regions@[a], clusters@[perm[a]]),
        decreases clusters@.len() - i,
    {
        let r = summarize_cluster(&clusters[i]);
        let mut pos: usize = 0;
        while pos < regions.len() && regions[pos].distinct_days >= r.distinct_days
            invariant
                pos <= regions@.len(),
                forall|a: int| 0 <= a < pos ==> (#[trigger] regions@[a]).distinct_days >= r.distinct_days,
            decreases regions@.len() - pos,
        {
            pos = pos + 1;
        }
        proof {
            // Past `pos`, every region has fewer days than `r`.
            if pos < regions@.len() {
                assert(regions@[pos as int].distinct_days < r.distinct_days);
                assert forall|a: int| pos <= a < regions@.len() implies (#[trigger] regions@[a]).distinct_days
                    < r.distinct_days by {
                    if a > pos {
                        assert(regions@[pos as int].distinct_days >= regions@[a].distinct_days);
                    }
                }
            }
        }
        let ghost old_regions = regions@;
        let ghost old_perm = perm;
        let ghost old_inv = inv;
        regions.insert(pos, r);
        proof {
            perm = old_perm.insert(pos as int, i as int);
            inv = old_inv.map_values(|x: int| if x >= pos { x + 1 } else { x }).push(pos as int);
            let cl = clusters@.take(i + 1);
            assert(cl.len() == i + 1);
            assert forall|a: int| 0 <= a < regions@.len() implies region_of(#[trigger] regions@[a], clusters@[perm[a]]) by {
                if a < pos {
                    assert(regions@[a] == old_regions[a]);
                } else if a > pos {
                    assert(regions@[a] == old_regions[a - 1]);
                }
            }
            assert forall|c: int| 0 <= c < inv.len() implies 0 <= #[trigger] inv[c] < regions@.len() && perm[inv[c]] == c by {
                if c < i {
                    let x = old_inv[c];
                    assert(old_perm[x] == c);
                    if x >= pos {
                        assert(perm[x + 1] == old_perm[x]);
                    } else {
                        assert(perm[x] == old_perm[x]);
                    }
                }
            }
            assert forall|a: int, b: int| 0 <= a < b < regions@.len() implies (#[trigger] regions@[a]).distinct_days
                >= (#[trigger] regions@[b]).distinct_days by {
                if a < pos && b < pos {
                    assert(regions@[a] == old_regions[a] && regions@[b] == old_regions[b]);
                } else if a < pos && b == pos {
                    assert(regions@[a] == old_regions[a]);
                } else if a < pos && b > pos {
                    assert(regions@[a] == old_regions[a] && regions@[b] == old_regions[b - 1]);
                } else if a == pos {
                    assert(regions@[b] == old_regions[b - 1]);
                } else {
                    assert(regions@[a] == old_regions[a - 1] && regions@[b] == old_regions[b - 1]);
                }
            }
            assert forall|a: int, b: int| 0 <= a < b < regions@.len() && (#[trigger] regions@[a]).distinct_days
                == (#[trigger] regions@[b]).distinct_days implies perm[a] < perm[b] by {
                if a < pos && b < pos {
                    assert(regions@[a] == old_regions[a] && regions@[b] == old_regions[b]);
                } else if a < pos && b == pos {
                    assert(old_perm[a] < i);
                } else if a < pos && b > pos {
                    assert(regions@[a] == old_regions[a] && regions@[b] == old_regions[b - 1]);
                } else if a == pos {
                    assert(regions@[b] == old_regions[b - 1]);
                } else {
                    assert(regions@[a] == old_regions[a - 1] && regions@[b] == old_regions[b - 1]);
                }
            }
            assert(is_ranking(cl, regions@, perm, inv));
        }
        i = i + 1;
    }
    proof {
        assert(clusters@.take(clusters@.len() as int) =~= clusters@);
    }
    regions
}

/// Result of travel analysis.
#[derive(Debug, Clone)]
pub struct TravelAnalysis {
    /// Regions ranked by distinct days, most first.
    pub regions: Vec<Region>,
    /// Total points that fell within the time window.
    pub total_in_window: u32,
    /// Indices of the points of all regions, region by region in rank
    /// order.
    pub qualifying_indices: Vec<usize>,
    /// IEEE-754 bits of the top region's centroid latitude (`0.0` if none).
    pub anchor_lat_bits: u64,
    /// IEEE-754 bits of the top region's centroid longitude (`0.0` if none).
    pub anchor_lng_bits: u64,
}

/// The point indices of a list of regions, concatenated in order.
pub open spec fn concat_indices(regions: Seq<Region>) -> Seq<usize>
    decreases regions.len(),
{
    if regions.len() == 0 {
        Seq::empty()
    } else {
        concat_indices(regions.drop_last()) + regions.last().point_indices@
    }
}

/// Assemble the travel analysis from ranked regions: the indices of all
/// regions in rank order, anchored at the top region's centroid (`0.0`
/// when there is none).
pub fn summarize_travel(regions: Vec<Region>, total_in_window: u32) -> (t: TravelAnalysis)
    ensures
        t.regions@ == regions@,
        t.total_in_window == total_in_window,
        t.qualifying_indices@ == concat_indices(regions@),
        regions@.len() == 0 ==> t.anchor_lat_bits == 0 && t.anchor_lng_bits == 0,
        regions@.len() > 0 ==> t.anchor_lat_bits == regions@[0].centroid_lat_bits
            && t.anchor_lng_bits == regions@[0].centroid_lng_bits,
{
    let mut all: Vec<usize> = Vec::new();
    let mut i: usize = 0;
    while i < regions.len()
        invariant
            i <= regions@.len(),
            all@ == concat_indices(regions@.take(i as int)),
        decreases regions@.len() - i,
    {
        let ghost before = all@;
        let src = &regions[i].point_indices;
        let mut k: usize = 0;
        while k < src.len()
            invariant
                k <= src@.len(),
                all@ == before + src@.take(k as int),
            decreases src@.len() - k,
        {
            all.push(src[k]);
            k = k + 1;
            assert(all@ =~= before + src@.take(k as int));
        }
        proof {
            assert(src@.take(src@.len() as int) =~= src@);
            assert(regions@.take(i + 1).drop_last() =~= regions@.take(i as int));
        }
        i = i + 1;
    }
    proof {
        assert(regions@.take(regions@.len() as int) =~= regions@);
    }
    let (lat, lng) = if regions.len() > 0 {
        (regions[0].centroid_lat_bits, regions[0].centroid_lng_bits)
    } else {
        (0u64, 0u64)
    };
    TravelAnalysis {
        regions,
        total_in_window,
        qualifying_indices: all,
        anchor_lat_bits: lat,
        anchor_lng_bits: lng,
    }
}

} // verus!

//! Clustering of fixed-point readings by k-means in one dimension.

use vstd::prelude::*;
use rand::seq::SliceRandom;
use crate::fixed::{magnitude, quotient, trunc_div};

verus! {

/// Why a clustering could not be started.
#[derive(Debug, Clone, Copy, PartialEq, Eq, Structural)]
pub enum CalibrationError {
    /// The readings hold fewer distinct values than clusters were asked for.
    TooFewDistinct,
}

/// The distance between two readings.
pub open spec fn distance(a: int, b: int) -> int {
    magnitude(a - b)
}

/// The index of the centroid nearest to `value`; of several at the same
/// distance the first. Without centroids the index is 0.
pub open spec fn nearest(centroids: Seq<i64>, value: int) -> int
    decreases centroids.len(),
{
    if centroids.len() <= 1 {
        0
    } else {
        let before = nearest(centroids.drop_last(), value);
        if distance(value, centroids.last() as int) < distance(value, centroids[before] as int) {
            centroids.len() - 1
        } else {
            before
        }
    }
}

/// How many of the first `n` readings belong to `cluster`.
pub open spec fn cluster_count(assignments: Seq<usize>, cluster: int, n: int) -> int
    decreases n,
{
    if n <= 0 {
        0
    } else {
        cluster_count(assignments, cluster, n - 1) + if assignments[n - 1] == cluster {
            1int
        } else {
            0int
        }
    }
}

/// The sum of those of the first `n` readings that belong to `cluster`.
pub open spec fn cluster_sum(values: Seq<i64>, assignments: Seq<usize>, cluster: int, n: int) -> int
    decreases n,
{
    if n <= 0 {
        0
    } else {
        cluster_sum(values, assignments, cluster, n - 1) + if assignments[n - 1] == cluster {
            values[n - 1] as int
        } else {
            0int
        }
    }
}

/// The mean of the readings that belong to `cluster`, rounded toward zero;
/// 0 for a cluster without readings.
pub open spec fn cluster_mean(values: Seq<i64>, assignments: Seq<usize>, cluster: int) -> int {
    let n = assignments.len() as int;
    let count = cluster_count(assignments, cluster, n);
    if count == 0 {
        0
    } else {
        trunc_div(cluster_sum(values, assignments, cluster, n), count)
    }
}

/// Every reading with the index of its nearest centroid.
pub open spec fn assign(values: Seq<i64>, centroids: Seq<i64>) -> Seq<usize> {
    Seq::new(values.len(), |i: int| nearest(centroids, values[i] as int) as usize)
}

/// The centroids moved to the means of their clusters. A centroid whose
/// cluster is empty stays where it is.
pub open spec fn refine(values: Seq<i64>, assignments: Seq<usize>, centroids: Seq<i64>) -> Seq<i64> {
    Seq::new(
        centroids.len(),
        |c: int|
            if cluster_count(assignments, c, assignments.len() as int) > 0 {
                cluster_mean(values, assignments, c) as i64
            } else {
                centroids[c]
            },
    )
}

/// The centroids after `rounds` rounds of assigning and refining, begun
/// from `seeds`.
pub open spec fn centroids_after(values: Seq<i64>, seeds: Seq<i64>, rounds: nat) -> Seq<i64>
    decreases rounds,
{
    if rounds == 0 {
        seeds
    } else {
        let before = centroids_after(values, seeds, (rounds - 1) as nat);
        refine(values, assign(values, before), before)
    }
}

/// The cluster of every reading after `rounds` rounds: the assignment made in
/// the last round, and cluster 0 throughout where no round was run.
pub open spec fn clustering(values: Seq<i64>, seeds: Seq<i64>, rounds: nat) -> Seq<usize> {
    if rounds == 0 {
        Seq::new(values.len(), |i: int| 0usize)
    } else {
        assign(values, centroids_after(values, seeds, (rounds - 1) as nat))
    }
}

/// Whether `picked` holds items of `values` taken from positions of which
/// none is used twice.
pub open spec fn drawn_from(picked: Seq<i64>, values: Seq<i64>) -> bool {
    exists|at: Seq<int>|
        {
            &&& at.len() == picked.len()
            &&& at.no_duplicates()
            &&& forall|j: int|
                0 <= j < at.len() ==> 0 <= #[trigger] at[j] < values.len() && picked[j]
                    == values[at[j]]
        }
}

/// Whether `seeds` are `k` values of `values`, no two of them equal.
pub open spec fn seeds_of(values: Seq<i64>, seeds: Seq<i64>, k: int) -> bool {
    &&& seeds.len() == k
    &&& seeds.no_duplicates()
    &&& forall|j: int| 0 <= j < seeds.len() ==> values.contains(#[trigger] seeds[j])
}

/// The nearest centroid is a centroid, none is nearer, and none before it is
/// as near.
pub proof fn nearest_is_nearest(centroids: Seq<i64>, value: int)
    requires
        centroids.len() > 0,
    ensures
        0 <= nearest(centroids, value) < centroids.len(),
        forall|i: int|
            0 <= i < centroids.len() ==> distance(value, centroids[nearest(centroids, value)] as int)
                <= distance(value, #[trigger] centroids[i] as int),
        forall|i: int|
            0 <= i < nearest(centroids, value) ==> distance(
                value,
                centroids[nearest(centroids, value)] as int,
            ) < distance(value, #[trigger] centroids[i] as int),
    decreases centroids.len(),
{
    if centroids.len() > 1 {
        let front = centroids.drop_last();
        nearest_is_nearest(front, value);
        assert forall|i: int| 0 <= i < front.len() implies front[i] == centroids[i] by {}
    }
}

/// The cluster that a clustering gives to a reading is less than the number
/// of seeds.
pub proof fn clustering_in_range(values: Seq<i64>, seeds: Seq<i64>, rounds: nat, i: int)
    requires
        seeds.len() > 0,
        0 <= i < values.len(),
    ensures
        clustering(values, seeds, rounds)[i] < seeds.len(),
{
    if rounds > 0 {
        let centroids = centroids_after(values, seeds, (rounds - 1) as nat);
        centroids_keep_count(values, seeds, (rounds - 1) as nat);
        nearest_is_nearest(centroids, values[i] as int);
    }
}

/// Refining keeps the number of centroids.
pub proof fn centroids_keep_count(values: Seq<i64>, seeds: Seq<i64>, rounds: nat)
    ensures
        centroids_after(values, seeds, rounds).len() == seeds.len(),
    decreases rounds,
{
    if rounds > 0 {
        centroids_keep_count(values, seeds, (rounds - 1) as nat);
    }
}

/// A cluster holds no more readings than were looked at, and its sum lies
/// between its count times the least and times the greatest reading there is.
pub proof fn cluster_sum_bounds(values: Seq<i64>, assignments: Seq<usize>, cluster: int, n: int)
    requires
        0 <= n <= assignments.len() <= values.len(),
    ensures
        0 <= cluster_count(assignments, cluster, n) <= n,
        cluster_count(assignments, cluster, n) * i64::MIN <= cluster_sum(
            values,
            assignments,
            cluster,
            n,
        ) <= cluster_count(assignments, cluster, n) * i64::MAX,
    decreases n,
{
    if n > 0 {
        cluster_sum_bounds(values, assignments, cluster, n - 1);
        let count = cluster_count(assignments, cluster, n - 1);
        assert((count + 1) * i64::MIN == count * i64::MIN + i64::MIN) by (nonlinear_arith);
        assert((count + 1) * i64::MAX == count * i64::MAX + i64::MAX) by (nonlinear_arith);
    }
}

/// The mean of a cluster is a reading's size: it fits where the readings fit.
pub proof fn cluster_mean_fits(values: Seq<i64>, assignments: Seq<usize>, cluster: int)
    requires
        assignments.len() <= values.len(),
    ensures
        i64::MIN <= cluster_mean(values, assignments, cluster) <= i64::MAX,
{
    let n = assignments.len() as int;
    cluster_sum_bounds(values, assignments, cluster, n);
    let count = cluster_count(assignments, cluster, n);
    let sum = cluster_sum(values, assignments, cluster, n);
    if count > 0 {
        if sum >= 0 {
            assert(0 <= sum / count <= i64::MAX) by (nonlinear_arith)
                requires
                    0 <= sum <= count * i64::MAX,
                    count > 0,
            ;
        } else {
            assert(0 <= (-sum) / count <= 0x8000_0000_0000_0000) by (nonlinear_arith)
                requires
                    0 <= -sum <= count * 0x8000_0000_0000_0000,
                    count > 0,
            ;
        }
    }
}

/// Two modes: every reading lies in the lower range from `floor` to `low`
/// or in the upper range from `high` to `ceiling`, and each of the two ranges
/// is narrower than the gap between them.
pub open spec fn two_modes(values: Seq<i64>, floor: int, low: int, high: int, ceiling: int) -> bool {
    &&& i64::MIN <= floor <= low < high <= ceiling <= i64::MAX
    &&& low - floor < high - low
    &&& ceiling - high < high - low
    &&& forall|i: int|
        0 <= i < values.len() ==> floor <= #[trigger] values[i] <= low || high <= values[i]
            <= ceiling
}

/// The cluster of the lower mode: 0 where the centroids stand in the order
/// of the modes, and 1 where they are swapped.
pub open spec fn lower(swapped: bool) -> int {
    if swapped {
        1
    } else {
        0
    }
}

/// The readings told apart by the gap: the cluster [`lower`] for the lower
/// mode and the other one for the upper mode.
pub open spec fn split(values: Seq<i64>, low: int, swapped: bool) -> Seq<usize> {
    Seq::new(
        values.len(),
        |i: int|
            if values[i] <= low {
                lower(swapped) as usize
            } else {
                lower(!swapped) as usize
            },
    )
}

/// Whether one of two centroids lies in the lower range and the other in the
/// upper one; `swapped` tells that the second is the lower one.
pub open spec fn one_in_each(
    centroids: Seq<i64>,
    floor: int,
    low: int,
    high: int,
    ceiling: int,
    swapped: bool,
) -> bool {
    &&& centroids.len() == 2
    &&& floor <= centroids[lower(swapped)] <= low
    &&& high <= centroids[lower(!swapped)] <= ceiling
}

/// With one centroid in each of two modes, every reading is nearest to the
/// centroid of its own mode.
pub proof fn assign_tells_modes_apart(
    values: Seq<i64>,
    centroids: Seq<i64>,
    floor: int,
    low: int,
    high: int,
    ceiling: int,
    swapped: bool,
)
    requires
        two_modes(values, floor, low, high, ceiling),
        one_in_each(centroids, floor, low, high, ceiling, swapped),
    ensures
        assign(values, centroids) == split(values, low, swapped),
{
    assert forall|i: int| 0 <= i < values.len() implies assign(values, centroids)[i] == split(
        values,
        low,
        swapped,
    )[i] by {
        let v = values[i] as int;
        let front = centroids.drop_last();
        assert(front.len() == 1);
        assert(nearest(front, v) == 0);
        assert(centroids.last() == centroids[1]);
        assert(values[i] == values[i]);
    }
    assert(assign(values, centroids) =~= split(values, low, swapped));
}

/// The sum of a cluster lies between its count times the least and times
/// the greatest of the readings that belong to it.
pub proof fn cluster_sum_within(
    values: Seq<i64>,
    assignments: Seq<usize>,
    cluster: int,
    n: int,
    least: int,
    greatest: int,
)
    requires
        0 <= n <= assignments.len() <= values.len(),
        forall|i: int|
            0 <= i < n && assignments[i] == cluster ==> least <= #[trigger] values[i] <= greatest,
    ensures
        0 <= cluster_count(assignments, cluster, n),
        cluster_count(assignments, cluster, n) * least <= cluster_sum(
            values,
            assignments,
            cluster,
            n,
        ) <= cluster_count(assignments, cluster, n) * greatest,
    decreases n,
{
    if n > 0 {
        cluster_sum_within(values, assignments, cluster, n - 1, least, greatest);
        let count = cluster_count(assignments, cluster, n - 1);
        assert((count + 1) * least == count * least + least) by (nonlinear_arith);
        assert((count + 1) * greatest == count * greatest + greatest) by (nonlinear_arith);
        if assignments[n - 1] == cluster {
            assert(least <= values[n - 1] <= greatest);
        }
    }
}

/// The mean of a cluster that is not empty lies between the least and the
/// greatest of its readings.
pub proof fn cluster_mean_within(
    values: Seq<i64>,
    assignments: Seq<usize>,
    cluster: int,
    least: int,
    greatest: int,
)
    requires
        assignments.len() <= values.len(),
        cluster_count(assignments, cluster, assignments.len() as int) > 0,
        forall|i: int|
            0 <= i < assignments.len() && assignments[i] == cluster ==> least
                <= #[trigger] values[i] <= greatest,
    ensures
        least <= cluster_mean(values, assignments, cluster) <= greatest,
{
    let n = assignments.len() as int;
    cluster_sum_within(values, assignments, cluster, n, least, greatest);
    let count = cluster_count(assignments, cluster, n);
    let sum = cluster_sum(values, assignments, cluster, n);
    if sum >= 0 {
        assert(least <= sum / count <= greatest) by (nonlinear_arith)
            requires
                count > 0,
                sum >= 0,
                count * least <= sum <= count * greatest,
        ;
    } else {
        assert(count * (-greatest) == -(count * greatest)) by (nonlinear_arith);
        assert(count * (-least) == -(count * least)) by (nonlinear_arith);
        assert(-greatest <= (-sum) / count <= -least) by (nonlinear_arith)
            requires
                count > 0,
                -sum >= 0,
                count * (-greatest) <= -sum <= count * (-least),
        ;
    }
}

/// Refining keeps one centroid in each of two modes, once the readings are
/// told apart by the gap.
pub proof fn refine_keeps_modes(
    values: Seq<i64>,
    centroids: Seq<i64>,
    floor: int,
    low: int,
    high: int,
    ceiling: int,
    swapped: bool,
)
    requires
        two_modes(values, floor, low, high, ceiling),
        one_in_each(centroids, floor, low, high, ceiling, swapped),
    ensures
        one_in_each(
            refine(values, split(values, low, swapped), centroids),
            floor,
            low,
            high,
            ceiling,
            swapped,
        ),
{
    let assignments = split(values, low, swapped);
    let n = assignments.len() as int;
    if cluster_count(assignments, lower(swapped), n) > 0 {
        cluster_mean_within(values, assignments, lower(swapped), floor, low);
    }
    if cluster_count(assignments, lower(!swapped), n) > 0 {
        cluster_mean_within(values, assignments, lower(!swapped), high, ceiling);
    }
}

/// K-means with two clusters tells two modes apart: where every reading lies
/// in one of two ranges that are narrower than the gap between them, and one
/// seed lies in each range, every round ends with the lower readings in the
/// cluster of the lower seed and the upper ones in the cluster of the upper
/// seed.
pub proof fn kmeans_tells_modes_apart(
    values: Seq<i64>,
    seeds: Seq<i64>,
    rounds: nat,
    floor: int,
    low: int,
    high: int,
    ceiling: int,
    swapped: bool,
)
    requires
        two_modes(values, floor, low, high, ceiling),
        one_in_each(seeds, floor, low, high, ceiling, swapped),
    ensures
        one_in_each(centroids_after(values, seeds, rounds), floor, low, high, ceiling, swapped),
        rounds >= 1 ==> clustering(values, seeds, rounds) == split(values, low, swapped),
    decreases rounds,
{
    if rounds >= 1 {
        let before = centroids_after(values, seeds, (rounds - 1) as nat);
        kmeans_tells_modes_apart(
            values,
            seeds,
            (rounds - 1) as nat,
            floor,
            low,
            high,
            ceiling,
            swapped,
        );
        assign_tells_modes_apart(values, before, floor, low, high, ceiling, swapped);
        refine_keeps_modes(values, before, floor, low, high, ceiling, swapped);
    }
}

/// Finds the centroid nearest to `value`.
pub fn nearest_centroid(centroids: &Vec<i64>, value: i64) -> (best: usize)
    ensures
        best == nearest(centroids@, value as int),
        centroids.len() > 0 ==> best < centroids.len(),
{
    if centroids.len() == 0 {
        return 0;
    }
    let mut best: usize = 0;
    let mut best_distance: i128 = gap(value, centroids[0]);
    let mut j: usize = 1;
    assert(centroids@.take(1).len() == 1);
    while j < centroids.len()
        invariant
            1 <= j <= centroids.len(),
            best < j,
            best == nearest(centroids@.take(j as int), value as int),
            best_distance == distance(value as int, centroids@[best as int] as int),
        decreases centroids.len() - j,
    {
        let here = gap(value, centroids[j]);
        proof {
            let now = centroids@.take(j + 1);
            assert(now.drop_last() =~= centroids@.take(j as int));
            assert(now.last() == centroids@[j as int]);
            assert(now[best as int] == centroids@[best as int]);
        }
        if here < best_distance {
            best = j;
            best_distance = here;
        }
        j += 1;
    }
    assert(centroids@.take(j as int) =~= centroids@);
    best
}

/// The distance between two readings.
fn gap(a: i64, b: i64) -> (d: i128)
    ensures
        d == distance(a as int, b as int),
{
    let diff: i128 = a as i128 - b as i128;
    if diff < 0 {
        -diff
    } else {
        diff
    }
}

/// A vector of `n` zeros.
fn zeros(n: usize) -> (v: Vec<usize>)
    ensures
        v@ == Seq::new(n as nat, |i: int| 0usize),
{
    let mut v: Vec<usize> = Vec::new();
    let mut i: usize = 0;
    while i < n
        invariant
            i <= n,
            v@ == Seq::new(i as nat, |i: int| 0usize),
        decreases n - i,
    {
        v.push(0);
        i += 1;
        assert(v@ =~= Seq::new(i as nat, |i: int| 0usize));
    }
    v
}

/// Adds up each cluster: the sums and the counts of the readings that the
/// assignments give to each of the `k` clusters.
fn cluster_totals(values: &[i64], assignments: &[usize], k: usize) -> (totals: (
    Vec<i128>,
    Vec<usize>,
))
    requires
        assignments.len() <= values.len(),
        forall|i: int| 0 <= i < assignments.len() ==> assignments[i] < k,
    ensures
        totals.0.len() == k,
        totals.1.len() == k,
        forall|c: int|
            0 <= c < k ==> totals.0[c] == cluster_sum(
                values@,
                assignments@,
                c,
                assignments.len() as int,
            ),
        forall|c: int|
            0 <= c < k ==> totals.1[c] == cluster_count(assignments@, c, assignments.len() as int),
{
    let mut sums: Vec<i128> = Vec::new();
    let mut counts: Vec<usize> = Vec::new();
    let mut c: usize = 0;
    while c < k
        invariant
            c <= k,
            sums.len() == c,
            counts.len() == c,
            forall|d: int| 0 <= d < c ==> sums[d] == 0,
            forall|d: int| 0 <= d < c ==> counts[d] == 0,
        decreases k - c,
    {
        sums.push(0);
        counts.push(0);
        c += 1;
    }
    let n = assignments.len();
    let mut i: usize = 0;
    while i < n
        invariant
            i <= n,
            n == assignments.len(),
            n <= values.len(),
            sums.len() == k,
            counts.len() == k,
            forall|j: int| 0 <= j < assignments.len() ==> assignments[j] < k,
            forall|d: int|
                0 <= d < k ==> sums[d] == cluster_sum(values@, assignments@, d, i as int),
            forall|d: int| 0 <= d < k ==> counts[d] == cluster_count(assignments@, d, i as int),
        decreases n - i,
    {
        let cluster = assignments[i];
        proof {
            cluster_sum_bounds(values@, assignments@, cluster as int, i as int);
            cluster_sum_bounds(values@, assignments@, cluster as int, i + 1);
            let count = cluster_count(assignments@, cluster as int, i as int);
            assert(count * i64::MIN >= i * i64::MIN) by (nonlinear_arith)
                requires
                    0 <= count <= i,
            ;
            assert(count * i64::MAX <= i * i64::MAX) by (nonlinear_arith)
                requires
                    0 <= count <= i,
            ;
            assert(i * i64::MAX <= usize::MAX * i64::MAX) by (nonlinear_arith)
                requires
                    0 <= i <= usize::MAX,
            ;
            assert(i * i64::MIN >= usize::MAX * i64::MIN) by (nonlinear_arith)
                requires
                    0 <= i <= usize::MAX,
            ;
            assert(usize::MAX * i64::MAX <= 0xffff_ffff_ffff_ffff * 0x7fff_ffff_ffff_ffff)
                by (nonlinear_arith)
                requires
                    usize::MAX <= 0xffff_ffff_ffff_ffff,
            ;
            assert(usize::MAX * i64::MIN >= 0xffff_ffff_ffff_ffff * (-0x8000_0000_0000_0000))
                by (nonlinear_arith)
                requires
                    usize::MAX <= 0xffff_ffff_ffff_ffff,
            ;
        }
        let sum = sums[cluster] + values[i] as i128;
        let count = counts[cluster] + 1;
        sums.set(cluster, sum);
        counts.set(cluster, count);
        i += 1;
    }
    (sums, counts)
}

/// Moves every centroid to the mean of its cluster.
fn refine_centroids(values: &[i64], assignments: &[usize], centroids: &mut Vec<i64>)
    requires
        assignments.len() <= values.len(),
        forall|i: int| 0 <= i < assignments.len() ==> assignments[i] < old(centroids).len(),
    ensures
        final(centroids)@ == refine(values@, assignments@, old(centroids)@),
{
    let k = centroids.len();
    let (sums, counts) = cluster_totals(values, assignments, k);
    let ghost before = centroids@;
    let mut c: usize = 0;
    while c < k
        invariant
            c <= k,
            centroids.len() == k,
            sums.len() == k,
            counts.len() == k,
            before.len() == k,
            assignments.len() <= values.len(),
            forall|d: int|
                0 <= d < k ==> sums[d] == cluster_sum(
                    values@,
                    assignments@,
                    d,
                    assignments.len() as int,
                ),
            forall|d: int|
                0 <= d < k ==> counts[d] == cluster_count(
                    assignments@,
                    d,
                    assignments.len() as int,
                ),
            forall|d: int| 0 <= d < c ==> centroids[d] == refine(values@, assignments@, before)[d],
            forall|d: int| c <= d < k ==> centroids[d] == before[d],
        decreases k - c,
    {
        if counts[c] > 0 {
            proof {
                cluster_mean_fits(values@, assignments@, c as int);
                cluster_sum_bounds(values@, assignments@, c as int, assignments.len() as int);
            }
            let mean = quotient(sums[c], counts[c] as i128);
            centroids.set(c, mean as i64);
        }
        c += 1;
    }
    assert(centroids@ =~= refine(values@, assignments@, before));
}

/// Gives every reading the index of its nearest centroid.
fn assign_all(values: &[i64], centroids: &Vec<i64>, assignments: &mut Vec<usize>)
    requires
        old(assignments).len() == values.len(),
    ensures
        final(assignments)@ == assign(values@, centroids@),
{
    let n = values.len();
    let mut i: usize = 0;
    while i < n
        invariant
            i <= n,
            n == values.len(),
            assignments.len() == n,
            forall|j: int| 0 <= j < i ==> assignments[j] == assign(values@, centroids@)[j],
        decreases n - i,
    {
        let best = nearest_centroid(centroids, values[i]);
        assignments.set(i, best);
        i += 1;
    }
    assert(assignments@ =~= assign(values@, centroids@));
}

/// Runs `max_iters` rounds of k-means from the given seeds and returns the
/// cluster of every reading. Every round is run: there is no early exit.
pub fn kmeans_seeded(values: &[i64], seeds: &Vec<i64>, max_iters: usize) -> (assignments: Vec<
    usize,
>)
    ensures
        assignments@ == clustering(values@, seeds@, max_iters as nat),
        assignments.len() == values.len(),
        seeds.len() > 0 ==> forall|i: int|
            0 <= i < assignments.len() ==> #[trigger] assignments[i] < seeds.len(),
{
    let mut assignments = zeros(values.len());
    let mut centroids: Vec<i64> = Vec::new();
    let mut c: usize = 0;
    while c < seeds.len()
        invariant
            c <= seeds.len(),
            centroids@ == seeds@.take(c as int),
        decreases seeds.len() - c,
    {
        centroids.push(seeds[c]);
        c += 1;
        assert(centroids@ =~= seeds@.take(c as int));
    }
    assert(centroids@ =~= seeds@);
    let mut round: usize = 0;
    while round < max_iters
        invariant
            round <= max_iters,
            assignments.len() == values.len(),
            centroids@ == centroids_after(values@, seeds@, round as nat),
            assignments@ == clustering(values@, seeds@, round as nat),
        decreases max_iters - round,
    {
        assign_all(values, &centroids, &mut assignments);
        proof {
            centroids_keep_count(values@, seeds@, round as nat);
        }
        if centroids.len() > 0 {
            proof {
                assert forall|i: int| 0 <= i < assignments.len() implies assignments[i]
                    < centroids.len() by {
                    nearest_is_nearest(centroids@, values@[i] as int);
                }
            }
            refine_centroids(values, assignments.as_slice(), &mut centroids);
        } else {
            assert(centroids@ =~= refine(values@, assignments@, centroids@));
        }
        round += 1;
    }
    proof {
        if seeds.len() > 0 {
            assert forall|i: int| 0 <= i < assignments.len() implies #[trigger] assignments[i]
                < seeds.len() by {
                clustering_in_range(values@, seeds@, max_iters as nat, i);
            }
        }
    }
    assignments
}

/// The distinct values of `values`, each once, in the order in which they
/// first occur.
pub open spec fn unique(values: Seq<i64>) -> Seq<i64>
    decreases values.len(),
{
    if values.len() == 0 {
        Seq::empty()
    } else {
        let before = unique(values.drop_last());
        if before.contains(values.last()) {
            before
        } else {
            before.push(values.last())
        }
    }
}

/// The distinct values of a sequence hold no value twice, hold the values of
/// the sequence and no others, and are as many as the sequence has distinct
/// values.
pub proof fn unique_is_distinct(values: Seq<i64>)
    ensures
        unique(values).no_duplicates(),
        unique(values).to_set() == values.to_set(),
        unique(values).len() == values.to_set().len(),
    decreases values.len(),
{
    if values.len() == 0 {
        assert(unique(values).to_set() =~= values.to_set());
    } else {
        let front = values.drop_last();
        let last = values.last();
        let before = unique(front);
        unique_is_distinct(front);
        assert forall|x: i64| values.contains(x) <==> front.contains(x) || x == last by {
            if values.contains(x) {
                let at = choose|at: int| 0 <= at < values.len() && values[at] == x;
                if at < front.len() {
                    assert(front[at] == x);
                }
            }
            if front.contains(x) {
                let at = choose|at: int| 0 <= at < front.len() && front[at] == x;
                assert(values[at] == x);
            }
            if x == last {
                assert(values[values.len() - 1] == x);
            }
        }
        assert forall|x: i64| before.contains(x) <==> front.contains(x) by {
            assert(before.to_set().contains(x) <==> front.to_set().contains(x));
        }
        if before.contains(last) {
            assert(unique(values).to_set() =~= values.to_set());
        } else {
            let after = before.push(last);
            assert forall|x: i64| after.contains(x) <==> before.contains(x) || x == last by {
                if after.contains(x) {
                    let at = choose|at: int| 0 <= at < after.len() && after[at] == x;
                    if at < before.len() {
                        assert(before[at] == x);
                    }
                }
                if before.contains(x) {
                    let at = choose|at: int| 0 <= at < before.len() && before[at] == x;
                    assert(after[at] == x);
                }
                if x == last {
                    assert(after[after.len() - 1] == x);
                }
            }
            assert(after.to_set() =~= values.to_set());
            assert forall|i: int, j: int|
                0 <= i < after.len() && 0 <= j < after.len() && i != j implies after[i]
                != after[j] by {
                if i < before.len() && j < before.len() {
                } else if i < before.len() {
                    assert(before.contains(before[i]));
                } else {
                    assert(before.contains(before[j]));
                }
            }
        }
    }
    unique(values).unique_seq_to_set();
}

/// The distinct values of `values`, each once, in the order in which they
/// first occur.
pub fn distinct(values: &[i64]) -> (found: Vec<i64>)
    ensures
        found@ == unique(values@),
        found@.no_duplicates(),
        found@.to_set() == values@.to_set(),
        found.len() == values@.to_set().len(),
{
    let mut found: Vec<i64> = Vec::new();
    let mut i: usize = 0;
    while i < values.len()
        invariant
            i <= values.len(),
            found@ == unique(values@.take(i as int)),
        decreases values.len() - i,
    {
        let value = values[i];
        let mut seen = false;
        let mut j: usize = 0;
        while j < found.len()
            invariant
                j <= found.len(),
                seen <==> exists|x: int| 0 <= x < j && found@[x] == value,
            decreases found.len() - j,
        {
            if found[j] == value {
                seen = true;
            }
            j += 1;
        }
        assert(seen <==> found@.contains(value));
        assert(values@.take(i + 1).drop_last() =~= values@.take(i as int));
        if !seen {
            found.push(value);
        }
        i += 1;
    }
    proof {
        assert(values@.take(i as int) =~= values@);
        unique_is_distinct(values@);
    }
    found
}

/// `rand::rngs::ThreadRng`, the handle on the random number generator of
/// the current thread. Nothing is known of what it holds.
#[verifier::external_type_specification]
#[verifier::external_body]
pub struct ExThreadRng(rand::rngs::ThreadRng);

/// `rand::thread_rng`: the generator of the current thread, which rand seeds
/// from the operating system at its first use in the thread. Nothing is
/// claimed of what it returns.
pub assume_specification[ rand::thread_rng ]() -> rand::rngs::ThreadRng;

/// Draws `amount` of `values` at random with `choose_multiple` of rand's
/// `SliceRandom`.
///
/// Believed of it: it returns as many items as asked for, or all of them
/// where there are fewer, and takes them from positions of `values` of
/// which none is used twice. Which positions, and in which order, is left
/// open.
#[verifier::external_body]
fn choose_multiple(values: &Vec<i64>, rng: &mut rand::rngs::ThreadRng, amount: usize) -> (picked:
    Vec<i64>)
    ensures
        amount <= values.len() ==> picked.len() == amount,
        amount > values.len() ==> picked.len() == values.len(),
        drawn_from(picked@, values@),
{
    values.choose_multiple(rng, amount).cloned().collect()
}

/// Clusters `values` into `k` groups: draws `k` distinct values at random as
/// the first centroids and runs `max_iters` rounds from them.
///
/// Fails where `values` hold fewer than `k` distinct values.
pub fn kmeans(values: &[i64], k: usize, max_iters: usize) -> (r: Result<
    Vec<usize>,
    CalibrationError,
>)
    ensures
        r is Err <==> values@.to_set().len() < k,
        r is Err ==> r == Err::<Vec<usize>, CalibrationError>(CalibrationError::TooFewDistinct),
        r is Ok ==> exists|seeds: Seq<i64>|
            seeds_of(values@, seeds, k as int) && r->Ok_0@ == #[trigger] clustering(
                values@,
                seeds,
                max_iters as nat,
            ),
        r is Ok ==> r->Ok_0.len() == values.len(),
        r is Ok && k > 0 ==> forall|i: int| 0 <= i < values.len() ==> #[trigger] r->Ok_0[i] < k,
{
    let candidates = distinct(values);
    if candidates.len() < k {
        return Err(CalibrationError::TooFewDistinct);
    }
    let mut rng = rand::thread_rng();
    let seeds = choose_multiple(&candidates, &mut rng, k);
    proof {
        let at = choose|at: Seq<int>|
            {
                &&& at.len() == seeds@.len()
                &&& at.no_duplicates()
                &&& forall|j: int|
                    0 <= j < at.len() ==> 0 <= #[trigger] at[j] < candidates@.len() && seeds@[j]
                        == candidates@[at[j]]
            };
        assert forall|a: int, b: int|
            0 <= a < seeds.len() && 0 <= b < seeds.len() && a != b implies seeds[a]
            != seeds[b] by {
            assert(at[a] != at[b]);
        }
        assert forall|j: int| 0 <= j < seeds.len() implies values@.contains(
            #[trigger] seeds@[j],
        ) by {
            assert(candidates@.to_set().contains(candidates[at[j]]));
        }
    }
    let assignments = kmeans_seeded(values, &seeds, max_iters);
    Ok(assignments)
}

/// The mean of each of the `k` clusters, rounded toward zero; 0 for a
/// cluster without readings.
pub fn average_cluster_sizes(values: &[i64], assignments: &[usize], k: usize) -> (means: Vec<i64>)
    requires
        assignments.len() <= values.len(),
        forall|i: int| 0 <= i < assignments.len() ==> assignments[i] < k,
    ensures
        means.len() == k,
        forall|c: int| 0 <= c < k ==> means[c] == cluster_mean(values@, assignments@, c),
{
    let (sums, counts) = cluster_totals(values, assignments, k);
    let mut means: Vec<i64> = Vec::new();
    let mut c: usize = 0;
    while c < k
        invariant
            c <= k,
            means.len() == c,
            sums.len() == k,
            counts.len() == k,
            assignments.len() <= values.len(),
            forall|d: int|
                0 <= d < k ==> sums[d] == cluster_sum(
                    values@,
                    assignments@,
                    d,
                    assignments.len() as int,
                ),
            forall|d: int|
                0 <= d < k ==> counts[d] == cluster_count(
                    assignments@,
                    d,
                    assignments.len() as int,
                ),
            forall|d: int| 0 <= d < c ==> means[d] == cluster_mean(values@, assignments@, d),
        decreases k - c,
    {
        if counts[c] > 0 {
            proof {
                cluster_mean_fits(values@, assignments@, c as int);
                cluster_sum_bounds(values@, assignments@, c as int, assignments.len() as int);
            }
            let mean = quotient(sums[c], counts[c] as i128);
            means.push(mean as i64);
        } else {
            means.push(0);
        }
        c += 1;
    }
    means
}

} // verus!

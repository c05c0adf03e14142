//! The search around a query: the block of cells that is looked at, the
//! feature points of those cells, and the candidate that is nearest.
//!
//! The block is three cells wide and three high, with the query's own cell in
//! the middle. It is walked column by column, and within a column row by row.

use crate::binary32::{is_nan, less_than, lt, rank};
use crate::point::{point_for_cell, point_of, FeaturePoint};
use vstd::prelude::*;

verus! {

/// The pattern of 42.0. A candidate counts only if it is nearer than this, and
/// this is the distance of a search that no candidate won.
pub const FAR_DISTANCE: u32 = 0x4228_0000;

/// What a search returns: the distance to the nearest feature point and where
/// that point lies, relative to the corner of the query's cell. All three are
/// binary32 patterns.
#[derive(Clone, Copy, Debug, PartialEq, Eq, Structural)]
pub struct VoronoiSample {
    pub distance: u32,
    pub feature_x: u32,
    pub feature_y: u32,
}

/// The sample of a search that no candidate won: the far distance, with the
/// feature point at the corner of the cell.
pub open spec fn far_sample() -> VoronoiSample {
    VoronoiSample { distance: FAR_DISTANCE, feature_x: 0, feature_y: 0 }
}

/// The distances of the candidates, in their order.
pub open spec fn distances_of(candidates: Seq<VoronoiSample>) -> Seq<u32> {
    Seq::new(candidates.len(), |k: int| candidates[k].distance)
}

/// The offset, in cells, of the `k`-th cell of the walk from the query's cell.
pub open spec fn offset_of(k: int) -> (int, int) {
    (k / 3 - 1, k % 3 - 1)
}

/// The place in the walk of the cell at offset `(dx, dy)`.
pub open spec fn place_of(dx: int, dy: int) -> int {
    3 * (dx + 1) + (dy + 1)
}

/// The feature points of a block, in the order of the walk. `columns` holds
/// the patterns of the three x coordinates of the block's cells, `rows` those
/// of the three y coordinates.
pub open spec fn window_of(seed: u32, columns: Seq<u32>, rows: Seq<u32>) -> Seq<FeaturePoint> {
    Seq::new(9, |k: int| point_of(seed, columns[k / 3], rows[k % 3]))
}

/// Whether the candidate at `i` is the one a search returns: it is nearer
/// than the far distance, no candidate is nearer than it, and every candidate
/// before it is further away or not a number.
pub open spec fn is_nearest(distances: Seq<u32>, i: int) -> bool {
    &&& 0 <= i < distances.len()
    &&& less_than(distances[i], FAR_DISTANCE)
    &&& forall|j: int| 0 <= j < distances.len() ==> !less_than(#[trigger] distances[j], distances[i])
    &&& forall|j: int|
        0 <= j < i ==> less_than(distances[i], #[trigger] distances[j]) || is_nan(distances[j])
}

/// Whether no candidate is nearer than the far distance.
pub open spec fn none_near(distances: Seq<u32>) -> bool {
    forall|j: int| 0 <= j < distances.len() ==> !less_than(#[trigger] distances[j], FAR_DISTANCE)
}

/// Whether `sample` is what a search among `candidates` returns: the nearest
/// of them, or the far sample where none is near.
pub open spec fn is_closest(candidates: Seq<VoronoiSample>, sample: VoronoiSample) -> bool {
    if none_near(distances_of(candidates)) {
        sample == far_sample()
    } else {
        exists|i: int| is_nearest(distances_of(candidates), i) && sample == candidates[i]
    }
}

/// The walk visits every cell of the block once: each place has an offset of
/// at most one cell either way, each such offset has a place, and the two
/// undo each other.
pub proof fn lemma_walk_covers_block(k: int, dx: int, dy: int)
    requires
        0 <= k < 9,
        -1 <= dx <= 1,
        -1 <= dy <= 1,
    ensures
        -1 <= offset_of(k).0 <= 1,
        -1 <= offset_of(k).1 <= 1,
        place_of(offset_of(k).0, offset_of(k).1) == k,
        0 <= place_of(dx, dy) < 9,
        offset_of(place_of(dx, dy)) == (dx, dy),
{
}

/// Blocks that overlap agree where they overlap. If the block `b` lies one
/// column further along than the block `a`, over the same rows, then the cell
/// at column `i`, row `j` of `b` has the feature point of the cell at column
/// `i + 1`, row `j` of `a`.
pub proof fn lemma_shifted_columns_share_points(
    seed: u32,
    a: Seq<u32>,
    b: Seq<u32>,
    rows: Seq<u32>,
    i: int,
    j: int,
)
    requires
        a.len() == 3,
        b.len() == 3,
        rows.len() == 3,
        b[0] == a[1],
        b[1] == a[2],
        0 <= i < 2,
        0 <= j < 3,
    ensures
        window_of(seed, b, rows)[3 * i + j] == window_of(seed, a, rows)[3 * (i + 1) + j],
{
}

/// The same for rows: if the block `b` lies one row further along than the
/// block `a`, over the same columns, then the cell at column `i`, row `j` of
/// `b` has the feature point of the cell at column `i`, row `j + 1` of `a`.
pub proof fn lemma_shifted_rows_share_points(
    seed: u32,
    columns: Seq<u32>,
    a: Seq<u32>,
    b: Seq<u32>,
    i: int,
    j: int,
)
    requires
        columns.len() == 3,
        a.len() == 3,
        b.len() == 3,
        b[0] == a[1],
        b[1] == a[2],
        0 <= i < 3,
        0 <= j < 2,
    ensures
        window_of(seed, columns, b)[3 * i + j] == window_of(seed, columns, a)[3 * i + (j + 1)],
{
}

/// At most one candidate is the nearest: ties go to the earlier one.
pub proof fn lemma_nearest_unique(distances: Seq<u32>, i: int, j: int)
    requires
        is_nearest(distances, i),
        is_nearest(distances, j),
    ensures
        i == j,
{
    if i < j {
        assert(less_than(distances[j], distances[i]) || is_nan(distances[i]));
    } else if j < i {
        assert(less_than(distances[i], distances[j]) || is_nan(distances[j]));
    }
}

/// A search has one answer: the same candidates always give the same sample.
pub proof fn lemma_closest_unique(candidates: Seq<VoronoiSample>, a: VoronoiSample, b: VoronoiSample)
    requires
        is_closest(candidates, a),
        is_closest(candidates, b),
    ensures
        a == b,
{
    let distances = distances_of(candidates);
    if !none_near(distances) {
        let i = choose|i: int| is_nearest(distances, i) && a == candidates[i];
        let j = choose|j: int| is_nearest(distances, j) && b == candidates[j];
        lemma_nearest_unique(distances, i, j);
    }
}

/// The nearest candidate is a number below the far distance and no further
/// than any candidate that is a number. If no candidate that is a number is
/// negative, it is not negative either.
pub proof fn lemma_nearest_bounds(distances: Seq<u32>, i: int, j: int)
    requires
        is_nearest(distances, i),
        0 <= j < distances.len(),
    ensures
        !is_nan(distances[i]),
        rank(distances[i]) < rank(FAR_DISTANCE),
        !is_nan(distances[j]) ==> rank(distances[i]) <= rank(distances[j]),
        (forall|k: int|
            0 <= k < distances.len() ==> is_nan(#[trigger] distances[k]) || 0 <= rank(distances[k]))
            ==> 0 <= rank(distances[i]),
{
    assert(!less_than(distances[j], distances[i]));
}

/// The offsets of the block's cells from the query's cell, in the order of
/// the walk: `(-1, -1)`, `(-1, 0)`, `(-1, 1)`, `(0, -1)` and so on to
/// `(1, 1)`.
pub fn neighbor_offsets() -> (offsets: [(i8, i8); 9])
    ensures
        forall|k: int|
            0 <= k < 9 ==> (#[trigger] offsets@[k]).0 == offset_of(k).0 && offsets@[k].1
                == offset_of(k).1,
{
    [(-1, -1), (-1, 0), (-1, 1), (0, -1), (0, 0), (0, 1), (1, -1), (1, 0), (1, 1)]
}

/// The feature points of the nine cells of a block, in the order of the
/// walk. `columns` and `rows` hold the patterns of the x and y coordinates
/// under which the cells are hashed.
pub fn window_points(seed: u32, columns: [u32; 3], rows: [u32; 3]) -> (points: Vec<FeaturePoint>)
    ensures
        points@ == window_of(seed, columns@, rows@),
        forall|k: int| 0 <= k < 9 ==> (#[trigger] points@[k]).wf(),
{
    let mut points: Vec<FeaturePoint> = Vec::new();
    let mut i: usize = 0;
    while i < 3
        invariant
            i <= 3,
            points@.len() == 3 * i,
            forall|k: int|
                0 <= k < points@.len() ==> #[trigger] points@[k] == point_of(
                    seed,
                    columns@[k / 3],
                    rows@[k % 3],
                ),
        decreases 3 - i,
    {
        let mut j: usize = 0;
        while j < 3
            invariant
                i < 3,
                j <= 3,
                points@.len() == 3 * i + j,
                forall|k: int|
                    0 <= k < points@.len() ==> #[trigger] points@[k] == point_of(
                        seed,
                        columns@[k / 3],
                        rows@[k % 3],
                    ),
            decreases 3 - j,
        {
            let point = point_for_cell(seed, columns[i], rows[j]);
            points.push(point);
            j += 1;
        }
        i += 1;
    }
    assert(points@ =~= window_of(seed, columns@, rows@));
    assert forall|k: int| 0 <= k < 9 implies (#[trigger] points@[k]).wf() by {
        crate::point::lemma_point_in_cell(seed, columns@[k / 3], rows@[k % 3]);
    }
    points
}

/// Finds the nearest of the candidates, whose distances are given as
/// binary32 patterns. A candidate wins if it is nearer than the far distance
/// and than every candidate before it; a NaN never wins. Returns the place of
/// the winner, or `None` if no candidate is nearer than the far distance.
pub fn nearest(distances: &[u32]) -> (winner: Option<usize>)
    ensures
        match winner {
            Some(i) => is_nearest(distances@, i as int),
            None => none_near(distances@),
        },
{
    let mut best: u32 = FAR_DISTANCE;
    let mut winner: Option<usize> = None;
    let mut k: usize = 0;
    while k < distances.len()
        invariant
            k <= distances.len(),
            !is_nan(best),
            match winner {
                Some(i) => {
                    &&& i < k
                    &&& best == distances@[i as int]
                    &&& less_than(best, FAR_DISTANCE)
                    &&& forall|j: int|
                        0 <= j < i ==> less_than(best, #[trigger] distances@[j]) || is_nan(
                            distances@[j],
                        )
                },
                None => best == FAR_DISTANCE,
            },
            forall|j: int| 0 <= j < k ==> !less_than(#[trigger] distances@[j], best),
        decreases distances.len() - k,
    {
        let distance: u32 = distances[k];
        if lt(distance, best) {
            best = distance;
            winner = Some(k);
        }
        k += 1;
    }
    winner
}

/// Picks the nearest of the candidates: the one that `nearest` finds among
/// their distances, or the far sample if it finds none. The distance that
/// comes back is a number, never a NaN, and at most the far distance; it is
/// not negative unless the distance of some candidate is.
pub fn closest(candidates: &[VoronoiSample]) -> (sample: VoronoiSample)
    ensures
        is_closest(candidates@, sample),
        forall|i: int|
            is_nearest(distances_of(candidates@), i) ==> sample == #[trigger] candidates@[i],
        !is_nan(sample.distance),
        rank(sample.distance) <= rank(FAR_DISTANCE),
        (forall|k: int|
            0 <= k < candidates@.len() ==> is_nan((#[trigger] candidates@[k]).distance) || 0 <= rank(
                candidates@[k].distance,
            )) ==> 0 <= rank(sample.distance),
{
    let mut distances: Vec<u32> = Vec::new();
    let mut k: usize = 0;
    while k < candidates.len()
        invariant
            k <= candidates.len(),
            distances@.len() == k,
            forall|j: int| 0 <= j < k ==> #[trigger] distances@[j] == candidates@[j].distance,
        decreases candidates.len() - k,
    {
        distances.push(candidates[k].distance);
        k += 1;
    }
    assert(distances@ =~= distances_of(candidates@));
    match nearest(distances.as_slice()) {
        Some(place) => {
            assert(!none_near(distances@)) by {
                assert(less_than(distances@[place as int], FAR_DISTANCE));
            }
            candidates[place]
        },
        None => VoronoiSample { distance: FAR_DISTANCE, feature_x: 0, feature_y: 0 },
    }
}

} // verus!

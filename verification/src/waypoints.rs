//! The fixed catalog of warp anchor points.
//!
//! Selection works on squared Euclidean distance, so no root is taken and the
//! comparison order is exact. Ties go to the earliest-enumerated waypoint,
//! and a waypoint at distance zero is still a valid destination.

use vstd::prelude::*;
use crate::math::{dist2, dist2_fp, Vec3};

verus! {

/// The earliest index among the first `n` waypoints whose squared distance
/// to `p` is minimal.
pub open spec fn nearest_in_prefix(pts: Seq<Vec3>, p: Vec3, n: int) -> int
    decreases n,
{
    if n <= 1 {
        0
    } else {
        let best = nearest_in_prefix(pts, p, n - 1);
        if dist2(p, pts[n - 1]) < dist2(p, pts[best]) {
            n - 1
        } else {
            best
        }
    }
}

/// The index of the selected waypoint: the earliest at minimal distance.
pub open spec fn nearest_index(pts: Seq<Vec3>, p: Vec3) -> int {
    nearest_in_prefix(pts, p, pts.len() as int)
}

/// The selected index lies in the prefix, no waypoint in the prefix is
/// strictly nearer, and every earlier waypoint is strictly farther.
pub proof fn lemma_nearest_in_prefix(pts: Seq<Vec3>, p: Vec3, n: int)
    requires
        1 <= n <= pts.len(),
    ensures
        0 <= nearest_in_prefix(pts, p, n) < n,
        forall|j: int|
            0 <= j < n ==> dist2(p, pts[nearest_in_prefix(pts, p, n)]) <= #[trigger] dist2(
                p,
                pts[j],
            ),
        forall|j: int|
            0 <= j < nearest_in_prefix(pts, p, n) ==> #[trigger] dist2(p, pts[j]) > dist2(
                p,
                pts[nearest_in_prefix(pts, p, n)],
            ),
    decreases n,
{
    if n > 1 {
        lemma_nearest_in_prefix(pts, p, n - 1);
    }
}

/// Ties between equidistant waypoints go to the earliest-enumerated one:
/// the selected index is minimal among all indices at minimal distance,
/// since every earlier waypoint is strictly farther away.
pub proof fn lemma_nearest_tie_break(pts: Seq<Vec3>, p: Vec3)
    requires
        pts.len() > 0,
    ensures
        0 <= nearest_index(pts, p) < pts.len(),
        forall|j: int|
            0 <= j < pts.len() ==> dist2(p, pts[nearest_index(pts, p)]) <= #[trigger] dist2(
                p,
                pts[j],
            ),
        forall|j: int|
            0 <= j < nearest_index(pts, p) ==> #[trigger] dist2(p, pts[j]) > dist2(
                p,
                pts[nearest_index(pts, p)],
            ),
{
    lemma_nearest_in_prefix(pts, p, pts.len() as int);
}

/// A read-only, ordered set of warp destinations.
#[derive(Clone, Debug)]
pub struct WaypointCatalog {
    pub points: Vec<Vec3>,
}

impl WaypointCatalog {
    /// At least one waypoint, and every waypoint within coordinate range.
    pub open spec fn wf(self) -> bool {
        &&& self.points@.len() > 0
        &&& forall|i: int| 0 <= i < self.points@.len() ==> #[trigger] self.points@[i].wf()
    }

    /// A catalog over the given anchor points, kept in enumeration order.
    pub fn new(points: Vec<Vec3>) -> (r: WaypointCatalog)
        requires
            points@.len() > 0,
            forall|i: int| 0 <= i < points@.len() ==> #[trigger] points@[i].wf(),
        ensures
            r.points@ == points@,
            r.wf(),
    {
        WaypointCatalog { points }
    }

    /// The demo's fixed anchors: the origin and five stops along the
    /// diagonal of the horizontal plane.
    pub fn standard() -> (r: WaypointCatalog)
        ensures
            r.points@.len() == 6,
            r.points@[0] == (Vec3 { x: 0, y: 0, z: 0 }),
            r.points@[1] == (Vec3 { x: 3000, y: 0, z: 3000 }),
            r.points@[2] == (Vec3 { x: 5000, y: 0, z: 5000 }),
            r.points@[3] == (Vec3 { x: 7000, y: 0, z: 7000 }),
            r.points@[4] == (Vec3 { x: 9000, y: 0, z: 9000 }),
            r.points@[5] == (Vec3 { x: 12000, y: 0, z: 12000 }),
            r.wf(),
    {
        let mut points: Vec<Vec3> = Vec::new();
        points.push(Vec3 { x: 0, y: 0, z: 0 });
        points.push(Vec3 { x: 3000, y: 0, z: 3000 });
        points.push(Vec3 { x: 5000, y: 0, z: 5000 });
        points.push(Vec3 { x: 7000, y: 0, z: 7000 });
        points.push(Vec3 { x: 9000, y: 0, z: 9000 });
        points.push(Vec3 { x: 12000, y: 0, z: 12000 });
        WaypointCatalog { points }
    }

    /// The waypoint nearest to `p`, the earliest one on a tie; a waypoint
    /// at distance zero is selected like any other.
    pub fn nearest_to(&self, p: Vec3) -> (r: Vec3)
        requires
            self.wf(),
            p.wf(),
        ensures
            r == self.points@[nearest_index(self.points@, p)],
            r.wf(),
            forall|j: int|
                0 <= j < self.points@.len() ==> dist2(p, r) <= #[trigger] dist2(
                    p,
                    self.points@[j],
                ),
    {
        let mut best: usize = 0;
        let mut i: usize = 1;
        while i < self.points.len()
            invariant
                self.wf(),
                p.wf(),
                1 <= i <= self.points@.len(),
                0 <= best < i,
                best == nearest_in_prefix(self.points@, p, i as int),
            decreases self.points@.len() - i,
        {
            let di = dist2_fp(p, self.points[i]);
            let db = dist2_fp(p, self.points[best]);
            if di < db {
                best = i;
            }
            i = i + 1;
        }
        proof {
            lemma_nearest_tie_break(self.points@, p);
        }
        self.points[best]
    }
}

} // verus!

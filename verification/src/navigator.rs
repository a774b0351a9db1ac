//! The observer's viewpoint and the collision-avoidance reset.
//!
//! Each tick the navigator receives the externally moved eye position and
//! holds it against every body's safety bubble: the body's collision extent
//! plus a fixed clearance. On the first violation the viewpoint snaps back
//! to the last known-safe position, aimed at the offending body; only a
//! position that passes the whole check is promoted to last known-safe.

use vstd::prelude::*;
use crate::body::BodyView;
use crate::math::{dist2, dist2_fp, sq, sq_fp, Vec3};

verus! {

/// Minimum clearance added to a body's collision extent: one world unit.
pub const SAFETY_MARGIN: i64 = 1000;

/// Whether an eye position stands inside a body's safety bubble, compared
/// on squared distances.
pub open spec fn violates(eye: Vec3, v: BodyView) -> bool {
    dist2(eye, v.position) < sq(v.radius + SAFETY_MARGIN)
}

/// The index of the first body whose bubble the eye has entered, or the
/// number of bodies when it is clear of them all.
pub open spec fn first_violation(views: Seq<BodyView>, eye: Vec3) -> int
    decreases views.len(),
{
    if views.len() == 0 {
        0
    } else if violates(eye, views[0]) {
        0
    } else {
        1 + first_violation(views.subrange(1, views.len() as int), eye)
    }
}

/// The first violation index is in range, nothing before it violates, and
/// it violates itself unless the eye is clear of every body.
pub proof fn lemma_first_violation(views: Seq<BodyView>, eye: Vec3)
    ensures
        0 <= first_violation(views, eye) <= views.len(),
        forall|j: int| 0 <= j < first_violation(views, eye) ==> !violates(eye, #[trigger] views[j]),
        first_violation(views, eye) < views.len() ==> violates(
            eye,
            views[first_violation(views, eye)],
        ),
    decreases views.len(),
{
    if views.len() == 0 {
    } else if violates(eye, views[0]) {
    } else {
        let tail = views.subrange(1, views.len() as int);
        lemma_first_violation(tail, eye);
        assert forall|j: int|
            0 <= j < first_violation(views, eye) implies !violates(eye, #[trigger] views[j]) by {
            if j > 0 {
                assert(views[j] == tail[j - 1]);
            }
        }
        if first_violation(views, eye) < views.len() {
            assert(views[first_violation(views, eye)] == tail[first_violation(tail, eye)]);
        }
    }
}

/// An index that violates, with nothing violating before it, is the first
/// violation index.
pub proof fn lemma_first_violation_is(views: Seq<BodyView>, eye: Vec3, i: int)
    requires
        0 <= i <= views.len(),
        forall|j: int| 0 <= j < i ==> !violates(eye, #[trigger] views[j]),
        i < views.len() ==> violates(eye, views[i]),
    ensures
        first_violation(views, eye) == i,
    decreases views.len(),
{
    if views.len() == 0 {
    } else if i == 0 {
    } else {
        let tail = views.subrange(1, views.len() as int);
        assert(!violates(eye, views[0]));
        assert forall|j: int| 0 <= j < i - 1 implies !violates(eye, #[trigger] tail[j]) by {
            assert(tail[j] == views[j + 1]);
        }
        if i - 1 < tail.len() {
            assert(tail[i - 1] == views[i]);
        }
        lemma_first_violation_is(tail, eye, i - 1);
    }
}

/// The observer's live viewpoint and its last known-safe position.
#[derive(Clone, Copy, PartialEq, Eq, Structural, Debug)]
pub struct Navigator {
    /// Where the observer stands.
    pub eye: Vec3,
    /// What the observer looks at.
    pub look_at: Vec3,
    /// The most recent eye position that cleared every body's bubble.
    pub last_safe_eye: Vec3,
}

/// The navigator after one tick, fed the externally moved eye position:
/// on a violation the viewpoint snaps back to the last known-safe point and
/// aims at the first offending body; otherwise the new position is adopted
/// and promoted to last known-safe.
pub open spec fn spec_nav_tick(nav: Navigator, eye: Vec3, views: Seq<BodyView>) -> Navigator {
    let i = first_violation(views, eye);
    if i < views.len() {
        Navigator {
            eye: nav.last_safe_eye,
            look_at: views[i].position,
            last_safe_eye: nav.last_safe_eye,
        }
    } else {
        Navigator { eye, look_at: nav.look_at, last_safe_eye: eye }
    }
}

impl Navigator {
    /// All three stored positions within coordinate range.
    pub open spec fn wf(self) -> bool {
        &&& self.eye.wf()
        &&& self.look_at.wf()
        &&& self.last_safe_eye.wf()
    }

    /// A navigator at the given viewpoint; the starting position counts as
    /// the last known-safe one.
    pub fn new(eye: Vec3, look_at: Vec3) -> (r: Navigator)
        requires
            eye.wf(),
            look_at.wf(),
        ensures
            r == (Navigator { eye, look_at, last_safe_eye: eye }),
            r.wf(),
    {
        Navigator { eye, look_at, last_safe_eye: eye }
    }

    /// One navigation tick over the supplied body views. The first body
    /// whose bubble the moved eye has entered wins: the viewpoint is reset
    /// outright and later bodies are not consulted; with no violation the
    /// position is adopted and promoted to last known-safe.
    pub fn tick(&mut self, eye: Vec3, views: &Vec<BodyView>)
        requires
            old(self).wf(),
            eye.wf(),
            forall|j: int| 0 <= j < views@.len() ==> (#[trigger] views@[j]).wf(),
        ensures
            *final(self) == spec_nav_tick(*old(self), eye, views@),
            final(self).wf(),
            final(self).last_safe_eye == if first_violation(views@, eye) < views@.len() {
                old(self).last_safe_eye
            } else {
                eye
            },
    {
        let n = views.len();
        let mut i: usize = 0;
        while i < n
            invariant
                old(self).wf(),
                eye.wf(),
                *self == *old(self),
                n == views@.len(),
                0 <= i <= n,
                forall|j: int| 0 <= j < views@.len() ==> (#[trigger] views@[j]).wf(),
                forall|j: int| 0 <= j < i ==> !violates(eye, #[trigger] views@[j]),
            decreases n - i,
        {
            let v = views[i];
            let d2 = dist2_fp(eye, v.position);
            let bubble = sq_fp(v.radius + SAFETY_MARGIN);
            if d2 < bubble {
                self.eye = self.last_safe_eye;
                self.look_at = v.position;
                proof {
                    lemma_first_violation_is(views@, eye, i as int);
                }
                return;
            }
            i = i + 1;
        }
        proof {
            lemma_first_violation_is(views@, eye, n as int);
        }
        self.eye = eye;
        self.last_safe_eye = eye;
    }
}

/// The collision invariant: if the last known-safe position still clears
/// every body at its current position, then the viewpoint at the end of the
/// tick clears every body too — either the moved position passed the whole
/// check, or it was replaced by the last known-safe one.
pub proof fn lemma_collision_invariant(nav: Navigator, eye: Vec3, views: Seq<BodyView>)
    requires
        forall|j: int| 0 <= j < views.len() ==> !violates(nav.last_safe_eye, #[trigger] views[j]),
    ensures
        forall|j: int|
            0 <= j < views.len() ==> !violates(spec_nav_tick(nav, eye, views).eye, #[trigger] views[j]),
{
    lemma_first_violation(views, eye);
}

} // verus!

//! The whole simulation state and its per-frame tick.
//!
//! One tick runs in a fixed order: every body advances, then the navigation
//! safety check resolves the externally moved eye position, then the warp
//! machine sees the (edge-derived) trigger event and its progress moves —
//! so an unsafe eye position can never flow into a warp commit. The held
//! warp key is debounced here: only a fresh press counts as a trigger.
//! Observer movement input stays live during a flight; the commit simply
//! overwrites the viewpoint when the flight completes.

use vstd::prelude::*;
use crate::body::{spec_advance, spec_snapshot, BodyView, OrbitingBody};
use crate::math::Vec3;
use crate::navigator::{spec_nav_tick, Navigator};
use crate::warp::{spec_trigger, spec_warp_step, WarpController, WarpState};
use crate::waypoints::WaypointCatalog;

verus! {

/// What the surrounding render loop hands the core each frame: where its
/// input handling moved the observer, and whether the warp key is down.
#[derive(Clone, Copy, PartialEq, Eq, Structural, Debug)]
pub struct TickInput {
    pub eye: Vec3,
    pub warp_pressed: bool,
}

/// All long-lived simulation state: the orbiting bodies, the waypoint
/// catalog, the observer's viewpoint, the warp machine, and the sampled
/// level of the warp key from the previous frame.
pub struct World {
    pub bodies: Vec<OrbitingBody>,
    pub catalog: WaypointCatalog,
    pub navigator: Navigator,
    pub warp: WarpController,
    pub warp_key_held: bool,
}

impl World {
    pub open spec fn wf(self) -> bool {
        &&& forall|i: int| 0 <= i < self.bodies@.len() ==> (#[trigger] self.bodies@[i]).wf()
        &&& self.catalog.wf()
        &&& self.navigator.wf()
        &&& self.warp.wf()
    }

    /// A world over the given bodies and catalog, with the observer at the
    /// given viewpoint, no flight in hand, and the warp key read as up.
    pub fn new(
        bodies: Vec<OrbitingBody>,
        catalog: WaypointCatalog,
        eye: Vec3,
        look_at: Vec3,
    ) -> (r: World)
        requires
            forall|i: int| 0 <= i < bodies@.len() ==> (#[trigger] bodies@[i]).wf(),
            catalog.wf(),
            eye.wf(),
            look_at.wf(),
        ensures
            r.bodies@ == bodies@,
            r.catalog.points@ == catalog.points@,
            r.navigator == (Navigator { eye, look_at, last_safe_eye: eye }),
            r.warp.state == WarpState::Idle,
            r.warp_key_held == false,
            r.wf(),
    {
        World {
            bodies,
            catalog,
            navigator: Navigator::new(eye, look_at),
            warp: WarpController::new(),
            warp_key_held: false,
        }
    }

    /// One simulation tick: advance every body, resolve the moved eye
    /// against every body's safety bubble, debounce the warp key into at
    /// most one trigger event, and move the warp machine.
    pub fn tick(&mut self, input: TickInput)
        requires
            old(self).wf(),
            input.eye.wf(),
        ensures
            final(self).wf(),
            final(self).bodies@.len() == old(self).bodies@.len(),
            forall|i: int|
                0 <= i < old(self).bodies@.len() ==> final(self).bodies@[i] == spec_advance(
                    #[trigger] old(self).bodies@[i],
                ),
            final(self).catalog.points@ == old(self).catalog.points@,
            final(self).warp_key_held == input.warp_pressed,
            ({
                let views = Seq::new(
                    old(self).bodies@.len(),
                    |i: int| spec_snapshot(spec_advance(old(self).bodies@[i])),
                );
                let nav_checked = spec_nav_tick(old(self).navigator, input.eye, views);
                let fire = input.warp_pressed && !old(self).warp_key_held;
                let warp_triggered = if fire {
                    spec_trigger(old(self).warp.state, nav_checked.eye, old(self).catalog.points@)
                } else {
                    old(self).warp.state
                };
                let stepped = spec_warp_step(warp_triggered, nav_checked);
                final(self).navigator == stepped.1 && final(self).warp.state == stepped.0
            }),
    {
        let ghost prev = *self;
        let n = self.bodies.len();
        let mut advanced_bodies: Vec<OrbitingBody> = Vec::new();
        let mut views: Vec<BodyView> = Vec::new();
        let mut i: usize = 0;
        while i < n
            invariant
                prev.wf(),
                *self == prev,
                n == prev.bodies@.len(),
                0 <= i <= n,
                advanced_bodies@.len() == i as int,
                views@.len() == i as int,
                forall|j: int|
                    0 <= j < i ==> advanced_bodies@[j] == spec_advance(#[trigger] prev.bodies@[j]),
                forall|j: int|
                    0 <= j < i ==> views@[j] == spec_snapshot(spec_advance(#[trigger] prev.bodies@[j])),
                forall|j: int| 0 <= j < i ==> (#[trigger] advanced_bodies@[j]).wf(),
                forall|j: int| 0 <= j < i ==> (#[trigger] views@[j]).wf(),
            decreases n - i,
        {
            let mut b = self.bodies[i];
            b.advance();
            views.push(b.snapshot());
            advanced_bodies.push(b);
            i = i + 1;
        }
        self.bodies = advanced_bodies;
        proof {
            assert(views@ =~= Seq::new(
                prev.bodies@.len(),
                |i: int| spec_snapshot(spec_advance(prev.bodies@[i])),
            ));
        }
        self.navigator.tick(input.eye, &views);
        let fire = input.warp_pressed && !self.warp_key_held;
        self.warp_key_held = input.warp_pressed;
        if fire {
            let observer = self.navigator.eye;
            self.warp.trigger(observer, &self.catalog);
        }
        self.warp.tick(&mut self.navigator);
    }
}

} // verus!

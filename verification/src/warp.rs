//! The warp state machine.
//!
//! A trigger while idle reads the observer's position, selects the nearest
//! waypoint once, and starts a progress-driven flight; a trigger while a
//! flight is in hand is a silent no-op. Each tick of a flight adds a fixed
//! step to the progress, and on reaching full progress the viewpoint is
//! committed to the destination, aimed at the origin, and the machine
//! returns to idle.

use vstd::prelude::*;
use crate::math::Vec3;
use crate::navigator::Navigator;
use crate::waypoints::{nearest_index, WaypointCatalog};

verus! {

/// Full progress of a warp flight, in progress steps.
pub const PROGRESS_ONE: i64 = 1000;

/// Progress gained per tick: fifty ticks to complete a flight.
pub const PROGRESS_STEP: i64 = 20;

/// Either no flight is in hand, or exactly one, with its endpoints fixed at
/// trigger time and its progress strictly short of completion.
#[derive(Clone, Copy, PartialEq, Eq, Structural, Debug)]
pub enum WarpState {
    Idle,
    InProgress { origin: Vec3, destination: Vec3, progress: i64 },
}

impl WarpState {
    /// Endpoints in range and progress strictly within the flight.
    pub open spec fn wf(self) -> bool {
        match self {
            WarpState::Idle => true,
            WarpState::InProgress { origin, destination, progress } => {
                &&& origin.wf()
                &&& destination.wf()
                &&& 0 <= progress < PROGRESS_ONE
            },
        }
    }
}

/// The state after a trigger event: from idle, a flight from the observer's
/// position to the nearest waypoint at progress zero; a trigger during a
/// flight changes nothing.
pub open spec fn spec_trigger(s: WarpState, eye: Vec3, pts: Seq<Vec3>) -> WarpState {
    match s {
        WarpState::Idle => WarpState::InProgress {
            origin: eye,
            destination: pts[nearest_index(pts, eye)],
            progress: 0,
        },
        WarpState::InProgress { .. } => s,
    }
}

/// The state and navigator after one tick: idle stays idle; a flight gains
/// one step, and on full progress the viewpoint is committed to the
/// destination, looking back at the origin of coordinates.
pub open spec fn spec_warp_step(s: WarpState, nav: Navigator) -> (WarpState, Navigator) {
    match s {
        WarpState::Idle => (s, nav),
        WarpState::InProgress { origin, destination, progress } => {
            if progress + PROGRESS_STEP >= PROGRESS_ONE {
                (
                    WarpState::Idle,
                    Navigator {
                        eye: destination,
                        look_at: Vec3 { x: 0, y: 0, z: 0 },
                        last_safe_eye: nav.last_safe_eye,
                    },
                )
            } else {
                (
                    WarpState::InProgress {
                        origin,
                        destination,
                        progress: (progress + PROGRESS_STEP) as i64,
                    },
                    nav,
                )
            }
        },
    }
}

/// The warp controller: the state machine layered over the navigator.
#[derive(Clone, Copy, PartialEq, Eq, Structural, Debug)]
pub struct WarpController {
    pub state: WarpState,
}

impl WarpController {
    pub open spec fn wf(self) -> bool {
        self.state.wf()
    }

    /// A controller with no flight in hand.
    pub fn new() -> (r: WarpController)
        ensures
            r.state == WarpState::Idle,
            r.wf(),
    {
        WarpController { state: WarpState::Idle }
    }

    /// Feed one trigger event: start a flight from `eye` to the nearest
    /// waypoint if idle, and ignore the event during a flight, so the
    /// destination is selected exactly once per warp.
    pub fn trigger(&mut self, eye: Vec3, catalog: &WaypointCatalog)
        requires
            old(self).wf(),
            eye.wf(),
            catalog.wf(),
        ensures
            final(self).state == spec_trigger(old(self).state, eye, catalog.points@),
            final(self).wf(),
    {
        match self.state {
            WarpState::Idle => {
                let destination = catalog.nearest_to(eye);
                self.state = WarpState::InProgress { origin: eye, destination, progress: 0 };
            },
            WarpState::InProgress { .. } => {},
        }
    }

    /// One tick of the machine: a no-op while idle; during a flight the
    /// progress gains one step, and on completion the navigator's viewpoint
    /// is committed to the destination and the machine goes idle.
    pub fn tick(&mut self, nav: &mut Navigator)
        requires
            old(self).wf(),
            old(nav).wf(),
        ensures
            final(self).state == spec_warp_step(old(self).state, *old(nav)).0,
            *final(nav) == spec_warp_step(old(self).state, *old(nav)).1,
            final(self).wf(),
            final(nav).wf(),
    {
        match self.state {
            WarpState::Idle => {},
            WarpState::InProgress { origin, destination, progress } => {
                let next = progress + PROGRESS_STEP;
                if next >= PROGRESS_ONE {
                    self.state = WarpState::Idle;
                    nav.eye = destination;
                    nav.look_at = Vec3 { x: 0, y: 0, z: 0 };
                } else {
                    self.state = WarpState::InProgress { origin, destination, progress: next };
                }
            },
        }
    }
}

/// A warp is single-flight: a trigger that arrives while a flight is in
/// hand alters neither the destination nor the progress.
pub proof fn lemma_warp_single_flight(s: WarpState, eye: Vec3, pts: Seq<Vec3>)
    requires
        s is InProgress,
    ensures
        spec_trigger(s, eye, pts) == s,
{
}

/// Once the remaining progress is within one step, the next tick completes
/// the warp: the machine returns to idle and the viewpoint lands exactly on
/// the destination, aimed at the origin of coordinates.
pub proof fn lemma_warp_completion(origin: Vec3, destination: Vec3, progress: i64, nav: Navigator)
    requires
        progress + PROGRESS_STEP >= PROGRESS_ONE,
    ensures
        ({
            let step = spec_warp_step(
                WarpState::InProgress { origin, destination, progress },
                nav,
            );
            &&& step.0 == WarpState::Idle
            &&& step.1.eye == destination
            &&& step.1.look_at == (Vec3 { x: 0, y: 0, z: 0 })
            &&& step.1.last_safe_eye == nav.last_safe_eye
        }),
{
}

} // verus!

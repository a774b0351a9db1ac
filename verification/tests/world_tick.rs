use solar_nav::body::OrbitingBody;
use solar_nav::math::Vec3;
use solar_nav::warp::WarpState;
use solar_nav::waypoints::WaypointCatalog;
use solar_nav::world::{TickInput, World};

fn demo_world(eye: Vec3) -> World {
    // one stationary body standing at (3000, 0, 0), collision extent 400
    let bodies = vec![OrbitingBody::new(400, 3000, 0)];
    World::new(bodies, WaypointCatalog::standard(), eye, Vec3 { x: 0, y: 0, z: 0 })
}

#[test]
fn tick_advances_bodies() {
    let bodies = vec![OrbitingBody::new(400, 3000, 30), OrbitingBody::new(900, 5000, 20)];
    let mut w = World::new(
        bodies,
        WaypointCatalog::standard(),
        Vec3 { x: 0, y: 0, z: -20000 },
        Vec3 { x: 0, y: 0, z: 0 },
    );
    w.tick(TickInput { eye: Vec3 { x: 0, y: 0, z: -20000 }, warp_pressed: false });
    assert_eq!(w.bodies[0].angle, 30);
    assert_eq!(w.bodies[1].angle, 20);
}

#[test]
fn intrusion_is_reset_within_the_tick() {
    // the frame's input placed the observer on the body; the very next tick
    // detects the violation and snaps back to the last known-safe position
    let start = Vec3 { x: 0, y: 0, z: 0 };
    let mut w = demo_world(start);
    let body_pos = Vec3 { x: 3000, y: 0, z: 0 };
    w.tick(TickInput { eye: body_pos, warp_pressed: false });
    assert_eq!(w.navigator.eye, start);
    assert_eq!(w.navigator.look_at, body_pos);
    assert_eq!(w.navigator.last_safe_eye, start);
}

#[test]
fn held_key_triggers_only_once() {
    let far = Vec3 { x: 20000, y: 0, z: 20000 };
    let mut w = World::new(
        Vec::new(),
        WaypointCatalog::standard(),
        far,
        Vec3 { x: 0, y: 0, z: 0 },
    );
    w.tick(TickInput { eye: far, warp_pressed: true });
    let first = match w.warp.state {
        WarpState::InProgress { destination, progress, .. } => {
            assert_eq!(destination, Vec3 { x: 12000, y: 0, z: 12000 });
            assert_eq!(progress, 20);
            destination
        }
        WarpState::Idle => panic!("the fresh press must trigger a flight"),
    };
    // the key stays held; later ticks must not restart the flight
    w.tick(TickInput { eye: far, warp_pressed: true });
    match w.warp.state {
        WarpState::InProgress { destination, progress, .. } => {
            assert_eq!(destination, first);
            assert_eq!(progress, 40);
        }
        WarpState::Idle => panic!("the flight in hand must continue"),
    }
}

#[test]
fn warp_commits_after_fifty_ticks() {
    let far = Vec3 { x: 20000, y: 0, z: 20000 };
    let mut w = World::new(
        Vec::new(),
        WaypointCatalog::standard(),
        far,
        Vec3 { x: 0, y: 0, z: 0 },
    );
    for _ in 0..50 {
        w.tick(TickInput { eye: far, warp_pressed: true });
    }
    assert_eq!(w.warp.state, WarpState::Idle);
    assert_eq!(w.navigator.eye, Vec3 { x: 12000, y: 0, z: 12000 });
    assert_eq!(w.navigator.look_at, Vec3 { x: 0, y: 0, z: 0 });
}

#[test]
fn clearance_holds_at_tick_end() {
    // walk the observer toward the body; at every tick end the viewpoint
    // keeps at least radius + margin of clearance
    let mut w = demo_world(Vec3 { x: -6000, y: 0, z: 0 });
    let mut x: i64 = -6000;
    for _ in 0..40 {
        x += 200;
        w.tick(TickInput { eye: Vec3 { x, y: 0, z: 0 }, warp_pressed: false });
        let eye = w.navigator.eye;
        let body = Vec3 { x: 3000, y: 0, z: 0 };
        let dx = eye.x - body.x;
        let dy = eye.y - body.y;
        let dz = eye.z - body.z;
        let d2 = dx * dx + dy * dy + dz * dz;
        assert!(d2 >= 1400 * 1400);
    }
}

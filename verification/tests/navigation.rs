use solar_nav::body::{BodyView, OrbitingBody};
use solar_nav::math::Vec3;
use solar_nav::navigator::Navigator;

#[test]
fn safe_position_is_adopted_and_promoted() {
    let mut nav = Navigator::new(Vec3 { x: 0, y: 0, z: 0 }, Vec3 { x: 0, y: 0, z: 5000 });
    let views = vec![BodyView { position: Vec3 { x: 3000, y: 0, z: 3000 }, radius: 400 }];
    let eye = Vec3 { x: 0, y: 0, z: -8000 };
    nav.tick(eye, &views);
    assert_eq!(nav.eye, eye);
    assert_eq!(nav.last_safe_eye, eye);
    // the look target is untouched when no violation fires
    assert_eq!(nav.look_at, Vec3 { x: 0, y: 0, z: 5000 });
}

#[test]
fn violation_resets_to_last_safe_eye() {
    // the observer is moved straight onto a body's center; the tick must
    // detect the violation and snap back, aiming at the offender
    let mut nav = Navigator::new(Vec3 { x: 0, y: 0, z: 0 }, Vec3 { x: 0, y: 0, z: 5000 });
    let body = Vec3 { x: 3000, y: 0, z: 3000 };
    let views = vec![BodyView { position: body, radius: 400 }];
    nav.tick(body, &views);
    assert_eq!(nav.eye, Vec3 { x: 0, y: 0, z: 0 });
    assert_eq!(nav.look_at, body);
    assert_eq!(nav.last_safe_eye, Vec3 { x: 0, y: 0, z: 0 });
}

#[test]
fn boundary_of_the_bubble_is_still_a_violation() {
    // radius 400 plus margin 1000: squared distances under 1400^2 violate
    let mut nav = Navigator::new(Vec3 { x: 0, y: 0, z: 0 }, Vec3 { x: 0, y: 0, z: 0 });
    let body = Vec3 { x: 5000, y: 0, z: 0 };
    let views = vec![BodyView { position: body, radius: 400 }];
    // 1399 away: inside the bubble
    nav.tick(Vec3 { x: 5000 - 1399, y: 0, z: 0 }, &views);
    assert_eq!(nav.eye, Vec3 { x: 0, y: 0, z: 0 });
    // exactly 1400 away: clear
    let eye = Vec3 { x: 5000 - 1400, y: 0, z: 0 };
    nav.tick(eye, &views);
    assert_eq!(nav.eye, eye);
    assert_eq!(nav.last_safe_eye, eye);
}

#[test]
fn first_violation_wins() {
    let mut nav = Navigator::new(Vec3 { x: 0, y: 0, z: 0 }, Vec3 { x: 0, y: 0, z: 0 });
    let a = Vec3 { x: 3000, y: 0, z: 0 };
    let b = Vec3 { x: 3100, y: 0, z: 0 };
    let views = vec![
        BodyView { position: a, radius: 400 },
        BodyView { position: b, radius: 400 },
    ];
    // inside both bubbles; the earlier body is the one aimed at
    nav.tick(Vec3 { x: 3050, y: 0, z: 0 }, &views);
    assert_eq!(nav.look_at, a);
    assert_eq!(nav.eye, Vec3 { x: 0, y: 0, z: 0 });
}

#[test]
fn views_come_from_bodies() {
    let b = OrbitingBody::new(400, 3000, 30);
    let v = b.snapshot();
    assert_eq!(v.position, b.position());
    assert_eq!(v.radius, 400);
}

use solar_nav::math::Vec3;
use solar_nav::waypoints::WaypointCatalog;

#[test]
fn standard_catalog_contents() {
    let c = WaypointCatalog::standard();
    assert_eq!(c.points.len(), 6);
    assert_eq!(c.points[0], Vec3 { x: 0, y: 0, z: 0 });
    assert_eq!(c.points[1], Vec3 { x: 3000, y: 0, z: 3000 });
    assert_eq!(c.points[2], Vec3 { x: 5000, y: 0, z: 5000 });
    assert_eq!(c.points[3], Vec3 { x: 7000, y: 0, z: 7000 });
    assert_eq!(c.points[4], Vec3 { x: 9000, y: 0, z: 9000 });
    assert_eq!(c.points[5], Vec3 { x: 12000, y: 0, z: 12000 });
}

#[test]
fn nearest_accepts_zero_distance() {
    // the observer already stands on a waypoint: that waypoint is still a
    // valid, selectable destination
    let c = WaypointCatalog::standard();
    let r = c.nearest_to(Vec3 { x: 0, y: 0, z: 0 });
    assert_eq!(r, Vec3 { x: 0, y: 0, z: 0 });
}

#[test]
fn nearest_picks_closest() {
    let c = WaypointCatalog::standard();
    let r = c.nearest_to(Vec3 { x: 8200, y: 0, z: 8200 });
    assert_eq!(r, Vec3 { x: 9000, y: 0, z: 9000 });
    let r = c.nearest_to(Vec3 { x: 11000, y: 0, z: 11500 });
    assert_eq!(r, Vec3 { x: 12000, y: 0, z: 12000 });
}

#[test]
fn nearest_tie_goes_to_earliest() {
    let points = vec![
        Vec3 { x: 1000, y: 0, z: 0 },
        Vec3 { x: 0, y: 0, z: 1000 },
        Vec3 { x: 5000, y: 0, z: 0 },
    ];
    let c = WaypointCatalog::new(points);
    // the first two are equidistant from the origin; the earlier one wins
    let r = c.nearest_to(Vec3 { x: 0, y: 0, z: 0 });
    assert_eq!(r, Vec3 { x: 1000, y: 0, z: 0 });
}

#[test]
fn nearest_with_single_waypoint() {
    let c = WaypointCatalog::new(vec![Vec3 { x: -4000, y: 2000, z: 0 }]);
    let r = c.nearest_to(Vec3 { x: 9000, y: 0, z: 9000 });
    assert_eq!(r, Vec3 { x: -4000, y: 2000, z: 0 });
}

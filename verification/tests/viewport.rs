use particle_scene::circle::{ControlCircle, RADIUS};
use particle_scene::fixed::Point;
use particle_scene::viewport::{Viewport, CSS_LIMIT};

const ONE: u32 = 65536;

#[test]
fn new_viewport_has_the_rounded_physical_size() {
    let v = Viewport::new(800, 600, ONE);
    assert_eq!((v.width(), v.height(), v.ratio()), (800, 600, ONE));
    let v = Viewport::new(801, 601, 98304);
    assert_eq!((v.width(), v.height(), v.ratio()), (1202, 902, 98304));
}

#[test]
fn center_is_half_the_physical_size() {
    let v = Viewport::new(800, 600, ONE);
    assert_eq!(v.center(), Point { x: 400 * 65536, y: 300 * 65536 });
    let v = Viewport::new(801, 601, ONE);
    assert_eq!(v.center(), Point { x: 801 * 32768, y: 601 * 32768 });
}

#[test]
fn resize_reports_a_changed_size() {
    let mut v = Viewport::new(800, 600, ONE);
    let mut c = ControlCircle::centered(&v);
    let r = v.resize(&mut c, 1024, 768, ONE);
    assert_eq!((r.width, r.height, r.changed), (1024, 768, true));
    assert_eq!((v.width(), v.height()), (1024, 768));
}

#[test]
fn resize_twice_is_a_no_op_the_second_time() {
    let mut v = Viewport::new(800, 600, ONE);
    let mut c = ControlCircle::centered(&v);
    let first = v.resize(&mut c, 1000, 500, 98304);
    assert_eq!((first.width, first.height, first.changed), (1500, 750, true));
    let second = v.resize(&mut c, 1000, 500, 98304);
    assert_eq!((second.width, second.height, second.changed), (1500, 750, false));
    assert_eq!((v.width(), v.height(), v.ratio()), (1500, 750, 98304));
}

#[test]
fn resize_to_the_same_physical_size_by_other_means_is_no_change() {
    // 400 css pixels at ratio 2 are the 800 physical pixels that are there.
    let mut v = Viewport::new(800, 600, ONE);
    let mut c = ControlCircle::centered(&v);
    let r = v.resize(&mut c, 400, 300, 2 * ONE);
    assert_eq!((r.width, r.height, r.changed), (800, 600, false));
    assert_eq!(v.ratio(), 2 * ONE);
}

#[test]
fn resize_with_one_side_changed_is_a_change() {
    let mut v = Viewport::new(800, 600, ONE);
    let mut c = ControlCircle::centered(&v);
    assert!(v.resize(&mut c, 800, 601, ONE).changed);
    assert!(v.resize(&mut c, 799, 601, ONE).changed);
    assert!(!v.resize(&mut c, 799, 601, ONE).changed);
}

#[test]
fn resize_recenters_the_circle() {
    let mut v = Viewport::new(800, 600, ONE);
    let mut c = ControlCircle::new(Point { x: 5, y: 7 }, 1234).unwrap();
    v.resize(&mut c, 1024, 768, ONE);
    assert_eq!(c.center(), Point { x: 512 * 65536, y: 384 * 65536 });
    assert_eq!(c.radius(), 1234);
}

#[test]
fn resize_recenters_the_circle_even_when_the_size_stays() {
    let mut v = Viewport::new(800, 600, ONE);
    let mut c = ControlCircle::new(Point { x: 5, y: 7 }, RADIUS).unwrap();
    let r = v.resize(&mut c, 800, 600, ONE);
    assert!(!r.changed);
    assert_eq!(c.center(), v.center());
}

#[test]
fn to_physical_multiplies_by_the_ratio() {
    let v = Viewport::new(800, 600, 2 * ONE);
    let p = v.to_physical(Point { x: 10 * 65536, y: -3 * 65536 });
    assert_eq!(p, Point { x: 20 * 65536, y: -6 * 65536 });
    let v = Viewport::new(800, 600, 98304);
    let p = v.to_physical(Point { x: 3, y: -3 });
    // 4.5 rounds away from zero
    assert_eq!(p, Point { x: 5, y: -5 });
}

#[test]
fn to_physical_at_the_limits() {
    let v = Viewport::new(1, 1, u32::MAX);
    let p = v.to_physical(Point { x: CSS_LIMIT, y: -CSS_LIMIT });
    let expect = (((CSS_LIMIT as i128) * (u32::MAX as i128) + 32768) / 65536) as i64;
    assert_eq!(p, Point { x: expect, y: -expect });
}

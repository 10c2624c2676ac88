use drop_canvas::cursor::{global_cursor, CursorWorldPosition};
use drop_canvas::math::{Ray, Scalar, Vec2, Vec3};

fn c_scalar(v: f32) -> Scalar {
    Scalar::from_bits(v.to_bits())
}

fn c_point(x: f32, y: f32) -> Vec2 {
    Vec2::new(c_scalar(x), c_scalar(y))
}

/// A ray as a 2D camera casts it: straight down the depth axis.
fn c_ray(x: f32, y: f32, z: f32) -> Ray {
    Ray {
        origin: Vec3::new(c_scalar(x), c_scalar(y), c_scalar(z)),
        direction: Vec3::new(c_scalar(0.0), c_scalar(0.0), c_scalar(-1.0)),
    }
}

#[test]
fn cursor_starts_at_world_origin() {
    let cursor = CursorWorldPosition::default();
    assert_eq!(cursor.0, Vec2::zero());
    assert_eq!(cursor.0.x.to_bits(), 0);
    assert_eq!(cursor.0.y.to_bits(), 0);
}

#[test]
fn mapped_ray_becomes_the_cursor_exactly() {
    let mut cursor = CursorWorldPosition::default();
    global_cursor(&mut cursor, Some(c_ray(12.5, -3.25, 999.9)));
    assert_eq!(cursor, CursorWorldPosition(c_point(12.5, -3.25)));
    assert_eq!(f32::from_bits(cursor.0.x.to_bits()), 12.5);
    assert_eq!(f32::from_bits(cursor.0.y.to_bits()), -3.25);
}

#[test]
fn mapped_ray_is_not_smoothed() {
    // Far from the old position, and with values that have no short binary
    // form: the new value is the sample, not a blend of old and new.
    let mut cursor = CursorWorldPosition(c_point(1000.0, 1000.0));
    global_cursor(&mut cursor, Some(c_ray(0.1, -0.3, 0.0)));
    assert_eq!(cursor.0.x.to_bits(), 0.1f32.to_bits());
    assert_eq!(cursor.0.y.to_bits(), (-0.3f32).to_bits());
}

#[test]
fn mapped_ray_depth_is_ignored() {
    let mut near = CursorWorldPosition::default();
    let mut far = CursorWorldPosition::default();
    global_cursor(&mut near, Some(c_ray(4.0, 5.0, 0.0)));
    global_cursor(&mut far, Some(c_ray(4.0, 5.0, 1000.0)));
    assert_eq!(near, far);
}

#[test]
fn absent_ray_keeps_the_cursor() {
    let mut cursor = CursorWorldPosition(c_point(7.0, 8.0));
    global_cursor(&mut cursor, None);
    assert_eq!(cursor, CursorWorldPosition(c_point(7.0, 8.0)));
}

#[test]
fn absent_ray_keeps_the_initial_cursor() {
    let mut cursor = CursorWorldPosition::default();
    global_cursor(&mut cursor, None);
    assert_eq!(cursor, CursorWorldPosition::default());
}

#[test]
fn absence_is_idempotent() {
    let mut cursor = CursorWorldPosition::default();
    global_cursor(&mut cursor, Some(c_ray(-2.0, 6.5, 1.0)));
    let seen = cursor;
    for _ in 0..5 {
        global_cursor(&mut cursor, None);
        assert_eq!(cursor, seen);
    }
}

#[test]
fn latest_ray_wins() {
    let mut cursor = CursorWorldPosition::default();
    global_cursor(&mut cursor, Some(c_ray(1.0, 1.0, 0.0)));
    global_cursor(&mut cursor, Some(c_ray(2.0, 3.0, 0.0)));
    assert_eq!(cursor.0, c_point(2.0, 3.0));
    global_cursor(&mut cursor, None);
    assert_eq!(cursor.0, c_point(2.0, 3.0));
}

#[test]
fn cursor_keeps_negative_zero_and_nan_bits() {
    let mut cursor = CursorWorldPosition::default();
    let ray = Ray {
        origin: Vec3::new(c_scalar(-0.0), Scalar::from_bits(0x7fc0_0001), c_scalar(0.0)),
        direction: Vec3::new(c_scalar(0.0), c_scalar(0.0), c_scalar(-1.0)),
    };
    global_cursor(&mut cursor, Some(ray));
    assert_eq!(cursor.0.x.to_bits(), 0x8000_0000);
    assert_eq!(cursor.0.y.to_bits(), 0x7fc0_0001);
    assert_ne!(cursor, CursorWorldPosition::default());
}

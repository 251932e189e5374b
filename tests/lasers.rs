use atomecs_demos::atoms::{MaterialColorConfig, Rgba};
use bevy::prelude::{Quat, Transform, Vec3};
use atomecs_demos::lasers::{beam_up_axis, laser_color, BeamDirection, UpAxis, BEAM_ALPHA};

fn dir(x: i32, y: i32, z: i32) -> BeamDirection {
    BeamDirection { x, y, z }
}

#[test]
fn nearly_vertical_beam_uses_horizontal_up() {
    assert_eq!(beam_up_axis(dir(0, 990_000, 140_000)), Some(UpAxis::X));
    assert_eq!(beam_up_axis(dir(0, -1, 0)), Some(UpAxis::X));
    assert_eq!(beam_up_axis(dir(0, i32::MIN, 0)), Some(UpAxis::X));
}

#[test]
fn horizontal_beam_uses_vertical_up() {
    assert_eq!(beam_up_axis(dir(1_000_000, 0, 0)), Some(UpAxis::Y));
    assert_eq!(beam_up_axis(dir(0, 0, -1)), Some(UpAxis::Y));
    assert_eq!(beam_up_axis(dir(i32::MAX, i32::MAX, i32::MIN)), Some(UpAxis::Y));
}

#[test]
fn up_switch_near_cosine_nine_tenths() {
    // y = 9, |d|^2 = 99: cosine just above 0.9
    assert_eq!(beam_up_axis(dir(3, 9, 3)), Some(UpAxis::X));
    // y = 9, |d|^2 = 101: cosine just below 0.9
    assert_eq!(beam_up_axis(dir(4, 9, 2)), Some(UpAxis::Y));
    assert_eq!(beam_up_axis(dir(-4, -9, -2)), Some(UpAxis::Y));
}

#[test]
fn zero_direction_has_no_up() {
    assert_eq!(beam_up_axis(dir(0, 0, 0)), None);
}

#[test]
fn beam_color_is_translucent() {
    let cfg = MaterialColorConfig::default();
    assert_eq!(laser_color(780_000, &cfg), Rgba { red: 1_000_000, green: 0, blue: 0, alpha: 50_000 });
    assert_eq!(
        laser_color(461_000, &MaterialColorConfig { factor: 3_000_000 }),
        Rgba { red: 0, green: 0, blue: 3_000_000, alpha: BEAM_ALPHA }
    );
}

#[test]
fn nearly_vertical_beam_rotation_is_unit() {
    let d = Vec3::new(0.0, 0.99, 0.14).normalize();
    let axis = beam_up_axis(dir((d.x * 1e6).round() as i32, (d.y * 1e6).round() as i32, (d.z * 1e6).round() as i32));
    let up = match axis {
        Some(UpAxis::X) => Vec3::X,
        Some(UpAxis::Y) => Vec3::Y,
        None => panic!("a nonzero direction has an up reference"),
    };
    assert_eq!(up, Vec3::X);
    let q = Transform::default().looking_at(d, up).rotation * Quat::from_rotation_x(std::f32::consts::PI / 2.0);
    assert!(q.is_finite());
    assert!((q.length() - 1.0).abs() < 1e-5);
}

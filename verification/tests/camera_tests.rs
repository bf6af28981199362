use viewer3d::camera::{Camera, Quat, Vec3};
use viewer3d::mat::Mat4;

/// 90 degrees about the +Z axis: both nonzero components are
/// sin(45deg) = cos(45deg) in fixed point.
fn z_quarter_turn() -> Quat {
    Quat { x: 0, y: 0, z: 2896, w: 2896 }
}

fn to_grid(m: &Mat4) -> [[i64; 4]; 4] {
    [
        [m.m00, m.m01, m.m02, m.m03],
        [m.m10, m.m11, m.m12, m.m13],
        [m.m20, m.m21, m.m22, m.m23],
        [m.m30, m.m31, m.m32, m.m33],
    ]
}

fn fx(a: i64, b: i64) -> i64 {
    (a * b) / 4096
}

fn grid_mul(a: [[i64; 4]; 4], b: [[i64; 4]; 4]) -> [[i64; 4]; 4] {
    let mut r = [[0i64; 4]; 4];
    for i in 0..4 {
        for j in 0..4 {
            r[i][j] = fx(a[i][0], b[0][j]) + fx(a[i][1], b[1][j]) + fx(a[i][2], b[2][j]) + fx(
                a[i][3],
                b[3][j],
            );
        }
    }
    r
}

#[test]
fn fresh_camera_is_at_origin_with_unit_orientation() {
    let c = Camera::new(4096, 3195, 410, 409600);
    assert_eq!(c.pos, Vec3 { x: 0, y: 0, z: 0 });
    assert_eq!(c.rot, Quat { x: 0, y: 0, z: 0, w: 4096 });
    let q = c.rot;
    assert_eq!(q.x * q.x + q.y * q.y + q.z * q.z + q.w * q.w, 4096 * 4096);
}

#[test]
fn fresh_camera_projection_is_a_true_perspective() {
    let c = Camera::new(4096, 3195, 410, 409600);
    // Perspective-divide row: nonzero, so this is no identity or orthographic.
    assert_eq!(c.proj.m32, -4096);
    assert_eq!(c.proj.m00, 10004);
    assert_eq!(c.proj.m11, 10004);
    assert_eq!(c.proj.m22, -4104);
    assert_eq!(c.proj.m23, -820);
    assert_eq!(c.proj.m01, 0);
    assert_eq!(c.proj.m33, 0);
}

#[test]
fn view_proj_composes_translation_rotation_projection() {
    let mut c = Camera::new(8192, 3195, 410, 409600);
    c.set_orientation(z_quarter_turn());
    c.translate_from_pixels(1000, -500);
    let expected = grid_mul(
        to_grid(&c.to_translation()),
        grid_mul(to_grid(&c.to_rot()), to_grid(&c.proj)),
    );
    let vp = to_grid(&c.to_view_proj());
    assert_eq!(vp, expected);
    // The reversed composition differs on this input: the order matters.
    let reversed = grid_mul(
        grid_mul(to_grid(&c.proj), to_grid(&c.to_rot())),
        to_grid(&c.to_translation()),
    );
    assert_ne!(vp, reversed);
}

#[test]
fn translate_by_zero_is_a_noop() {
    let mut c = Camera::new(4096, 3195, 410, 409600);
    c.translate_from_pixels(300, 700);
    let before = c;
    c.translate_from_pixels(0, 0);
    assert_eq!(c, before);
}

#[test]
fn translate_follows_the_current_orientation() {
    let mut straight = Camera::new(4096, 3195, 410, 409600);
    straight.translate_from_pixels(10, 27);
    assert_eq!(straight.pos, Vec3 { x: 10, y: 27, z: 0 });

    let mut turned = Camera::new(4096, 3195, 410, 409600);
    turned.set_orientation(z_quarter_turn());
    turned.translate_from_pixels(10, 27);
    assert_eq!(turned.pos, Vec3 { x: -26, y: 9, z: 0 });
}

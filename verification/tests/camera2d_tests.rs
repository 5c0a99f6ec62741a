//! Behavior of the two-dimensional camera: defaults, the orthographic
//! clamp's machine-epsilon floor, the projection cache, and the affine view.

use camera_components::matrix;
use camera_components::Camera2D;
use camera_components::Projection2DTask;

fn bits6(m: [f32; 6]) -> [u32; 6] {
    m.map(f32::to_bits)
}

fn floats6(m: [u32; 6]) -> [f32; 6] {
    m.map(f32::from_bits)
}

fn bits16(m: [f32; 16]) -> [u32; 16] {
    m.map(f32::to_bits)
}

fn projection2d(cam: &mut Camera2D) -> [u32; 6] {
    match cam.get_projection() {
        Some(m) => m,
        None => {
            let Projection2DTask { size, aspect } = cam.projection_task();
            let top = f32::from_bits(size);
            let right = top * f32::from_bits(aspect);
            let mut out = [0f32; 6];
            mat32::orthographic(&mut out, &top, &right, &-top, &-right);
            let m = bits6(out);
            cam.update_projection(m);
            m
        }
    }
}

#[test]
fn defaults_2d() {
    let c = Camera2D::new();
    assert_eq!(c.get_width(), 512);
    assert_eq!(c.get_height(), 512);
    assert_eq!(c.inv_width, (1f32 / 512f32).to_bits());
    assert_eq!(c.inv_height, (1f32 / 512f32).to_bits());
    assert_eq!(c.aspect, 1f32.to_bits());
    assert_eq!(c.get_orthographic_size(), 2f32.to_bits());
    assert!(c.get_auto_resize());
    assert_eq!(c.get_background(), [0, 0, 0, 1f32.to_bits()]);
    assert!(c.active());
    assert!(!c.get_manager());
    assert_eq!(c.get_entity(), None);
    assert!(c.needs_update);
    assert_eq!(floats6(c.projection), [1f32, 0f32, 0f32, 1f32, 0f32, 0f32]);
}

#[test]
fn orthographic_size_clamped_2d() {
    let mut c = Camera2D::new();
    // Non-positive values fall to the machine epsilon; a small positive
    // value stands as supplied (the two-dimensional clamp floors at zero,
    // not at 1e-4).
    c.set_orthographic_size((-1f32).to_bits());
    assert_eq!(c.get_orthographic_size(), f32::EPSILON.to_bits());
    assert!(f32::from_bits(c.get_orthographic_size()) > 0f32);
    c.set_orthographic_size(0f32.to_bits());
    assert_eq!(c.get_orthographic_size(), f32::EPSILON.to_bits());
    c.set_orthographic_size(5e-5f32.to_bits());
    assert_eq!(c.get_orthographic_size(), 5e-5f32.to_bits());
    c.set_orthographic_size(0.5f32.to_bits());
    assert_eq!(c.get_orthographic_size(), 0.5f32.to_bits());
}

#[test]
fn projection_cache_2d() {
    let mut c = Camera2D::new();
    let first = projection2d(&mut c);

    let mut expected = [0f32; 6];
    mat32::orthographic(&mut expected, &2f32, &2f32, &-2f32, &-2f32);
    assert_eq!(floats6(first), expected);

    // Idempotent while no setter runs.
    assert!(c.get_projection().is_some());
    let second = projection2d(&mut c);
    assert_eq!(first, second);

    // A size change forces a recomputation that reflects it.
    c.set_orthographic_size(1f32.to_bits());
    assert_eq!(c.get_projection(), None);
    let third = projection2d(&mut c);
    assert_ne!(second, third);

    // Cosmetic setters leave the cache readable and unchanged.
    c.set_auto_resize(false);
    c.set_background([0, 0, 0, 0]);
    assert_eq!(c.get_projection(), Some(third));
}

#[test]
fn view_identity_and_inverse_2d() {
    let mut c = Camera2D::new();
    let v = c.get_view(None);
    assert_eq!(floats6(v), [1f32, 0f32, 0f32, 1f32, 0f32, 0f32]);

    let world = [1f32, 0f32, 0f32, 1f32, 10f32, 10f32];
    let mut inv = [0f32; 6];
    mat32::inv(&mut inv, &world);
    let v = c.get_view(Some(&bits6(inv)));
    assert_eq!(floats6(v), [1f32, 0f32, 0f32, 1f32, -10f32, -10f32]);
}

#[test]
fn world_matrix_prefers_transform2d() {
    let t2 = bits6([1f32, 0f32, 0f32, 1f32, 5f32, 6f32]);
    let t3 = bits16([
        1f32, 0f32, 0f32, 0f32,
        0f32, 1f32, 0f32, 0f32,
        0f32, 0f32, 1f32, 0f32,
        7f32, 8f32, 9f32, 1f32,
    ]);
    assert_eq!(Camera2D::get_world_matrix(Some(t2), Some(t3)), Some(t2));
    assert_eq!(Camera2D::get_world_matrix(Some(t2), None), Some(t2));
    assert_eq!(Camera2D::get_world_matrix(None, None), None);

    // The fallback picks the affine part out of the 4x4 matrix, exactly as
    // the matrix library does.
    let picked = Camera2D::get_world_matrix(None, Some(t3)).unwrap();
    let mut expected = [0f32; 6];
    mat32::set_mat4(&mut expected, &[
        1f32, 0f32, 0f32, 0f32,
        0f32, 1f32, 0f32, 0f32,
        0f32, 0f32, 1f32, 0f32,
        7f32, 8f32, 9f32, 1f32,
    ]);
    assert_eq!(picked, bits6(expected));
    assert_eq!(matrix::affine_of_mat4(&t3), bits6(expected));
}

#[test]
fn viewport_set_2d() {
    let mut c = Camera2D::new();
    let derived = camera_components::scalar::pow2_viewport_scalars(256, 1024).unwrap();
    c.set(256, 1024, derived);
    assert_eq!(c.inv_width, (1f32 / 256f32).to_bits());
    assert_eq!(c.inv_height, (1f32 / 1024f32).to_bits());
    assert_eq!(c.aspect, (256f32 / 1024f32).to_bits());
    assert!(c.needs_update);

    c.set_width(128, (1f32 / 128f32).to_bits(), (128f32 / 1024f32).to_bits());
    assert_eq!(c.get_width(), 128);
    assert_eq!(c.aspect, 0.125f32.to_bits());
    c.set_height(64, (1f32 / 64f32).to_bits(), (128f32 / 64f32).to_bits());
    assert_eq!(c.get_height(), 64);
    assert_eq!(c.aspect, 2f32.to_bits());
}

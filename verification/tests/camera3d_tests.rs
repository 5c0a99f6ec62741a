//! Behavior of the three-dimensional camera: defaults, derived viewport
//! scalars, threshold handling, and the projection cache.

use camera_components::scalar;
use camera_components::Camera3D;
use camera_components::ProjectionTask;

fn bits16(m: [f32; 16]) -> [u32; 16] {
    m.map(f32::to_bits)
}

fn floats16(m: [u32; 16]) -> [f32; 16] {
    m.map(f32::from_bits)
}

fn projection3d(cam: &mut Camera3D) -> [u32; 16] {
    match cam.get_projection() {
        Some(m) => m,
        None => {
            let m = match cam.projection_task() {
                ProjectionTask::Perspective { fov, aspect, near, far } => {
                    let mut out = [0f32; 16];
                    mat4::perspective(
                        &mut out,
                        &f32::from_bits(fov).to_radians(),
                        &f32::from_bits(aspect),
                        &f32::from_bits(near),
                        &f32::from_bits(far),
                    );
                    bits16(out)
                }
                ProjectionTask::Orthographic { size, aspect, near, far } => {
                    let top = f32::from_bits(size);
                    let right = top * f32::from_bits(aspect);
                    let mut out = [0f32; 16];
                    mat4::orthographic(
                        &mut out,
                        &top,
                        &right,
                        &-top,
                        &-right,
                        &f32::from_bits(near),
                        &f32::from_bits(far),
                    );
                    bits16(out)
                }
            };
            cam.update_projection(m);
            m
        }
    }
}

#[test]
fn defaults_3d() {
    let c = Camera3D::new();
    assert_eq!(c.get_width(), 512);
    assert_eq!(c.get_height(), 512);
    assert_eq!(c.inv_width, (1f32 / 512f32).to_bits());
    assert_eq!(c.inv_height, (1f32 / 512f32).to_bits());
    assert_eq!(c.aspect, 1f32.to_bits());
    assert_eq!(c.get_fov(), 35f32.to_bits());
    assert_eq!(c.get_near(), 0.001f32.to_bits());
    assert_eq!(c.get_far(), 1000f32.to_bits());
    assert_eq!(c.get_orthographic_size(), 2f32.to_bits());
    assert!(!c.get_orthographic_mode());
    assert!(c.get_auto_resize());
    assert_eq!(c.get_background(), [0, 0, 0, 1f32.to_bits()]);
    assert!(c.active());
    assert!(!c.get_manager());
    assert_eq!(c.get_entity(), None);
    assert!(c.needs_update);
    assert_eq!(
        floats16(c.projection),
        [
            1f32, 0f32, 0f32, 0f32,
            0f32, 1f32, 0f32, 0f32,
            0f32, 0f32, 1f32, 0f32,
            0f32, 0f32, 0f32, 1f32
        ]
    );
}

#[test]
fn viewport_set_stores_derived_scalars() {
    let mut c = Camera3D::new();
    let derived = scalar::pow2_viewport_scalars(512, 256).unwrap();
    c.set(512, 256, derived);
    assert_eq!(c.get_width(), 512);
    assert_eq!(c.get_height(), 256);
    assert_eq!(c.inv_width, (1f32 / 512f32).to_bits());
    assert_eq!(c.inv_height, (1f32 / 256f32).to_bits());
    assert_eq!(c.aspect, (512f32 / 256f32).to_bits());
    assert!(c.needs_update);

    // Dimensions that are no powers of two: the host computes the scalars.
    let inv_w = (1f32 / 800f32).to_bits();
    let inv_h = (1f32 / 600f32).to_bits();
    let aspect = (800f32 / 600f32).to_bits();
    c.set(
        800,
        600,
        scalar::ViewportScalars { inv_width: inv_w, inv_height: inv_h, aspect },
    );
    assert_eq!(c.inv_width, inv_w);
    assert_eq!(c.inv_height, inv_h);
    assert_eq!(c.aspect, aspect);
}

#[test]
fn set_width_and_height_update_aspect() {
    let mut c = Camera3D::new();
    c.set_width(1024, (1f32 / 1024f32).to_bits(), (1024f32 / 512f32).to_bits());
    assert_eq!(c.get_width(), 1024);
    assert_eq!(c.inv_width, (1f32 / 1024f32).to_bits());
    assert_eq!(c.aspect, 2f32.to_bits());
    c.set_height(2048, (1f32 / 2048f32).to_bits(), (1024f32 / 2048f32).to_bits());
    assert_eq!(c.get_height(), 2048);
    assert_eq!(c.inv_height, (1f32 / 2048f32).to_bits());
    assert_eq!(c.aspect, 0.5f32.to_bits());
}

#[test]
fn near_rejects_values_below_floor() {
    let mut c = Camera3D::new();
    let before = c.get_near();
    c.set_near(0f32.to_bits());
    assert_eq!(c.get_near(), before);
    c.set_near((-2f32).to_bits());
    assert_eq!(c.get_near(), before);
    c.set_near(5e-5f32.to_bits());
    assert_eq!(c.get_near(), before);
    c.set_near(f32::NAN.to_bits());
    assert_eq!(c.get_near(), before);
    c.set_near(1e-4f32.to_bits());
    assert_eq!(c.get_near(), 1e-4f32.to_bits());
    c.set_near(2.5f32.to_bits());
    assert_eq!(c.get_near(), 2.5f32.to_bits());
}

#[test]
fn orthographic_size_clamped_3d() {
    let mut c = Camera3D::new();
    c.set_orthographic_size((-1f32).to_bits());
    assert_eq!(c.get_orthographic_size(), 1e-4f32.to_bits());
    assert!(f32::from_bits(c.get_orthographic_size()) > 0f32);
    c.set_orthographic_size(0f32.to_bits());
    assert_eq!(c.get_orthographic_size(), 1e-4f32.to_bits());
    c.set_orthographic_size(5e-5f32.to_bits());
    assert_eq!(c.get_orthographic_size(), 1e-4f32.to_bits());
    c.set_orthographic_size(0.5f32.to_bits());
    assert_eq!(c.get_orthographic_size(), 0.5f32.to_bits());
}

#[test]
fn projection_idempotent_3d() {
    let mut c = Camera3D::new();
    let first = projection3d(&mut c);
    // No setter ran in between: the second read serves the cache.
    assert!(c.get_projection().is_some());
    let second = projection3d(&mut c);
    assert_eq!(first, second);
}

#[test]
fn dirty_propagation_3d() {
    let mut c = Camera3D::new();
    let first = projection3d(&mut c);

    // A projection-affecting setter makes the cache unreadable until the
    // matrix is recomputed, and the recomputation reflects the new value.
    c.set_fov(60f32.to_bits());
    assert_eq!(c.get_projection(), None);
    let second = projection3d(&mut c);
    assert_ne!(first, second);

    // Cosmetic setters do not force a recomputation.
    c.set_auto_resize(false);
    c.set_background([0, 0, 0, 0]);
    assert!(!c.needs_update);
    assert_eq!(c.get_projection(), Some(second));
}

#[test]
fn orthographic_projection_3d() {
    let mut c = Camera3D::new();
    c.set_orthographic_mode(true);
    assert_eq!(c.get_projection(), None);
    let m = projection3d(&mut c);

    let mut expected = [0f32; 16];
    // size 2, aspect 1, near 0.001, far 1000 are the defaults.
    mat4::orthographic(&mut expected, &2f32, &2f32, &-2f32, &-2f32, &0.001f32, &1000f32);
    assert_eq!(floats16(m), expected);

    c.set_orthographic_mode(false);
    let back = projection3d(&mut c);
    assert_ne!(m, back);
}

#[test]
fn view_identity_without_transform() {
    let mut c = Camera3D::new();
    let v = c.get_view(None);
    assert_eq!(
        floats16(v),
        [
            1f32, 0f32, 0f32, 0f32,
            0f32, 1f32, 0f32, 0f32,
            0f32, 0f32, 1f32, 0f32,
            0f32, 0f32, 0f32, 1f32
        ]
    );
}

#[test]
fn view_is_world_inverse() {
    let mut c = Camera3D::new();
    let world = [
        1f32, 0f32, 0f32, 0f32,
        0f32, 1f32, 0f32, 0f32,
        0f32, 0f32, 1f32, 0f32,
        3f32, 4f32, 5f32, 1f32,
    ];
    let mut inv = [0f32; 16];
    mat4::inv(&mut inv, &world);
    let v = c.get_view(Some(&bits16(inv)));
    assert_eq!(
        floats16(v),
        [
            1f32, 0f32, 0f32, 0f32,
            0f32, 1f32, 0f32, 0f32,
            0f32, 0f32, 1f32, 0f32,
            -3f32, -4f32, -5f32, 1f32
        ]
    );
    assert_eq!(c.view, v);
}

#[test]
fn world_matrix_prefers_transform3d() {
    let a = bits16([
        2f32, 0f32, 0f32, 0f32,
        0f32, 2f32, 0f32, 0f32,
        0f32, 0f32, 2f32, 0f32,
        0f32, 0f32, 0f32, 1f32,
    ]);
    let b = bits16([
        1f32, 0f32, 0f32, 0f32,
        0f32, 1f32, 0f32, 0f32,
        0f32, 0f32, 1f32, 0f32,
        7f32, 8f32, 0f32, 1f32,
    ]);
    assert_eq!(Camera3D::get_world_matrix(Some(a), Some(b)), Some(a));
    assert_eq!(Camera3D::get_world_matrix(None, Some(b)), Some(b));
    assert_eq!(Camera3D::get_world_matrix(Some(a), None), Some(a));
    assert_eq!(Camera3D::get_world_matrix(None, None), None);
}

#[test]
fn set_active_on_detached_camera() {
    let mut c = Camera3D::new();
    c.active = false;
    assert!(!c.active());
    c.set_active();
    assert!(c.active());
}

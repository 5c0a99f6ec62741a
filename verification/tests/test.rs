//! End-to-end scenario: one manager, one entity holding an active
//! three-dimensional camera and a two-dimensional transform at (10, 10).

use camera_components::Camera3D;
use camera_components::Camera3DManager;
use camera_components::ProjectionTask;

fn bits16(m: [f32; 16]) -> [u32; 16] {
    m.map(f32::to_bits)
}

fn floats16(m: [u32; 16]) -> [f32; 16] {
    m.map(f32::from_bits)
}

/// The host's projection driver: serve the cached matrix, or run the matrix
/// library on the camera's task and store the result.
fn projection3d(cam: &mut Camera3D) -> [u32; 16] {
    match cam.get_projection() {
        Some(m) => m,
        None => {
            let m = match cam.projection_task() {
                ProjectionTask::Perspective { fov, aspect, near, far } => {
                    let mut out = [0f32; 16];
                    mat4::perspective(
                        &mut out,
                        &f32::from_bits(fov).to_radians(),
                        &f32::from_bits(aspect),
                        &f32::from_bits(near),
                        &f32::from_bits(far),
                    );
                    bits16(out)
                }
                ProjectionTask::Orthographic { size, aspect, near, far } => {
                    let top = f32::from_bits(size);
                    let right = top * f32::from_bits(aspect);
                    let mut out = [0f32; 16];
                    mat4::orthographic(
                        &mut out,
                        &top,
                        &right,
                        &-top,
                        &-right,
                        &f32::from_bits(near),
                        &f32::from_bits(far),
                    );
                    bits16(out)
                }
            };
            cam.update_projection(m);
            m
        }
    }
}

/// The host's view driver: invert the world matrix and hand the inverse in.
fn view3d(cam: &mut Camera3D, world: Option<[u32; 16]>) -> [u32; 16] {
    match world {
        Some(w) => {
            let mut inv = [0f32; 16];
            mat4::inv(&mut inv, &floats16(w));
            let inv = bits16(inv);
            cam.get_view(Some(&inv))
        }
        None => cam.get_view(None),
    }
}

#[test]
fn test_scene() {
    let mut manager = Camera3DManager::new();
    let mut camera3d = Camera3D::new();
    camera3d.set_active();
    camera3d.set_entity(Some(1));

    // The entity's two-dimensional transform at position (10, 10), widened
    // to the 4x4 world matrix the host resolves for it.
    let transform2d = bits16([
        1f32, 0f32, 0f32, 0f32,
        0f32, 1f32, 0f32, 0f32,
        0f32, 0f32, 1f32, 0f32,
        10f32, 10f32, 0f32, 1f32,
    ]);

    let id = manager.add_component(camera3d);
    let active = manager.get_active_camera().unwrap();
    let mut entity_camera3d = manager.get_camera(active).unwrap();

    let world = Camera3D::get_world_matrix(None, Some(transform2d));
    let view = view3d(&mut entity_camera3d, world);
    assert_eq!(
        floats16(view),
        [
            1f32, 0f32, 0f32, 0f32,
            0f32, 1f32, 0f32, 0f32,
            0f32, 0f32, 1f32, 0f32,
            -10f32, -10f32, 0f32, 1f32
        ]
    );

    let projection = projection3d(&mut entity_camera3d);
    assert_eq!(
        floats16(projection),
        [
            3.1715946f32, 0f32, 0f32, 0f32,
            0f32, 3.1715946f32, 0f32, 0f32,
            0f32, 0f32, -1.0000019f32, -1f32,
            0f32, 0f32, -0.002000002f32, 0f32
        ]
    );

    manager.set_camera(id, entity_camera3d);
}

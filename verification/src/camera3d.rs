//! A camera that projects three-dimensional scenes: perspective by default,
//! orthographic on request.
//!
//! The camera stores its configuration, the bit patterns of derived scalars
//! the host computed for it, and a cached projection matrix guarded by a
//! dirty flag. The projection formula itself runs in the host's matrix
//! library; the camera decides exactly when it must run (`get_projection`
//! refuses to serve a stale matrix) and with which parameters
//! (`projection_task`), and stores the result (`update_projection`).

use vstd::prelude::*;
use crate::matrix;
use crate::scalar;
use crate::scalar::ViewportScalars;

verus! {

/// Default viewport edge in pixels.
pub const DEFAULT_DIMENSION: usize = 512;

/// Bit pattern of 1/512, the reciprocal of the default viewport edge.
pub const DEFAULT_INV_DIMENSION: u32 = 0x3B00_0000;

/// Bit pattern of 35.0, the default field of view in degrees.
pub const DEFAULT_FOV: u32 = 0x420C_0000;

/// Bit pattern of 2.0, the default orthographic size.
pub const DEFAULT_ORTHOGRAPHIC_SIZE: u32 = 0x4000_0000;

/// Bit pattern of 0.001, the default near-plane distance.
pub const DEFAULT_NEAR: u32 = 0x3A83_126F;

/// Bit pattern of 1000.0, the default far-plane distance.
pub const DEFAULT_FAR: u32 = 0x447A_0000;

/// What the host's matrix library must compute to refresh a stale projection:
/// the formula the camera's mode selects, with the scalars it is to be fed.
/// Degrees-to-radians conversion and the orthographic frustum edges
/// (`right = size * aspect`, `left = -right`, `top = size`, `bottom = -top`)
/// are the host's arithmetic.
#[derive(Clone, Copy, PartialEq, Eq, Structural, Debug)]
pub enum ProjectionTask {
    /// A perspective projection from a field of view in degrees, an aspect
    /// ratio and the two clip planes.
    Perspective { fov: u32, aspect: u32, near: u32, far: u32 },
    /// An orthographic projection from the frustum half-height, an aspect
    /// ratio and the two clip planes.
    Orthographic { size: u32, aspect: u32, near: u32, far: u32 },
}

/// Per-camera state. Scalar fields hold IEEE 754 single-precision bit
/// patterns (see `scalar`); `width` and `height` are pixel counts.
///
/// `id` and `manager` belong to the registration protocol: a manager stamps
/// `id` and sets `manager` when the camera is added to its registry, and
/// clears `manager` when it is removed. A camera held outside a registry has
/// `manager == false`.
#[derive(Clone, Copy)]
pub struct Camera3D {
    /// Identifier of the owning entity, if the host attached one.
    pub entity: Option<u64>,
    /// Whether the camera is registered with a manager.
    pub manager: bool,
    /// Registry identifier, stamped by the manager on registration.
    pub id: u64,
    /// Viewport width in pixels.
    pub width: usize,
    /// Viewport height in pixels.
    pub height: usize,
    /// Bit pattern of 1/width, supplied by the host alongside `width`.
    pub inv_width: u32,
    /// Bit pattern of 1/height, supplied by the host alongside `height`.
    pub inv_height: u32,
    /// Consumed by the host's viewport-resize handling; cosmetic here.
    pub auto_resize: bool,
    /// Background color, four bit-pattern components; cosmetic here.
    pub background: [u32; 4],
    /// Bit pattern of width/height, supplied by the host.
    pub aspect: u32,
    /// Bit pattern of the field of view in degrees.
    pub fov: u32,
    /// Selects the orthographic formula instead of the perspective one.
    pub orthographic_mode: bool,
    /// Bit pattern of the orthographic frustum half-height; kept strictly
    /// positive by `set_orthographic_size`.
    pub orthographic_size: u32,
    /// Bit pattern of the near-plane distance; kept at or above 1e-4 by
    /// `set_near`.
    pub near: u32,
    /// Bit pattern of the far-plane distance.
    pub far: u32,
    /// Cached projection matrix, valid only while `needs_update` is false.
    pub projection: [u32; 16],
    /// View matrix from the last `get_view` call.
    pub view: [u32; 16],
    /// True when a parameter feeding the projection formula changed since the
    /// cached projection was stored.
    pub needs_update: bool,
    /// Whether this is the camera its manager designates as current.
    pub active: bool,
}

impl Camera3D {
    /// The formula and scalars a recomputation of the projection must use.
    pub open spec fn spec_projection_task(self) -> ProjectionTask {
        if self.orthographic_mode {
            ProjectionTask::Orthographic {
                size: self.orthographic_size,
                aspect: self.aspect,
                near: self.near,
                far: self.far,
            }
        } else {
            ProjectionTask::Perspective {
                fov: self.fov,
                aspect: self.aspect,
                near: self.near,
                far: self.far,
            }
        }
    }

    /// What a read of the cached projection yields: the matrix while it is
    /// fresh, nothing while it is stale.
    pub open spec fn spec_get_projection(self) -> Option<[u32; 16]> {
        if self.needs_update {
            None
        } else {
            Some(self.projection)
        }
    }

    /// A fresh camera: 512x512 viewport, 35-degree perspective, clip planes
    /// 0.001 and 1000, orthographic size 2, black background, identity
    /// matrices, stale projection, active, unregistered.
    pub fn new() -> (c: Camera3D)
        ensures
            c.entity is None,
            !c.manager,
            c.id == 0,
            c.width == DEFAULT_DIMENSION,
            c.height == DEFAULT_DIMENSION,
            c.inv_width == DEFAULT_INV_DIMENSION,
            c.inv_height == DEFAULT_INV_DIMENSION,
            c.auto_resize,
            c.background@ == seq![0u32, 0u32, 0u32, scalar::ONE],
            c.aspect == scalar::ONE,
            c.fov == DEFAULT_FOV,
            !c.orthographic_mode,
            c.orthographic_size == DEFAULT_ORTHOGRAPHIC_SIZE,
            c.near == DEFAULT_NEAR,
            c.far == DEFAULT_FAR,
            c.projection@ == matrix::identity4_bits(),
            c.view@ == matrix::identity4_bits(),
            c.needs_update,
            c.active,
    {
        let background = [0u32, 0u32, 0u32, scalar::ONE];
        proof {
            assert(background@ =~= seq![0u32, 0u32, 0u32, scalar::ONE]);
        }
        Camera3D {
            entity: None,
            manager: false,
            id: 0,
            width: DEFAULT_DIMENSION,
            height: DEFAULT_DIMENSION,
            inv_width: DEFAULT_INV_DIMENSION,
            inv_height: DEFAULT_INV_DIMENSION,
            auto_resize: true,
            background,
            aspect: scalar::ONE,
            fov: DEFAULT_FOV,
            orthographic_mode: false,
            orthographic_size: DEFAULT_ORTHOGRAPHIC_SIZE,
            near: DEFAULT_NEAR,
            far: DEFAULT_FAR,
            projection: matrix::identity4(),
            view: matrix::identity4(),
            needs_update: true,
            active: true,
        }
    }

    /// Resizes the viewport. The host supplies the derived scalars for the
    /// new dimensions (reciprocals and aspect ratio); the projection is
    /// marked stale.
    pub fn set(&mut self, width: usize, height: usize, derived: ViewportScalars)
        ensures
            *final(self) == (Camera3D {
                width,
                height,
                inv_width: derived.inv_width,
                inv_height: derived.inv_height,
                aspect: derived.aspect,
                needs_update: true,
                ..*old(self)
            }),
    {
        self.width = width;
        self.height = height;
        self.inv_width = derived.inv_width;
        self.inv_height = derived.inv_height;
        self.aspect = derived.aspect;
        self.needs_update = true;
    }

    /// Sets the viewport width alone; the host supplies the new reciprocal
    /// and the aspect ratio against the unchanged height.
    pub fn set_width(&mut self, width: usize, inv_width: u32, aspect: u32)
        ensures
            *final(self) == (Camera3D {
                width,
                inv_width,
                aspect,
                needs_update: true,
                ..*old(self)
            }),
    {
        self.width = width;
        self.inv_width = inv_width;
        self.aspect = aspect;
        self.needs_update = true;
    }

    /// Sets the viewport height alone; the host supplies the new reciprocal
    /// and the aspect ratio against the unchanged width.
    pub fn set_height(&mut self, height: usize, inv_height: u32, aspect: u32)
        ensures
            *final(self) == (Camera3D {
                height,
                inv_height,
                aspect,
                needs_update: true,
                ..*old(self)
            }),
    {
        self.height = height;
        self.inv_height = inv_height;
        self.aspect = aspect;
        self.needs_update = true;
    }

    /// Viewport width in pixels.
    pub fn get_width(&self) -> (r: usize)
        ensures
            r == self.width,
    {
        self.width
    }

    /// Viewport height in pixels.
    pub fn get_height(&self) -> (r: usize)
        ensures
            r == self.height,
    {
        self.height
    }

    /// Sets the field of view in degrees and marks the projection stale.
    pub fn set_fov(&mut self, fov: u32)
        ensures
            *final(self) == (Camera3D { fov, needs_update: true, ..*old(self) }),
    {
        self.fov = fov;
        self.needs_update = true;
    }

    /// Field of view in degrees.
    pub fn get_fov(&self) -> (r: u32)
        ensures
            r == self.fov,
    {
        self.fov
    }

    /// Sets the near plane if the supplied value is at least 1e-4, and
    /// rejects it silently otherwise; the projection is marked stale either
    /// way.
    pub fn set_near(&mut self, near: u32)
        ensures
            *final(self) == (Camera3D {
                near: if scalar::is_at_least_min(near) { near } else { old(self).near },
                needs_update: true,
                ..*old(self)
            }),
    {
        if scalar::at_least_min(near) {
            self.near = near;
        }
        self.needs_update = true;
    }

    /// Near-plane distance.
    pub fn get_near(&self) -> (r: u32)
        ensures
            r == self.near,
    {
        self.near
    }

    /// Sets the far plane and marks the projection stale.
    pub fn set_far(&mut self, far: u32)
        ensures
            *final(self) == (Camera3D { far, needs_update: true, ..*old(self) }),
    {
        self.far = far;
        self.needs_update = true;
    }

    /// Far-plane distance.
    pub fn get_far(&self) -> (r: u32)
        ensures
            r == self.far,
    {
        self.far
    }

    /// Switches between the orthographic and perspective formulas and marks
    /// the projection stale.
    pub fn set_orthographic_mode(&mut self, orthographic_mode: bool)
        ensures
            *final(self) == (Camera3D {
                orthographic_mode,
                needs_update: true,
                ..*old(self)
            }),
    {
        self.orthographic_mode = orthographic_mode;
        self.needs_update = true;
    }

    /// Whether the orthographic formula is selected.
    pub fn get_orthographic_mode(&self) -> (r: bool)
        ensures
            r == self.orthographic_mode,
    {
        self.orthographic_mode
    }

    /// Sets the orthographic half-height, clamping any value not strictly
    /// above 1e-4 up to 1e-4, and marks the projection stale. The stored
    /// value is always strictly positive.
    pub fn set_orthographic_size(&mut self, orthographic_size: u32)
        ensures
            *final(self) == (Camera3D {
                orthographic_size: if scalar::is_above_min(orthographic_size) {
                    orthographic_size
                } else {
                    scalar::MIN_SCALAR
                },
                needs_update: true,
                ..*old(self)
            }),
            scalar::is_strictly_positive(final(self).orthographic_size),
    {
        self.orthographic_size = if scalar::above_min(orthographic_size) {
            orthographic_size
        } else {
            scalar::MIN_SCALAR
        };
        self.needs_update = true;
    }

    /// Orthographic half-height.
    pub fn get_orthographic_size(&self) -> (r: u32)
        ensures
            r == self.orthographic_size,
    {
        self.orthographic_size
    }

    /// Sets the resize flag; cosmetic, so the projection stays as it was.
    pub fn set_auto_resize(&mut self, auto_resize: bool)
        ensures
            *final(self) == (Camera3D { auto_resize, ..*old(self) }),
    {
        self.auto_resize = auto_resize;
    }

    /// The resize flag.
    pub fn get_auto_resize(&self) -> (r: bool)
        ensures
            r == self.auto_resize,
    {
        self.auto_resize
    }

    /// Sets the background color; cosmetic, so the projection stays as it
    /// was.
    pub fn set_background(&mut self, background: [u32; 4])
        ensures
            *final(self) == (Camera3D { background, ..*old(self) }),
    {
        self.background = background;
    }

    /// The background color.
    pub fn get_background(&self) -> (r: [u32; 4])
        ensures
            r == self.background,
    {
        self.background
    }

    /// Whether this camera is its manager's current one.
    pub fn active(&self) -> (r: bool)
        ensures
            r == self.active,
    {
        self.active
    }

    /// Activates a camera that is not registered with a manager. A
    /// registered camera is activated through its manager's
    /// `set_active_camera`, which keeps at most one camera active.
    pub fn set_active(&mut self)
        ensures
            *final(self) == (Camera3D { active: true, ..*old(self) }),
    {
        self.active = true;
    }

    /// Whether the camera is registered with a manager.
    pub fn get_manager(&self) -> (r: bool)
        ensures
            r == self.manager,
    {
        self.manager
    }

    /// Identifier of the owning entity, if any.
    pub fn get_entity(&self) -> (r: Option<u64>)
        ensures
            r == self.entity,
    {
        self.entity
    }

    /// Sets or clears the owning entity.
    pub fn set_entity(&mut self, entity: Option<u64>)
        ensures
            *final(self) == (Camera3D { entity, ..*old(self) }),
    {
        self.entity = entity;
    }

    /// The world matrix a camera reads its view from, given what the owning
    /// entity exposes: a three-dimensional transform is preferred, a
    /// two-dimensional one (already widened to 4x4 by the host) is the
    /// fallback, and with neither there is no world matrix.
    pub fn get_world_matrix(
        transform3d: Option<[u32; 16]>,
        transform2d: Option<[u32; 16]>,
    ) -> (r: Option<[u32; 16]>)
        ensures
            r == (if transform3d is Some { transform3d } else { transform2d }),
    {
        match transform3d {
            Some(m) => Some(m),
            None => transform2d,
        }
    }

    /// Stores the view matrix derived from the owning entity's world
    /// transform: the host passes the inverse of the world matrix it
    /// resolved, or `None` when the entity has no transform, in which case
    /// the view degrades to the identity. Recomputed on every call — the
    /// world transform can change without the camera being told, so the view
    /// is never cached against a dirty flag.
    pub fn get_view(&mut self, world_inverse: Option<&[u32; 16]>) -> (r: [u32; 16])
        ensures
            *final(self) == (Camera3D { view: r, ..*old(self) }),
            match world_inverse {
                Some(m) => r == *m,
                None => r@ == matrix::identity4_bits(),
            },
    {
        let view = match world_inverse {
            Some(m) => *m,
            None => matrix::identity4(),
        };
        self.view = view;
        view
    }

    /// The formula and scalars a recomputation of the projection must use.
    pub fn projection_task(&self) -> (t: ProjectionTask)
        ensures
            t == self.spec_projection_task(),
    {
        if self.orthographic_mode {
            ProjectionTask::Orthographic {
                size: self.orthographic_size,
                aspect: self.aspect,
                near: self.near,
                far: self.far,
            }
        } else {
            ProjectionTask::Perspective {
                fov: self.fov,
                aspect: self.aspect,
                near: self.near,
                far: self.far,
            }
        }
    }

    /// Stores a projection matrix the host computed for this camera's
    /// current `projection_task` and marks the cache fresh.
    pub fn update_projection(&mut self, projection: [u32; 16])
        ensures
            *final(self) == (Camera3D {
                projection,
                needs_update: false,
                ..*old(self)
            }),
    {
        self.projection = projection;
        self.needs_update = false;
    }

    /// Reads the cached projection: the matrix while it is fresh, `None`
    /// while a parameter change has made it stale — a stale matrix is never
    /// served, so the host must recompute (`projection_task`,
    /// `update_projection`) before it can read one.
    pub fn get_projection(&self) -> (r: Option<[u32; 16]>)
        ensures
            r == self.spec_get_projection(),
    {
        if self.needs_update {
            None
        } else {
            Some(self.projection)
        }
    }
}

} // verus!

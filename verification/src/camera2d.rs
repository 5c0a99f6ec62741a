//! A camera that projects two-dimensional scenes: always orthographic, with
//! 2x3 affine matrices.
//!
//! The state and protocol mirror `Camera3D`: configuration plus host-derived
//! scalars, a cached projection guarded by a dirty flag, and the
//! `projection_task` / `update_projection` / `get_projection` cycle in which
//! a stale matrix is never served.

use vstd::prelude::*;
use crate::matrix;
use crate::scalar;
use crate::scalar::ViewportScalars;

verus! {

/// Default viewport edge in pixels.
pub const DEFAULT_DIMENSION: usize = 512;

/// Bit pattern of 1/512, the reciprocal of the default viewport edge.
pub const DEFAULT_INV_DIMENSION: u32 = 0x3B00_0000;

/// Bit pattern of 2.0, the default orthographic size.
pub const DEFAULT_ORTHOGRAPHIC_SIZE: u32 = 0x4000_0000;

/// What the host's matrix library must compute to refresh a stale
/// two-dimensional projection: an orthographic projection with edges
/// `top = size`, `right = size * aspect`, `bottom = -top`, `left = -right`,
/// where the multiplication is the host's arithmetic.
#[derive(Clone, Copy, PartialEq, Eq, Structural, Debug)]
pub struct Projection2DTask {
    /// Bit pattern of the frustum half-height.
    pub size: u32,
    /// Bit pattern of the aspect ratio.
    pub aspect: u32,
}

/// Per-camera state; scalar fields hold IEEE 754 single-precision bit
/// patterns (see `scalar`), and `id` / `manager` belong to the registration
/// protocol exactly as on `Camera3D`.
#[derive(Clone, Copy)]
pub struct Camera2D {
    /// Identifier of the owning entity, if the host attached one.
    pub entity: Option<u64>,
    /// Whether the camera is registered with a manager.
    pub manager: bool,
    /// Registry identifier, stamped by the manager on registration.
    pub id: u64,
    /// Viewport width in pixels.
    pub width: usize,
    /// Viewport height in pixels.
    pub height: usize,
    /// Bit pattern of 1/width, supplied by the host alongside `width`.
    pub inv_width: u32,
    /// Bit pattern of 1/height, supplied by the host alongside `height`.
    pub inv_height: u32,
    /// Consumed by the host's viewport-resize handling; cosmetic here.
    pub auto_resize: bool,
    /// Background color, four bit-pattern components; cosmetic here.
    pub background: [u32; 4],
    /// Bit pattern of width/height, supplied by the host.
    pub aspect: u32,
    /// Bit pattern of the orthographic frustum half-height; kept strictly
    /// positive by `set_orthographic_size`.
    pub orthographic_size: u32,
    /// Cached projection matrix, valid only while `needs_update` is false.
    pub projection: [u32; 6],
    /// View matrix from the last `get_view` call.
    pub view: [u32; 6],
    /// True when a parameter feeding the projection formula changed since
    /// the cached projection was stored.
    pub needs_update: bool,
    /// Whether this is the camera its manager designates as current.
    pub active: bool,
}

impl Camera2D {
    /// The scalars a recomputation of the projection must use.
    pub open spec fn spec_projection_task(self) -> Projection2DTask {
        Projection2DTask { size: self.orthographic_size, aspect: self.aspect }
    }

    /// What a read of the cached projection yields: the matrix while it is
    /// fresh, nothing while it is stale.
    pub open spec fn spec_get_projection(self) -> Option<[u32; 6]> {
        if self.needs_update {
            None
        } else {
            Some(self.projection)
        }
    }

    /// A fresh camera: 512x512 viewport, orthographic size 2, black
    /// background, identity matrices, stale projection, active,
    /// unregistered.
    pub fn new() -> (c: Camera2D)
        ensures
            c.entity is None,
            !c.manager,
            c.id == 0,
            c.width == DEFAULT_DIMENSION,
            c.height == DEFAULT_DIMENSION,
            c.inv_width == DEFAULT_INV_DIMENSION,
            c.inv_height == DEFAULT_INV_DIMENSION,
            c.auto_resize,
            c.background@ == seq![0u32, 0u32, 0u32, scalar::ONE],
            c.aspect == scalar::ONE,
            c.orthographic_size == DEFAULT_ORTHOGRAPHIC_SIZE,
            c.projection@ == matrix::identity32_bits(),
            c.view@ == matrix::identity32_bits(),
            c.needs_update,
            c.active,
    {
        let background = [0u32, 0u32, 0u32, scalar::ONE];
        proof {
            assert(background@ =~= seq![0u32, 0u32, 0u32, scalar::ONE]);
        }
        Camera2D {
            entity: None,
            manager: false,
            id: 0,
            width: DEFAULT_DIMENSION,
            height: DEFAULT_DIMENSION,
            inv_width: DEFAULT_INV_DIMENSION,
            inv_height: DEFAULT_INV_DIMENSION,
            auto_resize: true,
            background,
            aspect: scalar::ONE,
            orthographic_size: DEFAULT_ORTHOGRAPHIC_SIZE,
            projection: matrix::identity32(),
            view: matrix::identity32(),
            needs_update: true,
            active: true,
        }
    }

    /// Resizes the viewport. The host supplies the derived scalars for the
    /// new dimensions; the projection is marked stale.
    pub fn set(&mut self, width: usize, height: usize, derived: ViewportScalars)
        ensures
            *final(self) == (Camera2D {
                width,
                height,
                inv_width: derived.inv_width,
                inv_height: derived.inv_height,
                aspect: derived.aspect,
                needs_update: true,
                ..*old(self)
            }),
    {
        self.width = width;
        self.height = height;
        self.inv_width = derived.inv_width;
        self.inv_height = derived.inv_height;
        self.aspect = derived.aspect;
        self.needs_update = true;
    }

    /// Sets the viewport width alone; the host supplies the new reciprocal
    /// and the aspect ratio against the unchanged height.
    pub fn set_width(&mut self, width: usize, inv_width: u32, aspect: u32)
        ensures
            *final(self) == (Camera2D {
                width,
                inv_width,
                aspect,
                needs_update: true,
                ..*old(self)
            }),
    {
        self.width = width;
        self.inv_width = inv_width;
        self.aspect = aspect;
        self.needs_update = true;
    }

    /// Sets the viewport height alone; the host supplies the new reciprocal
    /// and the aspect ratio against the unchanged width.
    pub fn set_height(&mut self, height: usize, inv_height: u32, aspect: u32)
        ensures
            *final(self) == (Camera2D {
                height,
                inv_height,
                aspect,
                needs_update: true,
                ..*old(self)
            }),
    {
        self.height = height;
        self.inv_height = inv_height;
        self.aspect = aspect;
        self.needs_update = true;
    }

    /// Viewport width in pixels.
    pub fn get_width(&self) -> (r: usize)
        ensures
            r == self.width,
    {
        self.width
    }

    /// Viewport height in pixels.
    pub fn get_height(&self) -> (r: usize)
        ensures
            r == self.height,
    {
        self.height
    }

    /// Sets the orthographic half-height, substituting the machine epsilon
    /// for any value that is not strictly positive, and marks the projection
    /// stale. The stored value is always strictly positive.
    pub fn set_orthographic_size(&mut self, orthographic_size: u32)
        ensures
            *final(self) == (Camera2D {
                orthographic_size: if scalar::is_strictly_positive(orthographic_size) {
                    orthographic_size
                } else {
                    scalar::EPSILON
                },
                needs_update: true,
                ..*old(self)
            }),
            scalar::is_strictly_positive(final(self).orthographic_size),
    {
        self.orthographic_size = if scalar::strictly_positive(orthographic_size) {
            orthographic_size
        } else {
            scalar::EPSILON
        };
        self.needs_update = true;
    }

    /// Orthographic half-height.
    pub fn get_orthographic_size(&self) -> (r: u32)
        ensures
            r == self.orthographic_size,
    {
        self.orthographic_size
    }

    /// Sets the resize flag; cosmetic, so the projection stays as it was.
    pub fn set_auto_resize(&mut self, auto_resize: bool)
        ensures
            *final(self) == (Camera2D { auto_resize, ..*old(self) }),
    {
        self.auto_resize = auto_resize;
    }

    /// The resize flag.
    pub fn get_auto_resize(&self) -> (r: bool)
        ensures
            r == self.auto_resize,
    {
        self.auto_resize
    }

    /// Sets the background color; cosmetic, so the projection stays as it
    /// was.
    pub fn set_background(&mut self, background: [u32; 4])
        ensures
            *final(self) == (Camera2D { background, ..*old(self) }),
    {
        self.background = background;
    }

    /// The background color.
    pub fn get_background(&self) -> (r: [u32; 4])
        ensures
            r == self.background,
    {
        self.background
    }

    /// Whether this camera is its manager's current one.
    pub fn active(&self) -> (r: bool)
        ensures
            r == self.active,
    {
        self.active
    }

    /// Activates a camera that is not registered with a manager. A
    /// registered camera is activated through its manager's
    /// `set_active_camera`, which keeps at most one camera active.
    pub fn set_active(&mut self)
        ensures
            *final(self) == (Camera2D { active: true, ..*old(self) }),
    {
        self.active = true;
    }

    /// Whether the camera is registered with a manager.
    pub fn get_manager(&self) -> (r: bool)
        ensures
            r == self.manager,
    {
        self.manager
    }

    /// Identifier of the owning entity, if any.
    pub fn get_entity(&self) -> (r: Option<u64>)
        ensures
            r == self.entity,
    {
        self.entity
    }

    /// Sets or clears the owning entity.
    pub fn set_entity(&mut self, entity: Option<u64>)
        ensures
            *final(self) == (Camera2D { entity, ..*old(self) }),
    {
        self.entity = entity;
    }

    /// The world matrix a two-dimensional camera reads its view from, given
    /// what the owning entity exposes: a two-dimensional transform is
    /// preferred as it stands; a three-dimensional one is the fallback, its
    /// affine part picked out; with neither there is no world matrix.
    pub fn get_world_matrix(
        transform2d: Option<[u32; 6]>,
        transform3d: Option<[u32; 16]>,
    ) -> (r: Option<[u32; 6]>)
        ensures
            match transform2d {
                Some(m) => r == Some(m),
                None => match transform3d {
                    Some(m) => r matches Some(a) && a@ == matrix::affine_of_mat4_bits(m@),
                    None => r is None,
                },
            },
    {
        match transform2d {
            Some(m) => Some(m),
            None => match transform3d {
                Some(m) => Some(matrix::affine_of_mat4(&m)),
                None => None,
            },
        }
    }

    /// Stores the view matrix derived from the owning entity's world
    /// transform: the host passes the inverse of the world matrix it
    /// resolved, or `None` when the entity has no transform, in which case
    /// the view degrades to the identity. Recomputed on every call, never
    /// cached against a dirty flag.
    pub fn get_view(&mut self, world_inverse: Option<&[u32; 6]>) -> (r: [u32; 6])
        ensures
            *final(self) == (Camera2D { view: r, ..*old(self) }),
            match world_inverse {
                Some(m) => r == *m,
                None => r@ == matrix::identity32_bits(),
            },
    {
        let view = match world_inverse {
            Some(m) => *m,
            None => matrix::identity32(),
        };
        self.view = view;
        view
    }

    /// The scalars a recomputation of the projection must use.
    pub fn projection_task(&self) -> (t: Projection2DTask)
        ensures
            t == self.spec_projection_task(),
    {
        Projection2DTask { size: self.orthographic_size, aspect: self.aspect }
    }

    /// Stores a projection matrix the host computed for this camera's
    /// current `projection_task` and marks the cache fresh.
    pub fn update_projection(&mut self, projection: [u32; 6])
        ensures
            *final(self) == (Camera2D {
                projection,
                needs_update: false,
                ..*old(self)
            }),
    {
        self.projection = projection;
        self.needs_update = false;
    }

    /// Reads the cached projection: the matrix while it is fresh, `None`
    /// while a parameter change has made it stale — a stale matrix is never
    /// served, so the host must recompute (`projection_task`,
    /// `update_projection`) before it can read one.
    pub fn get_projection(&self) -> (r: Option<[u32; 6]>)
        ensures
            r == self.spec_get_projection(),
    {
        if self.needs_update {
            None
        } else {
            Some(self.projection)
        }
    }
}

} // verus!

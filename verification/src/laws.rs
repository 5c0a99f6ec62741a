//! The library's laws: properties that span several operations, stated over
//! the same spec-level state the operations' own contracts use, and proved
//! once and for all.

use vstd::prelude::*;
use crate::camera2d::Camera2D;
use crate::camera2d_manager::Camera2DManager;
use crate::camera3d::Camera3D;
use crate::camera3d_manager::Camera3DManager;
use crate::scalar;
use crate::scalar::ViewportScalars;

verus! {

/// Once a computed projection is stored (`update_projection`), every read
/// serves exactly that matrix until a parameter changes: reads take the
/// camera by shared reference and cannot disturb it, so repeated reads
/// without an intervening setter are bit-identical.
pub proof fn lemma_projection_read_stable_3d(pre: Camera3D, m: [u32; 16])
    ensures
        (Camera3D { projection: m, needs_update: false, ..pre }).spec_get_projection() == Some(m),
{
}

/// Two-dimensional counterpart of `lemma_projection_read_stable_3d`.
pub proof fn lemma_projection_read_stable_2d(pre: Camera2D, m: [u32; 6])
    ensures
        (Camera2D { projection: m, needs_update: false, ..pre }).spec_get_projection() == Some(m),
{
}

/// A stale projection is never served: while the dirty flag stands — as it
/// does after every projection-affecting setter — a read yields nothing, so
/// the host cannot observe a matrix that predates the parameter change.
pub proof fn lemma_stale_projection_not_served_3d(c: Camera3D)
    requires
        c.needs_update,
    ensures
        c.spec_get_projection() is None,
{
}

/// Two-dimensional counterpart of `lemma_stale_projection_not_served_3d`.
pub proof fn lemma_stale_projection_not_served_2d(c: Camera2D)
    requires
        c.needs_update,
    ensures
        c.spec_get_projection() is None,
{
}

/// The cosmetic setters do not touch the projection cache: changing the
/// resize flag or the background leaves both the dirty flag and the cached
/// matrix as they were, so no recomputation is forced.
pub proof fn lemma_cosmetic_setters_preserve_projection_3d(
    c: Camera3D,
    auto_resize: bool,
    background: [u32; 4],
)
    ensures
        (Camera3D { auto_resize, ..c }).spec_get_projection() == c.spec_get_projection(),
        (Camera3D { background, ..c }).spec_get_projection() == c.spec_get_projection(),
{
}

/// Two-dimensional counterpart of
/// `lemma_cosmetic_setters_preserve_projection_3d`.
pub proof fn lemma_cosmetic_setters_preserve_projection_2d(
    c: Camera2D,
    auto_resize: bool,
    background: [u32; 4],
)
    ensures
        (Camera2D { auto_resize, ..c }).spec_get_projection() == c.spec_get_projection(),
        (Camera2D { background, ..c }).spec_get_projection() == c.spec_get_projection(),
{
}

/// At most one registered camera is active: in a well-formed registry — and
/// every registry operation both assumes and re-establishes `wf` — two
/// active slots are the same slot.
pub proof fn lemma_single_active_3d(m: Camera3DManager, i: int, j: int)
    requires
        m.wf(),
        0 <= i < m.cameras@.len(),
        0 <= j < m.cameras@.len(),
        m.cameras@[i].active,
        m.cameras@[j].active,
    ensures
        i == j,
{
    assert(m.active_camera == Some(m.cameras@[i].id));
    assert(m.active_camera == Some(m.cameras@[j].id));
    if i < j {
        assert(m.cameras@[i].id != m.cameras@[j].id);
    } else if j < i {
        assert(m.cameras@[j].id != m.cameras@[i].id);
    }
}

/// Two-dimensional counterpart of `lemma_single_active_3d`.
pub proof fn lemma_single_active_2d(m: Camera2DManager, i: int, j: int)
    requires
        m.wf(),
        0 <= i < m.cameras@.len(),
        0 <= j < m.cameras@.len(),
        m.cameras@[i].active,
        m.cameras@[j].active,
    ensures
        i == j,
{
    assert(m.active_camera == Some(m.cameras@[i].id));
    assert(m.active_camera == Some(m.cameras@[j].id));
    if i < j {
        assert(m.cameras@[i].id != m.cameras@[j].id);
    } else if j < i {
        assert(m.cameras@[j].id != m.cameras@[i].id);
    }
}

/// An active registered camera is exactly the one `active_camera` names: the
/// designation the manager reports never disagrees with the flags the
/// cameras carry.
pub proof fn lemma_active_is_designated_3d(m: Camera3DManager, i: int)
    requires
        m.wf(),
        0 <= i < m.cameras@.len(),
        m.cameras@[i].active,
    ensures
        m.active_camera == Some(m.cameras@[i].id),
{
}

/// Two-dimensional counterpart of `lemma_active_is_designated_3d`.
pub proof fn lemma_active_is_designated_2d(m: Camera2DManager, i: int)
    requires
        m.wf(),
        0 <= i < m.cameras@.len(),
        m.cameras@[i].active,
    ensures
        m.active_camera == Some(m.cameras@[i].id),
{
}

/// Attach-then-detach round trip: registering a camera and then removing it
/// under the identifier the registration returned brings the registered
/// count back to its pre-attach value, and hands the camera back with its
/// manager back-reference cleared.
pub proof fn lemma_attach_detach_round_trip_3d(
    m0: Camera3DManager,
    m1: Camera3DManager,
    m2: Camera3DManager,
    camera: Camera3D,
    id: u64,
    removed: Option<Camera3D>,
)
    requires
        m0.wf(),
        m1.wf(),
        Camera3DManager::add_post(m0, m1, camera, id),
        Camera3DManager::remove_post(m1, m2, id, removed),
    ensures
        m2.cameras@.len() == m0.cameras@.len(),
        removed matches Some(c) && !c.manager && c.id == id,
{
    let n = m0.cameras@.len() as int;
    assert(m1.cameras@[n].id == id);
    assert(m1.contains_id(id));
    let i = m1.index_of(id);
    assert(0 <= i < m1.cameras@.len() && m1.cameras@[i].id == id);
}

/// Two-dimensional counterpart of `lemma_attach_detach_round_trip_3d`.
pub proof fn lemma_attach_detach_round_trip_2d(
    m0: Camera2DManager,
    m1: Camera2DManager,
    m2: Camera2DManager,
    camera: Camera2D,
    id: u64,
    removed: Option<Camera2D>,
)
    requires
        m0.wf(),
        m1.wf(),
        Camera2DManager::add_post(m0, m1, camera, id),
        Camera2DManager::remove_post(m1, m2, id, removed),
    ensures
        m2.cameras@.len() == m0.cameras@.len(),
        removed matches Some(c) && !c.manager && c.id == id,
{
    let n = m0.cameras@.len() as int;
    assert(m1.cameras@[n].id == id);
    assert(m1.contains_id(id));
    let i = m1.index_of(id);
    assert(0 <= i < m1.cameras@.len() && m1.cameras@[i].id == id);
}

/// For power-of-two dimensions the derived viewport scalars stored by `set`
/// are exact: resizing with the scalars `pow2_viewport_scalars` computed
/// leaves the camera holding precisely the patterns of 1/width, 1/height
/// and width/height.
pub proof fn lemma_viewport_exact_pow2_3d(
    pre: Camera3D,
    post: Camera3D,
    width: usize,
    height: usize,
    v: ViewportScalars,
)
    requires
        scalar::is_pow2(width as nat),
        scalar::is_pow2(height as nat),
        v.inv_width == scalar::recip_pow2_bits(scalar::log2(width as nat)),
        v.inv_height == scalar::recip_pow2_bits(scalar::log2(height as nat)),
        v.aspect == scalar::ratio_pow2_bits(
            scalar::log2(width as nat),
            scalar::log2(height as nat),
        ),
        post == (Camera3D {
            width,
            height,
            inv_width: v.inv_width,
            inv_height: v.inv_height,
            aspect: v.aspect,
            needs_update: true,
            ..pre
        }),
    ensures
        post.inv_width == scalar::recip_pow2_bits(scalar::log2(post.width as nat)),
        post.inv_height == scalar::recip_pow2_bits(scalar::log2(post.height as nat)),
        post.aspect == scalar::ratio_pow2_bits(
            scalar::log2(post.width as nat),
            scalar::log2(post.height as nat),
        ),
{
}

/// Two-dimensional counterpart of `lemma_viewport_exact_pow2_3d`.
pub proof fn lemma_viewport_exact_pow2_2d(
    pre: Camera2D,
    post: Camera2D,
    width: usize,
    height: usize,
    v: ViewportScalars,
)
    requires
        scalar::is_pow2(width as nat),
        scalar::is_pow2(height as nat),
        v.inv_width == scalar::recip_pow2_bits(scalar::log2(width as nat)),
        v.inv_height == scalar::recip_pow2_bits(scalar::log2(height as nat)),
        v.aspect == scalar::ratio_pow2_bits(
            scalar::log2(width as nat),
            scalar::log2(height as nat),
        ),
        post == (Camera2D {
            width,
            height,
            inv_width: v.inv_width,
            inv_height: v.inv_height,
            aspect: v.aspect,
            needs_update: true,
            ..pre
        }),
    ensures
        post.inv_width == scalar::recip_pow2_bits(scalar::log2(post.width as nat)),
        post.inv_height == scalar::recip_pow2_bits(scalar::log2(post.height as nat)),
        post.aspect == scalar::ratio_pow2_bits(
            scalar::log2(post.width as nat),
            scalar::log2(post.height as nat),
        ),
{
}

} // verus!

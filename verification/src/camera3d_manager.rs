//! The per-scene registry of three-dimensional cameras.
//!
//! The manager owns the registered cameras outright — a registry slot per
//! camera, addressed by a stable identifier the manager stamps on
//! registration — and is the single authority over activation: at most one
//! registered camera is ever active, and it is exactly the one the
//! `active_camera` slot names. Removing the active camera also clears the
//! slot, so the manager never reports a camera it no longer holds.

use vstd::prelude::*;
use crate::camera3d::Camera3D;

verus! {

/// The registry. `cameras` holds the registered cameras; `active_camera`
/// names the active one by identifier; `next_id` is the allocation cursor
/// for identifiers, strictly above every identifier in use.
pub struct Camera3DManager {
    /// Identifier of the owning scene, if the host installed one.
    pub scene: Option<u64>,
    /// The registered cameras.
    pub cameras: Vec<Camera3D>,
    /// Identifier of the active camera, if one has been designated.
    pub active_camera: Option<u64>,
    /// Identifier the next registration will be stamped with.
    pub next_id: u64,
}

/// Every camera of `s` with its active flag lowered.
pub open spec fn deactivated(s: Seq<Camera3D>) -> Seq<Camera3D> {
    s.map_values(|c: Camera3D| Camera3D { active: false, ..c })
}

/// Every camera of `s` with its active flag set exactly on the one named
/// `id`.
pub open spec fn activated(s: Seq<Camera3D>, id: u64) -> Seq<Camera3D> {
    s.map_values(|c: Camera3D| Camera3D { active: c.id == id, ..c })
}

impl Camera3DManager {
    /// Whether a registered camera carries the identifier `id`.
    pub open spec fn contains_id(self, id: u64) -> bool {
        exists|i: int| 0 <= i < self.cameras@.len() && (#[trigger] self.cameras@[i]).id == id
    }

    /// The registry slot of the camera with identifier `id` (meaningful
    /// under `wf`, which makes identifiers unique).
    pub open spec fn index_of(self, id: u64) -> int {
        choose|i: int| 0 <= i < self.cameras@.len() && (#[trigger] self.cameras@[i]).id == id
    }

    /// No two registered cameras share an identifier.
    pub open spec fn ids_unique(self) -> bool {
        forall|i: int, j: int|
            0 <= i < j < self.cameras@.len()
                ==> (#[trigger] self.cameras@[i]).id != (#[trigger] self.cameras@[j]).id
    }

    /// Every registered camera carries the manager mark and an identifier
    /// below the allocation cursor.
    pub open spec fn registered_ok(self) -> bool {
        forall|i: int|
            0 <= i < self.cameras@.len()
                ==> (#[trigger] self.cameras@[i]).manager && self.cameras@[i].id < self.next_id
    }

    /// A registered camera is active exactly when the `active_camera` slot
    /// names it, and the slot, when filled, names a registered camera.
    pub open spec fn active_ok(self) -> bool {
        &&& forall|i: int|
            0 <= i < self.cameras@.len()
                ==> ((#[trigger] self.cameras@[i]).active <==> self.active_camera == Some(
                    self.cameras@[i].id,
                ))
        &&& self.active_camera matches Some(id) ==> self.contains_id(id)
    }

    /// The registry invariant, established by `new` and preserved by every
    /// operation: identifiers are unique and below the cursor, every slot is
    /// marked registered, and at most one camera is active — exactly the one
    /// the `active_camera` slot names.
    pub open spec fn wf(self) -> bool {
        &&& self.ids_unique()
        &&& self.registered_ok()
        &&& self.active_ok()
    }

    /// What `add_component` does: stamps the camera with the fresh
    /// identifier `id` and the manager mark, and — when the newcomer asks to
    /// be active, or nothing is active yet — routes activation through the
    /// single-active discipline, deactivating everything else.
    pub open spec fn add_post(
        pre: Camera3DManager,
        post: Camera3DManager,
        camera: Camera3D,
        id: u64,
    ) -> bool {
        &&& id == pre.next_id
        &&& post.next_id == pre.next_id + 1
        &&& post.scene == pre.scene
        &&& if camera.active || pre.active_camera is None {
            &&& post.active_camera == Some(id)
            &&& post.cameras@ == deactivated(pre.cameras@).push(
                (Camera3D { id, manager: true, active: true, ..camera }),
            )
        } else {
            &&& post.active_camera == pre.active_camera
            &&& post.cameras@ == pre.cameras@.push((Camera3D { id, manager: true, ..camera }))
        }
    }

    /// What `set_active_camera` does: when `id` is registered, exactly that
    /// camera ends active and the slot names it; otherwise nothing changes.
    pub open spec fn set_active_post(pre: Camera3DManager, post: Camera3DManager, id: u64) -> bool {
        if pre.contains_id(id) {
            &&& post.cameras@ == activated(pre.cameras@, id)
            &&& post.active_camera == Some(id)
            &&& post.scene == pre.scene
            &&& post.next_id == pre.next_id
        } else {
            Self::unchanged(pre, post)
        }
    }

    /// What `remove_component` does: when `id` is registered, its slot
    /// leaves the registry and comes back to the caller with the manager
    /// mark cleared, and the active slot is emptied if it named the leaver;
    /// otherwise nothing changes and nothing is returned.
    pub open spec fn remove_post(
        pre: Camera3DManager,
        post: Camera3DManager,
        id: u64,
        r: Option<Camera3D>,
    ) -> bool {
        if pre.contains_id(id) {
            &&& r == Some((Camera3D { manager: false, ..pre.cameras@[pre.index_of(id)] }))
            &&& post.cameras@ == pre.cameras@.remove(pre.index_of(id))
            &&& post.active_camera == (if pre.active_camera == Some(id) {
                None::<u64>
            } else {
                pre.active_camera
            })
            &&& post.scene == pre.scene
            &&& post.next_id == pre.next_id
        } else {
            &&& r is None
            &&& Self::unchanged(pre, post)
        }
    }

    /// Field-for-field equality of two registries.
    pub open spec fn unchanged(pre: Camera3DManager, post: Camera3DManager) -> bool {
        &&& post.scene == pre.scene
        &&& post.cameras@ == pre.cameras@
        &&& post.active_camera == pre.active_camera
        &&& post.next_id == pre.next_id
    }

    /// An empty registry: no cameras, no active camera, no scene, cursor at
    /// one.
    pub fn new() -> (m: Camera3DManager)
        ensures
            m.scene is None,
            m.cameras@.len() == 0,
            m.active_camera is None,
            m.next_id == 1,
            m.wf(),
    {
        Camera3DManager { scene: None, cameras: Vec::new(), active_camera: None, next_id: 1 }
    }

    /// The slot holding identifier `id`, if any.
    fn find_index(&self, id: u64) -> (r: Option<usize>)
        ensures
            match r {
                Some(i) => i < self.cameras@.len() && self.cameras@[i as int].id == id,
                None => !self.contains_id(id),
            },
    {
        let n = self.cameras.len();
        let mut i: usize = 0;
        while i < n
            invariant
                i <= n,
                n == self.cameras@.len(),
                forall|k: int| 0 <= k < i ==> (#[trigger] self.cameras@[k]).id != id,
            decreases n - i,
        {
            if self.cameras[i].id == id {
                return Some(i);
            }
            i += 1;
        }
        None
    }

    /// Under `wf`, a slot holding `id` is the slot `index_of` names.
    pub proof fn lemma_index_of(self, i: int, id: u64)
        requires
            self.wf(),
            0 <= i < self.cameras@.len(),
            self.cameras@[i].id == id,
        ensures
            self.index_of(id) == i,
    {
        let j = self.index_of(id);
        assert(0 <= j < self.cameras@.len() && self.cameras@[j].id == id);
        if i < j {
            assert(self.cameras@[i].id != self.cameras@[j].id);
        } else if j < i {
            assert(self.cameras@[j].id != self.cameras@[i].id);
        }
    }

    /// Lowers every active flag in the registry.
    fn deactivate_all(&mut self)
        ensures
            final(self).cameras@ == deactivated(old(self).cameras@),
            final(self).scene == old(self).scene,
            final(self).active_camera == old(self).active_camera,
            final(self).next_id == old(self).next_id,
    {
        let n = self.cameras.len();
        let mut i: usize = 0;
        while i < n
            invariant
                i <= n,
                n == self.cameras@.len(),
                self.scene == old(self).scene,
                self.active_camera == old(self).active_camera,
                self.next_id == old(self).next_id,
                forall|k: int|
                    0 <= k < i ==> self.cameras@[k] == (Camera3D {
                        active: false,
                        ..old(self).cameras@[k]
                    }),
                forall|k: int| i <= k < n ==> self.cameras@[k] == old(self).cameras@[k],
            decreases n - i,
        {
            self.cameras[i].active = false;
            i += 1;
        }
        proof {
            assert(self.cameras@ =~= deactivated(old(self).cameras@));
        }
    }

    /// Registers a camera: stamps it with a fresh identifier and the manager
    /// mark, activates it if it asked to be active or nothing is active yet
    /// (deactivating any previous active camera), and hands the identifier
    /// back as the caller's handle.
    pub fn add_component(&mut self, camera: Camera3D) -> (id: u64)
        requires
            old(self).wf(),
            old(self).next_id < u64::MAX,
        ensures
            final(self).wf(),
            final(self).contains_id(id),
            final(self).cameras@.len() == old(self).cameras@.len() + 1,
            Self::add_post(*old(self), *final(self), camera, id),
    {
        let id = self.next_id;
        self.next_id = id + 1;
        let mut cam = camera;
        cam.id = id;
        cam.manager = true;
        if cam.active || self.active_camera.is_none() {
            self.deactivate_all();
            cam.active = true;
            self.active_camera = Some(id);
        }
        self.cameras.push(cam);
        proof {
            let post = *self;
            let pre = *old(self);
            let s = post.cameras@;
            let n = s.len() - 1;
            assert(s[n].id == id);
            assert(post.contains_id(id));
            assert forall|i: int, j: int| 0 <= i < j < s.len() implies (#[trigger] s[i]).id != (
            #[trigger] s[j]).id by {
                if j < n {
                    assert(pre.cameras@[i].id == s[i].id);
                    assert(pre.cameras@[j].id == s[j].id);
                } else {
                    assert(s[i].id == pre.cameras@[i].id);
                    assert(pre.cameras@[i].id < pre.next_id);
                }
            }
            assert(post.registered_ok());
            if camera.active || pre.active_camera is None {
                assert forall|i: int| 0 <= i < s.len() implies ((#[trigger] s[i]).active
                    <==> post.active_camera == Some(s[i].id)) by {
                    if i < n {
                        assert(s[i] == (Camera3D { active: false, ..pre.cameras@[i] }));
                        assert(s[i].id == pre.cameras@[i].id < id);
                    }
                }
            } else {
                assert forall|i: int| 0 <= i < s.len() implies ((#[trigger] s[i]).active
                    <==> post.active_camera == Some(s[i].id)) by {
                    if i < n {
                        assert(s[i] == pre.cameras@[i]);
                        assert(s[i].id < id);
                        assert(pre.cameras@[i].active <==> pre.active_camera == Some(
                            pre.cameras@[i].id,
                        ));
                    } else {
                        assert(!s[n].active);
                        let aid = pre.active_camera->0;
                        assert(aid < pre.next_id);
                    }
                }
                match pre.active_camera {
                    Some(aid) => {
                        let k = choose|k: int|
                            0 <= k < pre.cameras@.len() && (#[trigger] pre.cameras@[k]).id == aid;
                        assert(s[k].id == aid);
                    },
                    None => {},
                }
            }
            assert(post.wf());
        }
        id
    }

    /// Makes the registered camera `id` the active one: exactly it ends with
    /// its active flag raised, and the active slot names it. A camera the
    /// registry does not hold cannot be activated, so an unknown identifier
    /// changes nothing.
    pub fn set_active_camera(&mut self, id: u64)
        requires
            old(self).wf(),
        ensures
            final(self).wf(),
            Self::set_active_post(*old(self), *final(self), id),
    {
        let found = self.find_index(id);
        if found.is_none() {
            return ;
        }
        let n = self.cameras.len();
        let mut i: usize = 0;
        while i < n
            invariant
                i <= n,
                n == self.cameras@.len(),
                self.scene == old(self).scene,
                self.active_camera == old(self).active_camera,
                self.next_id == old(self).next_id,
                forall|k: int|
                    0 <= k < i ==> self.cameras@[k] == (Camera3D {
                        active: old(self).cameras@[k].id == id,
                        ..old(self).cameras@[k]
                    }),
                forall|k: int| i <= k < n ==> self.cameras@[k] == old(self).cameras@[k],
            decreases n - i,
        {
            let is_target = self.cameras[i].id == id;
            self.cameras[i].active = is_target;
            i += 1;
        }
        self.active_camera = Some(id);
        proof {
            let pre = *old(self);
            let post = *self;
            assert(post.cameras@ =~= activated(pre.cameras@, id));
            assert forall|a: int, b: int| 0 <= a < b < post.cameras@.len() implies (
            #[trigger] post.cameras@[a]).id != (#[trigger] post.cameras@[b]).id by {
                assert(pre.cameras@[a].id != pre.cameras@[b].id);
            }
            assert(post.registered_ok());
            let w = choose|w: int|
                0 <= w < pre.cameras@.len() && (#[trigger] pre.cameras@[w]).id == id;
            assert(post.cameras@[w].id == id);
            assert(post.contains_id(id));
            assert(post.wf());
        }
    }

    /// Identifier of the active camera, or `None` when no camera has ever
    /// been designated (or the last designated one was removed).
    pub fn get_active_camera(&self) -> (r: Option<u64>)
        ensures
            r == self.active_camera,
    {
        self.active_camera
    }

    /// Whether some registered camera is currently active.
    pub fn has_active_camera(&self) -> (r: bool)
        ensures
            r == self.active_camera is Some,
    {
        self.active_camera.is_some()
    }

    /// Unregisters the camera `id`: its slot leaves the registry and comes
    /// back with the manager mark cleared, and the active slot is emptied if
    /// it named the leaver. An unknown identifier changes nothing.
    pub fn remove_component(&mut self, id: u64) -> (r: Option<Camera3D>)
        requires
            old(self).wf(),
        ensures
            final(self).wf(),
            Self::remove_post(*old(self), *final(self), id, r),
            old(self).contains_id(id) ==> final(self).cameras@.len() == old(
                self,
            ).cameras@.len() - 1,
    {
        let found = self.find_index(id);
        match found {
            None => None,
            Some(i) => {
                proof {
                    old(self).lemma_index_of(i as int, id);
                }
                let mut cam = self.cameras.remove(i);
                cam.manager = false;
                match self.active_camera {
                    Some(aid) => {
                        if aid == id {
                            self.active_camera = None;
                        }
                    },
                    None => {},
                }
                proof {
                    let pre = *old(self);
                    let post = *self;
                    let s = post.cameras@;
                    assert forall|a: int, b: int| 0 <= a < b < s.len() implies (
                    #[trigger] s[a]).id != (#[trigger] s[b]).id by {
                        let pa = if a < i { a } else { a + 1 };
                        let pb = if b < i { b } else { b + 1 };
                        assert(s[a] == pre.cameras@[pa]);
                        assert(s[b] == pre.cameras@[pb]);
                        assert(pre.cameras@[pa].id != pre.cameras@[pb].id);
                    }
                    assert forall|k: int| 0 <= k < s.len() implies (#[trigger] s[k]).manager
                        && s[k].id < post.next_id by {
                        let p = if k < i { k } else { k + 1 };
                        assert(s[k] == pre.cameras@[p]);
                    }
                    assert forall|k: int| 0 <= k < s.len() implies ((#[trigger] s[k]).active
                        <==> post.active_camera == Some(s[k].id)) by {
                        let p = if k < i { k } else { k + 1 };
                        assert(s[k] == pre.cameras@[p]);
                        assert(pre.cameras@[p].active <==> pre.active_camera == Some(
                            pre.cameras@[p].id,
                        ));
                        if pre.active_camera == Some(id) {
                            assert(pre.cameras@[p].id != id) by {
                                if p < i {
                                    assert(pre.cameras@[p].id != pre.cameras@[i as int].id);
                                } else {
                                    assert(pre.cameras@[i as int].id != pre.cameras@[p].id);
                                }
                            }
                        }
                    }
                    match post.active_camera {
                        Some(aid) => {
                            assert(pre.active_camera == Some(aid) && aid != id);
                            let w = choose|w: int|
                                0 <= w < pre.cameras@.len() && (#[trigger] pre.cameras@[w]).id
                                    == aid;
                            assert(w != i);
                            let q = if w < i {
                                w
                            } else {
                                w - 1
                            };
                            assert(s[q] == pre.cameras@[w]);
                            assert(post.contains_id(aid));
                        },
                        None => {},
                    }
                    assert(post.wf());
                }
                Some(cam)
            },
        }
    }

    /// A copy of the registered camera `id`, for the host to inspect or to
    /// rework before `set_camera`.
    pub fn get_camera(&self, id: u64) -> (r: Option<Camera3D>)
        requires
            self.wf(),
        ensures
            self.contains_id(id) ==> r == Some(self.cameras@[self.index_of(id)]),
            !self.contains_id(id) ==> r is None,
    {
        match self.find_index(id) {
            None => None,
            Some(i) => {
                proof {
                    self.lemma_index_of(i as int, id);
                }
                Some(self.cameras[i])
            },
        }
    }

    /// Writes a reworked camera back into the slot `id` — the arena's
    /// lookup-then-write discipline. The slot's registration identity and
    /// its activation flag are the manager's own and survive the write, so
    /// the single-active discipline cannot be bypassed here; activation goes
    /// through `set_active_camera`. An unknown identifier changes nothing.
    pub fn set_camera(&mut self, id: u64, camera: Camera3D)
        requires
            old(self).wf(),
        ensures
            final(self).wf(),
            old(self).contains_id(id) ==> {
                let i = old(self).index_of(id);
                &&& final(self).cameras@ == old(self).cameras@.update(
                    i,
                    (Camera3D {
                        id,
                        manager: true,
                        active: old(self).cameras@[i].active,
                        ..camera
                    }),
                )
                &&& final(self).scene == old(self).scene
                &&& final(self).active_camera == old(self).active_camera
                &&& final(self).next_id == old(self).next_id
            },
            !old(self).contains_id(id) ==> Self::unchanged(*old(self), *final(self)),
    {
        match self.find_index(id) {
            None => {},
            Some(i) => {
                proof {
                    self.lemma_index_of(i as int, id);
                }
                let mut cam = camera;
                cam.id = id;
                cam.manager = true;
                cam.active = self.cameras[i].active;
                self.cameras[i] = cam;
                proof {
                    let pre = *old(self);
                    let post = *self;
                    assert forall|a: int, b: int| 0 <= a < b < post.cameras@.len() implies (
                    #[trigger] post.cameras@[a]).id != (#[trigger] post.cameras@[b]).id by {
                        assert(post.cameras@[a].id == pre.cameras@[a].id);
                        assert(post.cameras@[b].id == pre.cameras@[b].id);
                    }
                    assert forall|k: int| 0 <= k < post.cameras@.len() implies ((
                    #[trigger] post.cameras@[k]).active <==> post.active_camera == Some(
                        post.cameras@[k].id,
                    )) by {
                        assert(post.cameras@[k].id == pre.cameras@[k].id);
                        assert(post.cameras@[k].active == pre.cameras@[k].active);
                    }
                    match post.active_camera {
                        Some(aid) => {
                            let w = choose|w: int|
                                0 <= w < pre.cameras@.len() && (#[trigger] pre.cameras@[w]).id
                                    == aid;
                            assert(post.cameras@[w].id == aid);
                        },
                        None => {},
                    }
                    assert(post.wf());
                }
            },
        }
    }

    /// Whether no camera is registered.
    pub fn is_empty(&self) -> (r: bool)
        ensures
            r == (self.cameras@.len() == 0),
    {
        self.cameras.len() == 0
    }

    /// How many cameras are registered.
    pub fn len(&self) -> (r: usize)
        ensures
            r == self.cameras@.len(),
    {
        self.cameras.len()
    }

    /// Identifier of the owning scene, if the host installed one.
    pub fn get_scene(&self) -> (r: Option<u64>)
        ensures
            r == self.scene,
    {
        self.scene
    }

    /// Sets or clears the owning scene.
    pub fn set_scene(&mut self, scene: Option<u64>)
        ensures
            *final(self) == (Camera3DManager { scene, ..*old(self) }),
    {
        self.scene = scene;
    }

    /// The manager's ordering key among a scene's component managers.
    pub fn get_order(&self) -> (r: usize)
        ensures
            r == 0,
    {
        0
    }

    /// Host lifecycle hook; reserved, does nothing.
    pub fn clear(&mut self)
        ensures
            Self::unchanged(*old(self), *final(self)),
    {
    }

    /// Host lifecycle hook; reserved, does nothing.
    pub fn init(&mut self)
        ensures
            Self::unchanged(*old(self), *final(self)),
    {
    }

    /// Host lifecycle hook; reserved, does nothing.
    pub fn update(&mut self)
        ensures
            Self::unchanged(*old(self), *final(self)),
    {
    }
}

} // verus!

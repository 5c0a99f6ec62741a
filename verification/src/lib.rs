//! Camera components for an entity-component system: per-camera view and
//! projection state with dirty-flag caching, and per-scene managers that keep
//! at most one camera active at a time.
//!
//! Scalar quantities (field of view, clip planes, reciprocals, matrix entries)
//! are carried as the bit patterns of IEEE 754 single-precision values, held in
//! `u32`. The library never does arithmetic on the numeric values themselves;
//! the host computes them with its matrix library and hands the bit patterns
//! in, and every decision the library makes on them (thresholds, caching,
//! activation) is verified exactly over the bit patterns.

pub mod camera2d;
pub mod camera2d_manager;
pub mod camera3d;
pub mod camera3d_manager;
pub mod laws;
pub mod matrix;
pub mod scalar;

pub use camera2d::Camera2D;
pub use camera2d::Projection2DTask;
pub use camera2d_manager::Camera2DManager;
pub use camera3d::Camera3D;
pub use camera3d::ProjectionTask;
pub use camera3d_manager::Camera3DManager;

//! Verified core of a bridge between two rigid-body engines.
//!
//! A scene kept by a *source* engine is rebuilt in a *target* engine, the
//! target is advanced step by step, and the poses it computes are written back
//! into the source scene. This crate holds the decisions of that bridge: which
//! target entity each source entity becomes, how the two handle spaces stay
//! correlated, and in which order poses flow back. The engines themselves, and
//! every operation on real numbers, stay with the caller: scalars travel
//! through the crate as bit patterns and are never computed with here.

pub mod collider;
pub mod geometry;
pub mod handle;
pub mod handle_map;
pub mod import;
pub mod joint;
pub mod mesh;
pub mod scene;
pub mod step;
pub mod sync;
pub mod target;
pub mod world;

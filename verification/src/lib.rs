//! A typed vertex-attribute binding layer for a GPU rasterizer, together with
//! the decision logic of a shader compile/link pipeline and a small mesh
//! arena. The driver calls themselves (attribute registration, compilation,
//! buffer uploads) are side effects that a thin outer layer performs; this
//! crate computes and checks everything those calls are given.

pub mod data;
pub mod packed;
pub mod polys;
pub mod report;
pub mod shader;

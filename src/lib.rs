//! Query and mutation engine for a file-explorer panel: path resolution,
//! directory-tree snapshots, collision-free naming and the planning of
//! rename, create, move and delete operations. Filesystem access itself is
//! performed by the caller, which hands the probed facts in as plain values.
pub mod error;
pub mod naming;
pub mod ops;
pub mod path;
pub mod tree;

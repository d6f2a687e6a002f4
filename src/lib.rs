//! Moving commits between git repositories: the patch pipeline of a
//! vendoring tool, as pure decisions that a thin driver carries out.
pub mod path;
pub mod extract;
pub mod trailers;
pub mod apply;
pub mod snapshot;
pub mod pipeline;

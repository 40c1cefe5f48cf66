//! Core engine of a non-destructive image editor.
//!
//! The engine tracks which materialized image version is currently shown,
//! which one is being previewed while an edit mode is active, and a bounded
//! undo history together with a redo stack.  Every edit is materialized as a
//! fresh artifact in a scratch store owned by the surrounding shell; the
//! engine itself only decides which artifact to read, which filter to run,
//! and where the result belongs.  All pixel work, file handling and widget
//! rendering stay outside, behind the plans this crate hands out.

pub mod artifact;
pub mod laws;
pub mod model;
pub mod ops;
pub mod scratch;
pub mod session;
pub mod stack;

pub use artifact::ArtifactRef;
pub use ops::{EditOp, EditOutcome, EditPlan, State};
pub use session::ImageEditor;
pub use stack::{VersionStack, MAX_VERSIONS};

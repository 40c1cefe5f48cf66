use vstd::prelude::*;

verus! {

/// A handle to one materialized image version.
///
/// The engine never looks inside an artifact: it only moves handles between
/// the current slot, the preview slot and the two history stacks.  The shell
/// that embeds the engine resolves a handle to a concrete file — `Source` is
/// the image the session was loaded from, and `Version(n)` is the scratch
/// file allocated while the version counter stood at `n`.  Because the
/// counter never decreases within a session, distinct committed artifacts
/// always carry distinct handles.
#[derive(Clone, Copy, PartialEq, Eq, Structural, Debug)]
pub enum ArtifactRef {
    /// The base image the session was loaded from.
    Source,
    /// A scratch artifact, named by the version counter at allocation time.
    Version(u64),
}

} // verus!

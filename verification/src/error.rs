//! Error types: authoring mistakes are fatal at construction time, internal
//! consistency faults indicate a bug in the core, and resource errors come
//! from the rendering or exporting collaborators.

use vstd::prelude::*;

verus! {

/// A malformed animation was authored; never silently repaired.
#[derive(Clone, Copy, Debug, PartialEq, Eq, Structural)]
pub enum AuthoringError {
    /// `build` was reached although no initial value was ever established,
    /// or a `hold` was issued with no value to carry forward.
    MissingInitial,
    /// The keyframe frames are not strictly increasing.
    NonIncreasingFrames,
}

/// The core's own bookkeeping was violated; the job must abort rather than
/// corrupt state.
#[derive(Clone, Copy, Debug, PartialEq, Eq, Structural)]
pub enum InternalConsistencyError {
    /// An effect referred to a kind the registry never assigned.
    UnknownKind,
    /// The same kind was handed to backend construction twice.
    DuplicateHarvest,
}

/// A collaborator failed; fatal for the whole render job, never retried.
#[derive(Clone, Copy, Debug, PartialEq, Eq, Structural)]
pub enum ResourceError {
    /// The rendering collaborator could not produce a frame.
    RendererFailure,
    /// The exporting collaborator could not encode or write a frame.
    ExporterFailure,
}

} // verus!

//! Resource-management and frame-orchestration core of a real-time GPU
//! renderer: a bump-allocated geometry arena, a fixed-capacity mesh
//! descriptor table, bottom- and top-level ray-tracing acceleration
//! composition, a monotonically growing bindless image table, and the
//! dual-mode (standard / reference) frame-lifecycle controller.
//!
//! The graphics device and the render-graph engine are external
//! collaborators: this crate computes and checks all the bookkeeping they
//! are fed (offsets, slots, handles, graph descriptions) as plain data.
use vstd::prelude::*;

pub mod arena;
pub mod bindless;
pub mod graph;
pub mod mesh;
pub mod render_client;

verus! {

/// Fixed number of slots in the mesh descriptor table.
pub const MAX_GPU_MESHES: usize = 1024;

/// Byte capacity of the geometry arena.
pub const VERTEX_BUFFER_CAPACITY: usize = 1024 * 1024 * 128;

/// Maximum number of sampled-image descriptors in the bindless table.
pub const MAX_BINDLESS_DESCRIPTOR_COUNT: usize = 512 * 1024;

/// Unrecoverable configuration or precondition violations. The renderer
/// never silently truncates or retries: callers treat these as fatal.
#[derive(Clone, Copy, Debug, PartialEq, Eq, Structural)]
pub enum RenderError {
    /// An append was asked for with an alignment that is not a power of two.
    AlignmentNotPowerOfTwo,
    /// The geometry arena has too few bytes left for the requested append.
    ArenaCapacityExceeded,
    /// Every slot of the mesh descriptor table is already taken.
    MeshSlotsExhausted,
    /// A mesh with no indices cannot be registered.
    EmptyMesh,
    /// The bindless image array is full.
    BindlessCapacityExceeded,
    /// A lookup-table image did not land on the handle its caller expected.
    LutHandleMismatch,
    /// A frame was prepared before the top-level acceleration structure
    /// was built.
    NoTopLevelAcceleration,
}

} // verus!

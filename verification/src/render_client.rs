//! The render client: owns the geometry arena, the mesh descriptor table,
//! the mesh registry with its acceleration structures, the bindless image
//! table and the temporal accumulation state, and runs the dual-mode
//! (standard / reference) per-frame preparation and retirement protocol.
use vstd::prelude::*;

use crate::MAX_BINDLESS_DESCRIPTOR_COUNT;
use crate::MAX_GPU_MESHES;
use crate::RenderError;
use crate::VERTEX_BUFFER_CAPACITY;
use crate::arena::BufferBuilder;
use crate::arena::align_up;
use crate::arena::lemma_align_up;
use crate::arena::lemma_four_is_power_of_two;
use crate::bindless::BindlessImage;
use crate::bindless::BindlessImageHandle;
use crate::bindless::ImageFormat;
use crate::bindless::RawRgba8Image;
use crate::bindless::TexParams;
use crate::bindless::bindless_descriptor_set_layout;
use crate::bindless::bindless_layout;
use crate::bindless::texture_format;
use crate::graph::AccessType;
use crate::graph::ExportRecord;
use crate::graph::ExportedHandle;
use crate::graph::GraphResource;
use crate::graph::ImageDesc;
use crate::graph::RenderGraph;
use crate::graph::RenderGraphStep;
use crate::graph::RetiredRenderGraph;
use crate::mesh::GpuMesh;
use crate::mesh::MESH_STREAM_ALIGN;
use crate::mesh::PackedTriangleMesh;
use crate::mesh::RayTracingBottomAcceleration;
use crate::mesh::RayTracingTopAcceleration;
use crate::mesh::UploadedTriMesh;
use crate::mesh::max_index;
use crate::mesh::max_index_of;
use crate::mesh::lemma_mesh_offsets_end_monotonic;
use crate::mesh::mesh_stream_offsets;
use crate::mesh::stream_end;
use crate::mesh::u32s_le_bytes;
use crate::mesh::u32s_to_le_bytes;

verus! {

/// Which pipeline a frame is prepared with: the rasterized hybrid one, or
/// the path-traced reference one.
#[derive(Clone, Copy, Debug, PartialEq, Eq, Structural)]
pub enum RenderMode {
    Standard,
    Reference,
}

/// A persistent image threaded across frames together with its last-known
/// synchronization access state and the pending export handle of the graph
/// currently in flight, if any.
#[derive(Clone, Copy, Debug, PartialEq, Eq, Structural)]
pub struct TemporalImage {
    pub resource: ImageDesc,
    pub access_type: AccessType,
    pub last_rg_handle: Option<ExportedHandle>,
}

impl TemporalImage {
    /// A temporal image no graph has touched yet: access state `Nothing`,
    /// no pending export handle.
    pub fn new(resource: ImageDesc) -> (r: Self)
        ensures
            r.resource == resource,
            r.access_type == AccessType::Nothing,
            r.last_rg_handle is None,
    {
        TemporalImage { resource, access_type: AccessType::Nothing, last_rg_handle: None }
    }
}

/// A procedurally computed lookup-table image registered in the bindless
/// array. Its compute step is re-issued into the render graph every frame;
/// the external engine decides execution and caching.
#[derive(Clone, Copy, Debug, PartialEq, Eq, Structural)]
pub struct ImageLut {
    pub handle: BindlessImageHandle,
}

/// Per-frame inputs the frame controller reads: the window's dimensions.
#[derive(Clone, Copy, Debug, PartialEq, Eq, Structural)]
pub struct FrameState {
    pub window_width: u32,
    pub window_height: u32,
}

/// Width of the accumulation image created at start-up.
pub const ACCUM_IMAGE_WIDTH: u32 = 1280;

/// Height of the accumulation image created at start-up.
pub const ACCUM_IMAGE_HEIGHT: u32 = 720;

/// The GPU resource arena and frame-lifecycle controller.
///
/// Mutation of the geometry arena and mesh descriptor table happens only
/// through `&mut self`, so exclusive access during registration is a
/// compile-time guarantee; the render-graph engine sees the data only as
/// the immutable description this client assembles each frame.
pub struct VickiRenderClient {
    /// Accumulation image for the reference mode, threaded across frames.
    pub accum_img: TemporalImage,
    /// One-shot request to clear the accumulation image next frame.
    pub reset_reference_accumulation: bool,
    /// Registry of uploaded meshes, in registration order.
    pub meshes: Vec<UploadedTriMesh>,
    /// Bottom-level acceleration structures, one per mesh, in lockstep
    /// with `meshes`.
    pub mesh_blas: Vec<RayTracingBottomAcceleration>,
    /// The top-level acceleration structure, absent until built.
    pub tlas: Option<RayTracingTopAcceleration>,
    /// GPU-visible mesh descriptor table, one slot per registered mesh.
    pub mesh_descriptors: Vec<GpuMesh>,
    /// The geometry arena: every mesh's streams packed into one buffer.
    pub vertex_arena: BufferBuilder,
    /// Device address of the arena buffer's first byte.
    pub vertex_buffer_device_address: u64,
    /// Sampled images uploaded through `add_image`, kept alive forever.
    pub bindless_images: Vec<BindlessImage>,
    /// Registered lookup-table images, recomputed through the graph.
    pub image_luts: Vec<ImageLut>,
    /// The bindless array slot targeted by each descriptor write so far,
    /// in write order.
    pub image_slot_writes: Vec<u32>,
    /// Next bindless handle to hand out.
    pub next_bindless_image_id: usize,
    /// Which pipeline the next frame is prepared with.
    pub render_mode: RenderMode,
    /// Completed-frame counter; wraps around at the maximum.
    pub frame_idx: u32,
}

impl VickiRenderClient {
    /// The top-level structure's instance list, when one is built.
    pub open spec fn tlas_view(self) -> Option<Seq<usize>> {
        match self.tlas {
            Some(t) => Some(t.instances@),
            None => None,
        }
    }

    /// Internal consistency: registry, descriptor table and acceleration
    /// list move in lockstep and stay within the fixed capacities; every
    /// bindless descriptor write so far targeted exactly the slot of the
    /// handle issued for it.
    pub open spec fn wf(self) -> bool {
        &&& self.vertex_arena.wf()
        &&& self.vertex_arena.capacity == VERTEX_BUFFER_CAPACITY
        &&& self.vertex_buffer_device_address + VERTEX_BUFFER_CAPACITY <= u64::MAX
        &&& self.meshes@.len() == self.mesh_descriptors@.len()
        &&& self.mesh_blas@.len() == self.mesh_descriptors@.len()
        &&& self.mesh_descriptors@.len() <= MAX_GPU_MESHES
        &&& self.next_bindless_image_id == self.image_slot_writes@.len()
        &&& self.next_bindless_image_id <= MAX_BINDLESS_DESCRIPTOR_COUNT
        &&& forall|i: int|
            0 <= i < self.image_slot_writes@.len() ==> self.image_slot_writes@[i] == i as u32
        &&& self.next_bindless_image_id == self.bindless_images@.len() + self.image_luts@.len()
        &&& (self.tlas matches Some(t) ==> {
            &&& t.instances@.len() <= self.mesh_blas@.len()
            &&& forall|i: int| 0 <= i < t.instances@.len() ==> t.instances@[i] == i as usize
        })
    }

    /// A fresh client over an empty geometry arena whose device buffer
    /// starts at `vertex_buffer_device_address`: no meshes, no images, no
    /// top-level acceleration structure, standard mode, frame index 0.
    pub fn new(vertex_buffer_device_address: u64) -> (r: Self)
        requires
            vertex_buffer_device_address + VERTEX_BUFFER_CAPACITY <= u64::MAX,
        ensures
            r.wf(),
            r.meshes@.len() == 0,
            r.mesh_blas@.len() == 0,
            r.mesh_descriptors@.len() == 0,
            r.tlas is None,
            r.vertex_arena.written() == 0,
            r.vertex_arena.capacity == VERTEX_BUFFER_CAPACITY,
            r.vertex_buffer_device_address == vertex_buffer_device_address,
            r.bindless_images@.len() == 0,
            r.image_luts@.len() == 0,
            r.next_bindless_image_id == 0,
            r.render_mode == RenderMode::Standard,
            r.frame_idx == 0,
            r.reset_reference_accumulation == false,
            r.accum_img.access_type == AccessType::Nothing,
            r.accum_img.last_rg_handle is None,
            r.accum_img.resource == (ImageDesc {
                format: ImageFormat::R32G32B32A32Sfloat,
                width: ACCUM_IMAGE_WIDTH,
                height: ACCUM_IMAGE_HEIGHT,
            }),
    {
        VickiRenderClient {
            accum_img: TemporalImage::new(
                ImageDesc {
                    format: ImageFormat::R32G32B32A32Sfloat,
                    width: ACCUM_IMAGE_WIDTH,
                    height: ACCUM_IMAGE_HEIGHT,
                },
            ),
            reset_reference_accumulation: false,
            meshes: Vec::new(),
            mesh_blas: Vec::new(),
            tlas: None,
            mesh_descriptors: Vec::new(),
            vertex_arena: BufferBuilder::new(VERTEX_BUFFER_CAPACITY),
            vertex_buffer_device_address,
            bindless_images: Vec::new(),
            image_luts: Vec::new(),
            image_slot_writes: Vec::new(),
            next_bindless_image_id: 0,
            render_mode: RenderMode::Standard,
            frame_idx: 0,
        }
    }

    /// Issues the next bindless handle and records the descriptor write,
    /// which targets exactly the array slot the handle names.
    fn add_bindless_image_view(&mut self) -> (r: BindlessImageHandle)
        requires
            old(self).next_bindless_image_id == old(self).image_slot_writes@.len(),
            old(self).next_bindless_image_id < MAX_BINDLESS_DESCRIPTOR_COUNT,
        ensures
            r == (BindlessImageHandle(old(self).next_bindless_image_id as u32)),
            final(self).next_bindless_image_id == old(self).next_bindless_image_id + 1,
            final(self).image_slot_writes@ == old(self).image_slot_writes@.push(r.0),
            final(self).accum_img == old(self).accum_img,
            final(self).reset_reference_accumulation == old(self).reset_reference_accumulation,
            final(self).meshes == old(self).meshes,
            final(self).mesh_blas == old(self).mesh_blas,
            final(self).tlas == old(self).tlas,
            final(self).mesh_descriptors == old(self).mesh_descriptors,
            final(self).vertex_arena == old(self).vertex_arena,
            final(self).vertex_buffer_device_address == old(self).vertex_buffer_device_address,
            final(self).bindless_images == old(self).bindless_images,
            final(self).image_luts == old(self).image_luts,
            final(self).render_mode == old(self).render_mode,
            final(self).frame_idx == old(self).frame_idx,
    {
        let handle = BindlessImageHandle(self.next_bindless_image_id as u32);
        self.next_bindless_image_id = self.next_bindless_image_id + 1;
        self.image_slot_writes.push(handle.0);
        handle
    }

    /// Registers a procedurally computed lookup-table image. Callers rely
    /// on LUT handles being predictable across runs, so the call fails,
    /// registering nothing, unless the handle it would assign equals the
    /// expected `id` (and the bindless array has room for it).
    pub fn add_image_lut(&mut self, id: usize) -> (r: Result<(), RenderError>)
        requires
            old(self).wf(),
        ensures
            final(self).wf(),
            old(self).next_bindless_image_id != id ==> r == Err::<(), RenderError>(
                RenderError::LutHandleMismatch,
            ) && *final(self) == *old(self),
            old(self).next_bindless_image_id == id && id == MAX_BINDLESS_DESCRIPTOR_COUNT ==> r
                == Err::<(), RenderError>(RenderError::BindlessCapacityExceeded) && *final(self)
                == *old(self),
            old(self).next_bindless_image_id == id && id < MAX_BINDLESS_DESCRIPTOR_COUNT ==> {
                &&& r == Ok::<(), RenderError>(())
                &&& final(self).next_bindless_image_id == id + 1
                &&& final(self).image_luts@ == old(self).image_luts@.push(
                    ImageLut { handle: BindlessImageHandle(id as u32) },
                )
                &&& final(self).image_slot_writes@ == old(self).image_slot_writes@.push(id as u32)
                &&& final(self).bindless_images == old(self).bindless_images
                &&& final(self).accum_img == old(self).accum_img
                &&& final(self).reset_reference_accumulation == old(
                    self,
                ).reset_reference_accumulation
                &&& final(self).meshes == old(self).meshes
                &&& final(self).mesh_blas == old(self).mesh_blas
                &&& final(self).tlas == old(self).tlas
                &&& final(self).mesh_descriptors == old(self).mesh_descriptors
                &&& final(self).vertex_arena == old(self).vertex_arena
                &&& final(self).vertex_buffer_device_address == old(
                    self,
                ).vertex_buffer_device_address
                &&& final(self).render_mode == old(self).render_mode
                &&& final(self).frame_idx == old(self).frame_idx
            },
    {
        if self.next_bindless_image_id != id {
            return Err(RenderError::LutHandleMismatch);
        }
        if self.next_bindless_image_id == MAX_BINDLESS_DESCRIPTOR_COUNT {
            return Err(RenderError::BindlessCapacityExceeded);
        }
        let handle = self.add_bindless_image_view();
        self.image_luts.push(ImageLut { handle });
        Ok(())
    }

    /// Uploads decoded RGBA8 pixel data as a sampled image — gamma-aware
    /// color format chosen from the texture parameters, row pitch of four
    /// bytes per texel — registers it in the bindless array, and returns
    /// its handle: the count of registrations made before it.
    pub fn add_image(&mut self, src: &RawRgba8Image, params: TexParams) -> (r: Result<
        BindlessImageHandle,
        RenderError,
    >)
        requires
            old(self).wf(),
        ensures
            final(self).wf(),
            old(self).next_bindless_image_id == MAX_BINDLESS_DESCRIPTOR_COUNT ==> r == Err::<
                BindlessImageHandle,
                RenderError,
            >(RenderError::BindlessCapacityExceeded) && *final(self) == *old(self),
            old(self).next_bindless_image_id < MAX_BINDLESS_DESCRIPTOR_COUNT ==> {
                &&& r == Ok::<BindlessImageHandle, RenderError>(
                    BindlessImageHandle(old(self).next_bindless_image_id as u32),
                )
                &&& final(self).next_bindless_image_id == old(self).next_bindless_image_id + 1
                &&& final(self).bindless_images@ == old(self).bindless_images@.push(
                    BindlessImage {
                        format: texture_format(params.gamma),
                        width: src.width,
                        height: src.height,
                        row_pitch: (src.width as u64 * 4) as u64,
                    },
                )
                &&& final(self).image_slot_writes@ == old(self).image_slot_writes@.push(
                    old(self).next_bindless_image_id as u32,
                )
                &&& final(self).image_luts == old(self).image_luts
                &&& final(self).accum_img == old(self).accum_img
                &&& final(self).reset_reference_accumulation == old(
                    self,
                ).reset_reference_accumulation
                &&& final(self).meshes == old(self).meshes
                &&& final(self).mesh_blas == old(self).mesh_blas
                &&& final(self).tlas == old(self).tlas
                &&& final(self).mesh_descriptors == old(self).mesh_descriptors
                &&& final(self).vertex_arena == old(self).vertex_arena
                &&& final(self).vertex_buffer_device_address == old(
                    self,
                ).vertex_buffer_device_address
                &&& final(self).render_mode == old(self).render_mode
                &&& final(self).frame_idx == old(self).frame_idx
            },
    {
        if self.next_bindless_image_id == MAX_BINDLESS_DESCRIPTOR_COUNT {
            return Err(RenderError::BindlessCapacityExceeded);
        }
        let format = match params.gamma {
            crate::bindless::TexGamma::Linear => ImageFormat::R8G8B8A8Unorm,
            crate::bindless::TexGamma::Srgb => ImageFormat::R8G8B8A8Srgb,
        };
        let image = BindlessImage {
            format,
            width: src.width,
            height: src.height,
            row_pitch: (src.width as u64 * 4) as u64,
        };
        let handle = self.add_bindless_image_view();
        self.bindless_images.push(image);
        Ok(handle)
    }
}

/// The cursor after a stream of `len` bytes would be appended at `cursor`
/// with the mesh stream alignment, or `None` when it would overrun
/// `capacity`.
fn checked_stream_end(cursor: usize, len: usize, capacity: usize) -> (r: Option<usize>)
    requires
        cursor <= capacity,
    ensures
        r matches Some(e) ==> e == stream_end(cursor as int, len as int) && cursor <= e
            <= capacity,
        r is None ==> stream_end(cursor as int, len as int) > capacity,
{
    if len == 0 {
        return Some(cursor);
    }
    let rem = cursor % MESH_STREAM_ALIGN;
    let pad = if rem == 0 {
        0
    } else {
        MESH_STREAM_ALIGN - rem
    };
    proof {
        lemma_align_up(cursor as int, MESH_STREAM_ALIGN as int);
        assert(cursor + pad == align_up(cursor as int, MESH_STREAM_ALIGN as int));
    }
    if pad > capacity - cursor {
        return None;
    }
    let start = cursor + pad;
    if len > capacity - start {
        return None;
    }
    Some(start + len)
}

impl VickiRenderClient {
    /// Registers a mesh: packs its six streams into the geometry arena in
    /// the fixed order (indices, vertex cores, uvs, material ids, colors,
    /// material data), writes the resulting offsets into the next free
    /// descriptor-table slot, and appends the registry entry and the
    /// bottom-level acceleration data at that same index, which is
    /// returned — slot, registry and acceleration order stay in lockstep.
    ///
    /// Fails, with the client unchanged, when every slot is taken, when
    /// the mesh has no indices, or when the streams do not fit in the
    /// arena: there are no partial writes.
    #[verifier::rlimit(100)]
    #[verifier::spinoff_prover]
    pub fn add_mesh(&mut self, mesh: &PackedTriangleMesh) -> (r: Result<usize, RenderError>)
        requires
            old(self).wf(),
        ensures
            final(self).wf(),
            old(self).meshes@.len() >= MAX_GPU_MESHES ==> r == Err::<usize, RenderError>(
                RenderError::MeshSlotsExhausted,
            ) && *final(self) == *old(self),
            old(self).meshes@.len() < MAX_GPU_MESHES && mesh.indices@.len() == 0 ==> r == Err::<
                usize,
                RenderError,
            >(RenderError::EmptyMesh) && *final(self) == *old(self),
            old(self).meshes@.len() < MAX_GPU_MESHES && mesh.indices@.len() > 0
                && mesh_stream_offsets(old(self).vertex_arena.written(), *mesh).6
                > VERTEX_BUFFER_CAPACITY ==> r == Err::<usize, RenderError>(
                RenderError::ArenaCapacityExceeded,
            ) && *final(self) == *old(self),
            old(self).meshes@.len() < MAX_GPU_MESHES && mesh.indices@.len() > 0
                && mesh_stream_offsets(old(self).vertex_arena.written(), *mesh).6
                <= VERTEX_BUFFER_CAPACITY ==> {
                let offs = mesh_stream_offsets(old(self).vertex_arena.written(), *mesh);
                &&& r == Ok::<usize, RenderError>(old(self).meshes@.len() as usize)
                &&& final(self).mesh_descriptors@ == old(self).mesh_descriptors@.push(
                    GpuMesh {
                        vertex_core_offset: offs.1 as u32,
                        vertex_uv_offset: offs.2 as u32,
                        vertex_mat_offset: offs.3 as u32,
                        vertex_aux_offset: offs.4 as u32,
                        mat_data_offset: offs.5 as u32,
                        index_offset: offs.0 as u32,
                    },
                )
                &&& final(self).meshes@ == old(self).meshes@.push(
                    UploadedTriMesh {
                        index_buffer_offset: offs.0 as u64,
                        index_count: mesh.indices@.len() as u32,
                    },
                )
                &&& final(self).mesh_blas@ == old(self).mesh_blas@.push(
                    RayTracingBottomAcceleration {
                        vertex_buffer_address: (old(self).vertex_buffer_device_address
                            + offs.1) as u64,
                        index_buffer_address: (old(self).vertex_buffer_device_address
                            + offs.0) as u64,
                        index_count: mesh.indices@.len() as usize,
                        max_vertex: max_index_of(mesh.indices@) as u32,
                    },
                )
                &&& final(self).vertex_arena.written() == offs.6
                &&& forall|i: int|
                    0 <= i < old(self).vertex_arena.written() ==> final(self).vertex_arena.contents()[i] == old(self).vertex_arena.contents()[i]
                &&& forall|j: int|
                    0 <= j < mesh.indices@.len() * 4 ==> final(self).vertex_arena.contents()[offs.0
                        + j] == u32s_le_bytes(mesh.indices@)[j]
                &&& forall|j: int|
                    0 <= j < mesh.verts@.len() ==> final(self).vertex_arena.contents()[offs.1 + j]
                        == mesh.verts@[j]
                &&& forall|j: int|
                    0 <= j < mesh.uvs@.len() ==> final(self).vertex_arena.contents()[offs.2 + j]
                        == mesh.uvs@[j]
                &&& forall|j: int|
                    0 <= j < mesh.material_ids@.len() ==> final(self).vertex_arena.contents()[offs.3
                        + j] == mesh.material_ids@[j]
                &&& forall|j: int|
                    0 <= j < mesh.colors@.len() ==> final(self).vertex_arena.contents()[offs.4 + j]
                        == mesh.colors@[j]
                &&& forall|j: int|
                    0 <= j < mesh.materials@.len() ==> final(self).vertex_arena.contents()[offs.5
                        + j] == mesh.materials@[j]
                &&& final(self).tlas == old(self).tlas
                &&& final(self).accum_img == old(self).accum_img
                &&& final(self).reset_reference_accumulation == old(
                    self,
                ).reset_reference_accumulation
                &&& final(self).vertex_buffer_device_address == old(
                    self,
                ).vertex_buffer_device_address
                &&& final(self).bindless_images == old(self).bindless_images
                &&& final(self).image_luts == old(self).image_luts
                &&& final(self).image_slot_writes == old(self).image_slot_writes
                &&& final(self).next_bindless_image_id == old(self).next_bindless_image_id
                &&& final(self).render_mode == old(self).render_mode
                &&& final(self).frame_idx == old(self).frame_idx
            },
    {
        if self.meshes.len() >= MAX_GPU_MESHES {
            return Err(RenderError::MeshSlotsExhausted);
        }
        if mesh.indices.len() == 0 {
            return Err(RenderError::EmptyMesh);
        }
        let index_bytes = u32s_to_le_bytes(&mesh.indices);
        let ghost offs = mesh_stream_offsets(old(self).vertex_arena.written(), *mesh);

        // Pre-check that all six streams fit, so that a failed call has
        // written nothing at all.
        let w0 = self.vertex_arena.written_bytes();
        let e1 = match checked_stream_end(w0, index_bytes.len(), VERTEX_BUFFER_CAPACITY) {
            Some(e) => e,
            None => {
                proof {
                    lemma_mesh_offsets_end_monotonic(w0 as int, *mesh);
                }
                return Err(RenderError::ArenaCapacityExceeded);
            },
        };
        let e2 = match checked_stream_end(e1, mesh.verts.len(), VERTEX_BUFFER_CAPACITY) {
            Some(e) => e,
            None => {
                proof {
                    lemma_mesh_offsets_end_monotonic(w0 as int, *mesh);
                }
                return Err(RenderError::ArenaCapacityExceeded);
            },
        };
        let e3 = match checked_stream_end(e2, mesh.uvs.len(), VERTEX_BUFFER_CAPACITY) {
            Some(e) => e,
            None => {
                proof {
                    lemma_mesh_offsets_end_monotonic(w0 as int, *mesh);
                }
                return Err(RenderError::ArenaCapacityExceeded);
            },
        };
        let e4 = match checked_stream_end(e3, mesh.material_ids.len(), VERTEX_BUFFER_CAPACITY) {
            Some(e) => e,
            None => {
                proof {
                    lemma_mesh_offsets_end_monotonic(w0 as int, *mesh);
                }
                return Err(RenderError::ArenaCapacityExceeded);
            },
        };
        let e5 = match checked_stream_end(e4, mesh.colors.len(), VERTEX_BUFFER_CAPACITY) {
            Some(e) => e,
            None => {
                proof {
                    lemma_mesh_offsets_end_monotonic(w0 as int, *mesh);
                }
                return Err(RenderError::ArenaCapacityExceeded);
            },
        };
        let e6 = match checked_stream_end(e5, mesh.materials.len(), VERTEX_BUFFER_CAPACITY) {
            Some(e) => e,
            None => {
                proof {
                    lemma_mesh_offsets_end_monotonic(w0 as int, *mesh);
                }
                return Err(RenderError::ArenaCapacityExceeded);
            },
        };
        proof {
            lemma_four_is_power_of_two();
            assert(e6 == offs.6);
        }

        let ghost a0 = self.vertex_arena;
        let off_index = match self.vertex_arena.append(index_bytes.as_slice(), MESH_STREAM_ALIGN) {
            Ok(o) => o,
            Err(_) => {
                proof {
                    assert(false);
                }
                vstd::pervasive::unreached()
            },
        };
        let ghost a1 = self.vertex_arena;
        let off_core = match self.vertex_arena.append(mesh.verts.as_slice(), MESH_STREAM_ALIGN) {
            Ok(o) => o,
            Err(_) => {
                proof {
                    assert(false);
                }
                vstd::pervasive::unreached()
            },
        };
        let ghost a2 = self.vertex_arena;
        let off_uv = match self.vertex_arena.append(mesh.uvs.as_slice(), MESH_STREAM_ALIGN) {
            Ok(o) => o,
            Err(_) => {
                proof {
                    assert(false);
                }
                vstd::pervasive::unreached()
            },
        };
        let ghost a3 = self.vertex_arena;
        let off_mat = match self.vertex_arena.append(
            mesh.material_ids.as_slice(),
            MESH_STREAM_ALIGN,
        ) {
            Ok(o) => o,
            Err(_) => {
                proof {
                    assert(false);
                }
                vstd::pervasive::unreached()
            },
        };
        let ghost a4 = self.vertex_arena;
        let off_aux = match self.vertex_arena.append(mesh.colors.as_slice(), MESH_STREAM_ALIGN) {
            Ok(o) => o,
            Err(_) => {
                proof {
                    assert(false);
                }
                vstd::pervasive::unreached()
            },
        };
        let ghost a5 = self.vertex_arena;
        let off_mat_data = match self.vertex_arena.append(
            mesh.materials.as_slice(),
            MESH_STREAM_ALIGN,
        ) {
            Ok(o) => o,
            Err(_) => {
                proof {
                    assert(false);
                }
                vstd::pervasive::unreached()
            },
        };
        let ghost a6 = self.vertex_arena;
        proof {
            assert(off_index == offs.0 && off_core == offs.1 && off_uv == offs.2 && off_mat
                == offs.3 && off_aux == offs.4 && off_mat_data == offs.5 && a6.written() == offs.6);
        }

        let idx = self.meshes.len();
        let max_vertex = max_index(&mesh.indices);
        self.mesh_descriptors.push(
            GpuMesh {
                vertex_core_offset: off_core as u32,
                vertex_uv_offset: off_uv as u32,
                vertex_mat_offset: off_mat as u32,
                vertex_aux_offset: off_aux as u32,
                mat_data_offset: off_mat_data as u32,
                index_offset: off_index as u32,
            },
        );
        self.meshes.push(
            UploadedTriMesh {
                index_buffer_offset: off_index as u64,
                index_count: mesh.indices.len() as u32,
            },
        );
        self.mesh_blas.push(
            RayTracingBottomAcceleration {
                vertex_buffer_address: self.vertex_buffer_device_address + off_core as u64,
                index_buffer_address: self.vertex_buffer_device_address + off_index as u64,
                index_count: mesh.indices.len(),
                max_vertex,
            },
        );
        proof {
            assert forall|j: int|
                0 <= j < mesh.indices@.len() * 4 implies self.vertex_arena.contents()[offs.0 + j]
                == u32s_le_bytes(mesh.indices@)[j] by {
                assert(a1.contents()[offs.0 + j] == index_bytes@[j]);
                assert(a2.contents()[offs.0 + j] == a1.contents()[offs.0 + j]);
                assert(a3.contents()[offs.0 + j] == a2.contents()[offs.0 + j]);
                assert(a4.contents()[offs.0 + j] == a3.contents()[offs.0 + j]);
                assert(a5.contents()[offs.0 + j] == a4.contents()[offs.0 + j]);
                assert(a6.contents()[offs.0 + j] == a5.contents()[offs.0 + j]);
            }
            assert forall|j: int|
                0 <= j < mesh.verts@.len() implies self.vertex_arena.contents()[offs.1 + j]
                == mesh.verts@[j] by {
                assert(a2.contents()[offs.1 + j] == mesh.verts@[j]);
                assert(a3.contents()[offs.1 + j] == a2.contents()[offs.1 + j]);
                assert(a4.contents()[offs.1 + j] == a3.contents()[offs.1 + j]);
                assert(a5.contents()[offs.1 + j] == a4.contents()[offs.1 + j]);
                assert(a6.contents()[offs.1 + j] == a5.contents()[offs.1 + j]);
            }
            assert forall|j: int|
                0 <= j < mesh.uvs@.len() implies self.vertex_arena.contents()[offs.2 + j]
                == mesh.uvs@[j] by {
                assert(a3.contents()[offs.2 + j] == mesh.uvs@[j]);
                assert(a4.contents()[offs.2 + j] == a3.contents()[offs.2 + j]);
                assert(a5.contents()[offs.2 + j] == a4.contents()[offs.2 + j]);
                assert(a6.contents()[offs.2 + j] == a5.contents()[offs.2 + j]);
            }
            assert forall|j: int|
                0 <= j < mesh.material_ids@.len() implies self.vertex_arena.contents()[offs.3 + j]
                == mesh.material_ids@[j] by {
                assert(a4.contents()[offs.3 + j] == mesh.material_ids@[j]);
                assert(a5.contents()[offs.3 + j] == a4.contents()[offs.3 + j]);
                assert(a6.contents()[offs.3 + j] == a5.contents()[offs.3 + j]);
            }
            assert forall|j: int|
                0 <= j < mesh.colors@.len() implies self.vertex_arena.contents()[offs.4 + j]
                == mesh.colors@[j] by {
                assert(a5.contents()[offs.4 + j] == mesh.colors@[j]);
                assert(a6.contents()[offs.4 + j] == a5.contents()[offs.4 + j]);
            }
        }
        Ok(idx)
    }
}

/// The compute steps refreshing all `n` registered lookup-table images,
/// issued every frame before the mode-specific passes.
pub open spec fn lut_compute_steps(n: int) -> Seq<RenderGraphStep> {
    Seq::new(n as nat, |i: int| RenderGraphStep::ComputeImageLut { lut_index: i as usize })
}

/// The steps of the standard (rasterized hybrid) frame graph, when the
/// graph already holds `r0` resources: create and clear a depth image and
/// a g-buffer, raster all registered meshes into them, import the
/// top-level acceleration structure, trace the sun shadow mask against the
/// depth image, create and clear the lit output, light the g-buffer with
/// the shadow mask, and export the lit image for presentation.
pub open spec fn standard_graph_steps(r0: int, mesh_count: int) -> Seq<RenderGraphStep> {
    seq![
        RenderGraphStep::CreateImage { resource: r0 as usize },
        RenderGraphStep::ClearDepth { image: r0 as usize },
        RenderGraphStep::CreateImage { resource: (r0 + 1) as usize },
        RenderGraphStep::ClearColor { image: (r0 + 1) as usize },
        RenderGraphStep::RasterMeshes {
            depth: r0 as usize,
            gbuffer: (r0 + 1) as usize,
            mesh_count: mesh_count as usize,
        },
        RenderGraphStep::ImportAcceleration { resource: (r0 + 2) as usize },
        RenderGraphStep::TraceSunShadowMask {
            depth: r0 as usize,
            acceleration: (r0 + 2) as usize,
            output: (r0 + 3) as usize,
        },
        RenderGraphStep::CreateImage { resource: (r0 + 4) as usize },
        RenderGraphStep::ClearColor { image: (r0 + 4) as usize },
        RenderGraphStep::LightGbuffer {
            gbuffer: (r0 + 1) as usize,
            depth: r0 as usize,
            shadow_mask: (r0 + 3) as usize,
            output: (r0 + 4) as usize,
        },
        RenderGraphStep::ExportImage {
            image: (r0 + 4) as usize,
            access: AccessType::AnyShaderReadSampledImageOrUniformTexelBuffer,
        },
    ]
}

/// The resources the standard frame graph adds, in creation order: depth,
/// g-buffer, the imported acceleration structure, the traced shadow mask,
/// and the lit output, all sized to the window.
pub open spec fn standard_graph_resources(w: u32, h: u32) -> Seq<GraphResource> {
    seq![
        GraphResource::TransientImage {
            desc: ImageDesc { format: ImageFormat::D24UnormS8Uint, width: w, height: h },
        },
        GraphResource::TransientImage {
            desc: ImageDesc { format: ImageFormat::R32G32B32A32Sfloat, width: w, height: h },
        },
        GraphResource::ImportedAcceleration { access: AccessType::AnyShaderReadOther },
        GraphResource::TransientImage {
            desc: ImageDesc { format: ImageFormat::R8Unorm, width: w, height: h },
        },
        GraphResource::TransientImage {
            desc: ImageDesc { format: ImageFormat::R16G16B16A16Sfloat, width: w, height: h },
        },
    ]
}

/// The steps of the reference (path-traced) frame graph: import the
/// accumulation image at its last-known access state, clear it exactly
/// when a reset was requested, import the top-level acceleration
/// structure, accumulate one more sample, normalize the accumulation into
/// a display-ready image, export the accumulation image for temporal
/// carry-over, and export the normalized image for presentation.
pub open spec fn reference_graph_steps(r0: int, reset: bool) -> Seq<RenderGraphStep> {
    let head = seq![RenderGraphStep::ImportImage { resource: r0 as usize }];
    let clear: Seq<RenderGraphStep> = if reset {
        seq![RenderGraphStep::ClearColor { image: r0 as usize }]
    } else {
        Seq::empty()
    };
    let tail = seq![
        RenderGraphStep::ImportAcceleration { resource: (r0 + 1) as usize },
        RenderGraphStep::ReferencePathTrace {
            accum: r0 as usize,
            acceleration: (r0 + 1) as usize,
        },
        RenderGraphStep::NormalizeAccum { accum: r0 as usize, output: (r0 + 2) as usize },
        RenderGraphStep::ExportImage { image: r0 as usize, access: AccessType::Nothing },
        RenderGraphStep::ExportImage {
            image: (r0 + 2) as usize,
            access: AccessType::AnyShaderReadSampledImageOrUniformTexelBuffer,
        },
    ];
    head + clear + tail
}

/// Law: an accumulation reset is one-shot. A reference frame prepared
/// with the reset flag set clears the imported accumulation image (and
/// `prepare_render_graph` guarantees the flag is consumed by that call);
/// a reference frame prepared with the flag clear contains no clear of
/// any image at all, so later frames never re-clear without a new
/// request.
pub proof fn lemma_reference_reset_is_one_shot(r0: int)
    ensures
        reference_graph_steps(r0, true).contains(
            (RenderGraphStep::ClearColor { image: r0 as usize }),
        ),
        forall|img: usize|
            !reference_graph_steps(r0, false).contains((RenderGraphStep::ClearColor { image: img })),
        reference_graph_steps(r0, true).len() == reference_graph_steps(r0, false).len() + 1,
{
    let with_reset = reference_graph_steps(r0, true);
    let without = reference_graph_steps(r0, false);
    assert(with_reset[1] == (RenderGraphStep::ClearColor { image: r0 as usize }));
    assert(without =~= seq![
        RenderGraphStep::ImportImage { resource: r0 as usize },
        RenderGraphStep::ImportAcceleration { resource: (r0 + 1) as usize },
        RenderGraphStep::ReferencePathTrace {
            accum: r0 as usize,
            acceleration: (r0 + 1) as usize,
        },
        RenderGraphStep::NormalizeAccum { accum: r0 as usize, output: (r0 + 2) as usize },
        RenderGraphStep::ExportImage { image: r0 as usize, access: AccessType::Nothing },
        RenderGraphStep::ExportImage {
            image: (r0 + 2) as usize,
            access: AccessType::AnyShaderReadSampledImageOrUniformTexelBuffer,
        },
    ]);
    assert forall|img: usize|
        !without.contains((RenderGraphStep::ClearColor { image: img })) by {
        assert(forall|i: int|
            0 <= i < without.len() ==> !(#[trigger] without[i] matches RenderGraphStep::ClearColor {
                image,
            }));
    }
}

/// The resources the reference frame graph adds: the imported accumulation
/// image, the imported acceleration structure, and the normalized output
/// image sized like the accumulation image.
pub open spec fn reference_graph_resources(accum: TemporalImage) -> Seq<GraphResource> {
    seq![
        GraphResource::ImportedImage { desc: accum.resource, access: accum.access_type },
        GraphResource::ImportedAcceleration { access: AccessType::AnyShaderReadOther },
        GraphResource::TransientImage {
            desc: ImageDesc {
                format: ImageFormat::R16G16B16A16Sfloat,
                width: accum.resource.width,
                height: accum.resource.height,
            },
        },
    ]
}

impl VickiRenderClient {
    /// Builds the top-level acceleration structure: one instance per
    /// bottom-level structure currently registered, in registration order.
    /// Any previously built structure is replaced entirely.
    pub fn build_ray_tracing_top_level_acceleration(&mut self)
        requires
            old(self).wf(),
        ensures
            final(self).wf(),
            final(self).tlas_view() == Some(
                Seq::new(old(self).mesh_blas@.len(), |i: int| i as usize),
            ),
            final(self).accum_img == old(self).accum_img,
            final(self).reset_reference_accumulation == old(self).reset_reference_accumulation,
            final(self).meshes == old(self).meshes,
            final(self).mesh_blas == old(self).mesh_blas,
            final(self).mesh_descriptors == old(self).mesh_descriptors,
            final(self).vertex_arena == old(self).vertex_arena,
            final(self).vertex_buffer_device_address == old(self).vertex_buffer_device_address,
            final(self).bindless_images == old(self).bindless_images,
            final(self).image_luts == old(self).image_luts,
            final(self).image_slot_writes == old(self).image_slot_writes,
            final(self).next_bindless_image_id == old(self).next_bindless_image_id,
            final(self).render_mode == old(self).render_mode,
            final(self).frame_idx == old(self).frame_idx,
    {
        let mut instances: Vec<usize> = Vec::new();
        let n = self.mesh_blas.len();
        let mut i: usize = 0;
        while i < n
            invariant
                i <= n,
                instances@ == Seq::new(i as nat, |k: int| k as usize),
            decreases n - i,
        {
            instances.push(i);
            i += 1;
            proof {
                assert(instances@ =~= Seq::new(i as nat, |k: int| k as usize));
            }
        }
        self.tlas = Some(RayTracingTopAcceleration { instances });
    }

    /// Sets the frame index back to 0, whatever the render mode; used when
    /// temporal accumulation is invalidated. Nothing else changes.
    pub fn reset_frame_idx(&mut self)
        ensures
            final(self).frame_idx == 0,
            final(self).accum_img == old(self).accum_img,
            final(self).reset_reference_accumulation == old(self).reset_reference_accumulation,
            final(self).meshes == old(self).meshes,
            final(self).mesh_blas == old(self).mesh_blas,
            final(self).tlas == old(self).tlas,
            final(self).mesh_descriptors == old(self).mesh_descriptors,
            final(self).vertex_arena == old(self).vertex_arena,
            final(self).vertex_buffer_device_address == old(self).vertex_buffer_device_address,
            final(self).bindless_images == old(self).bindless_images,
            final(self).image_luts == old(self).image_luts,
            final(self).image_slot_writes == old(self).image_slot_writes,
            final(self).next_bindless_image_id == old(self).next_bindless_image_id,
            final(self).render_mode == old(self).render_mode,
    {
        self.frame_idx = 0;
    }

    /// Law: selecting the pipeline is independent of the frame counter.
    /// Switching modes, in either direction, never resets the frame index
    /// or touches any other state.
    pub fn set_render_mode(&mut self, mode: RenderMode)
        ensures
            final(self).render_mode == mode,
            final(self).frame_idx == old(self).frame_idx,
            final(self).accum_img == old(self).accum_img,
            final(self).reset_reference_accumulation == old(self).reset_reference_accumulation,
            final(self).meshes == old(self).meshes,
            final(self).mesh_blas == old(self).mesh_blas,
            final(self).tlas == old(self).tlas,
            final(self).mesh_descriptors == old(self).mesh_descriptors,
            final(self).vertex_arena == old(self).vertex_arena,
            final(self).vertex_buffer_device_address == old(self).vertex_buffer_device_address,
            final(self).bindless_images == old(self).bindless_images,
            final(self).image_luts == old(self).image_luts,
            final(self).image_slot_writes == old(self).image_slot_writes,
            final(self).next_bindless_image_id == old(self).next_bindless_image_id,
    {
        self.render_mode = mode;
    }

    /// Assembles the standard frame graph and returns the exported handle
    /// of the lit output image. The client itself is read, never changed.
    fn prepare_render_graph_standard(&mut self, rg: &mut RenderGraph, frame_state: &FrameState) -> (r:
        ExportedHandle)
        requires
            old(self).wf(),
        ensures
            *final(self) == *old(self),
            r == (ExportedHandle(old(rg).exports@.len() as usize)),
            final(rg).steps@ == old(rg).steps@ + standard_graph_steps(
                old(rg).resources@.len() as int,
                old(self).meshes@.len() as int,
            ),
            final(rg).resources@ == old(rg).resources@ + standard_graph_resources(
                frame_state.window_width,
                frame_state.window_height,
            ),
            final(rg).exports@ == old(rg).exports@.push(
                ExportRecord {
                    image: (old(rg).resources@.len() + 4) as usize,
                    access: AccessType::AnyShaderReadSampledImageOrUniformTexelBuffer,
                },
            ),
            final(rg).layout_view() == old(rg).layout_view(),
    {
        let w = frame_state.window_width;
        let h = frame_state.window_height;
        let depth_img = rg.create_image(
            ImageDesc { format: ImageFormat::D24UnormS8Uint, width: w, height: h },
        );
        rg.clear_depth(depth_img);
        let gbuffer = rg.create_image(
            ImageDesc { format: ImageFormat::R32G32B32A32Sfloat, width: w, height: h },
        );
        rg.clear_color(gbuffer);
        rg.raster_meshes(depth_img, gbuffer, self.meshes.len());
        let tlas_res = rg.import_ray_tracing_acceleration(AccessType::AnyShaderReadOther);
        let sun_shadow_mask = rg.trace_sun_shadow_mask(depth_img, tlas_res);
        let lit = rg.create_image(
            ImageDesc { format: ImageFormat::R16G16B16A16Sfloat, width: w, height: h },
        );
        rg.clear_color(lit);
        rg.light_gbuffer(gbuffer, depth_img, sun_shadow_mask, lit);
        let r = rg.export_image(lit, AccessType::AnyShaderReadSampledImageOrUniformTexelBuffer);
        proof {
            assert(rg.steps@ =~= old(rg).steps@ + standard_graph_steps(
                old(rg).resources@.len() as int,
                old(self).meshes@.len() as int,
            ));
            assert(rg.resources@ =~= old(rg).resources@ + standard_graph_resources(w, h));
        }
        r
    }

    /// Assembles the reference frame graph: consumes a pending
    /// accumulation reset exactly once, records the accumulation image's
    /// new export handle for retirement, and returns the exported handle
    /// of the normalized output image.
    fn prepare_render_graph_reference(
        &mut self,
        rg: &mut RenderGraph,
        _frame_state: &FrameState,
    ) -> (r: ExportedHandle)
        requires
            old(self).wf(),
        ensures
            final(self).wf(),
            r == (ExportedHandle((old(rg).exports@.len() + 1) as usize)),
            final(rg).steps@ == old(rg).steps@ + reference_graph_steps(
                old(rg).resources@.len() as int,
                old(self).reset_reference_accumulation,
            ),
            final(rg).resources@ == old(rg).resources@ + reference_graph_resources(
                old(self).accum_img,
            ),
            final(rg).exports@ == old(rg).exports@ + seq![
                ExportRecord {
                    image: old(rg).resources@.len() as usize,
                    access: AccessType::Nothing,
                },
                ExportRecord {
                    image: (old(rg).resources@.len() + 2) as usize,
                    access: AccessType::AnyShaderReadSampledImageOrUniformTexelBuffer,
                },
            ],
            final(rg).layout_view() == old(rg).layout_view(),
            final(self).reset_reference_accumulation == false,
            final(self).accum_img.last_rg_handle == Some(
                ExportedHandle(old(rg).exports@.len() as usize),
            ),
            final(self).accum_img.resource == old(self).accum_img.resource,
            final(self).accum_img.access_type == old(self).accum_img.access_type,
            final(self).meshes == old(self).meshes,
            final(self).mesh_blas == old(self).mesh_blas,
            final(self).tlas == old(self).tlas,
            final(self).mesh_descriptors == old(self).mesh_descriptors,
            final(self).vertex_arena == old(self).vertex_arena,
            final(self).vertex_buffer_device_address == old(self).vertex_buffer_device_address,
            final(self).bindless_images == old(self).bindless_images,
            final(self).image_luts == old(self).image_luts,
            final(self).image_slot_writes == old(self).image_slot_writes,
            final(self).next_bindless_image_id == old(self).next_bindless_image_id,
            final(self).render_mode == old(self).render_mode,
            final(self).frame_idx == old(self).frame_idx,
    {
        let accum = rg.import_image(self.accum_img.resource, self.accum_img.access_type);
        if self.reset_reference_accumulation {
            self.reset_reference_accumulation = false;
            rg.clear_color(accum);
        }
        let tlas_res = rg.import_ray_tracing_acceleration(AccessType::AnyShaderReadOther);
        rg.reference_path_trace(accum, tlas_res);
        let lit = rg.normalize_accum(accum, ImageFormat::R16G16B16A16Sfloat);
        self.accum_img.last_rg_handle = Some(rg.export_image(accum, AccessType::Nothing));
        let r = rg.export_image(lit, AccessType::AnyShaderReadSampledImageOrUniformTexelBuffer);
        proof {
            assert(rg.steps@ =~= old(rg).steps@ + reference_graph_steps(
                old(rg).resources@.len() as int,
                old(self).reset_reference_accumulation,
            ));
            assert(rg.resources@ =~= old(rg).resources@ + reference_graph_resources(
                old(self).accum_img,
            ));
            assert(rg.exports@ =~= old(rg).exports@ + seq![
                ExportRecord {
                    image: old(rg).resources@.len() as usize,
                    access: AccessType::Nothing,
                },
                ExportRecord {
                    image: (old(rg).resources@.len() + 2) as usize,
                    access: AccessType::AnyShaderReadSampledImageOrUniformTexelBuffer,
                },
            ]);
        }
        r
    }

    /// Prepares one frame's render-graph description, in strict order:
    /// installs the bindless layout into the graph's predefined layout
    /// registry (idempotent), issues the compute step of every registered
    /// lookup-table image, then assembles the active mode's graph and
    /// returns the exported handle of the frame's output image.
    ///
    /// The top-level acceleration structure must have been built first:
    /// without it the call fails with the graph and client untouched.
    pub fn prepare_render_graph(&mut self, rg: &mut RenderGraph, frame_state: &FrameState) -> (r:
        Result<ExportedHandle, RenderError>)
        requires
            old(self).wf(),
        ensures
            final(self).wf(),
            old(self).tlas is None ==> r == Err::<ExportedHandle, RenderError>(
                RenderError::NoTopLevelAcceleration,
            ) && *final(self) == *old(self) && *final(rg) == *old(rg),
            old(self).tlas is Some ==> {
                &&& final(rg).layout_view() == Some(bindless_layout())
                &&& old(self).render_mode == RenderMode::Standard ==> {
                    &&& r == Ok::<ExportedHandle, RenderError>(
                        ExportedHandle(old(rg).exports@.len() as usize),
                    )
                    &&& final(rg).steps@ == old(rg).steps@ + lut_compute_steps(
                        old(self).image_luts@.len() as int,
                    ) + standard_graph_steps(
                        old(rg).resources@.len() as int,
                        old(self).meshes@.len() as int,
                    )
                    &&& final(rg).resources@ == old(rg).resources@ + standard_graph_resources(
                        frame_state.window_width,
                        frame_state.window_height,
                    )
                    &&& final(rg).exports@ == old(rg).exports@.push(
                        ExportRecord {
                            image: (old(rg).resources@.len() + 4) as usize,
                            access: AccessType::AnyShaderReadSampledImageOrUniformTexelBuffer,
                        },
                    )
                    &&& *final(self) == *old(self)
                }
                &&& old(self).render_mode == RenderMode::Reference ==> {
                    &&& r == Ok::<ExportedHandle, RenderError>(
                        ExportedHandle((old(rg).exports@.len() + 1) as usize),
                    )
                    &&& final(rg).steps@ == old(rg).steps@ + lut_compute_steps(
                        old(self).image_luts@.len() as int,
                    ) + reference_graph_steps(
                        old(rg).resources@.len() as int,
                        old(self).reset_reference_accumulation,
                    )
                    &&& final(rg).resources@ == old(rg).resources@ + reference_graph_resources(
                        old(self).accum_img,
                    )
                    &&& final(rg).exports@ == old(rg).exports@ + seq![
                        ExportRecord {
                            image: old(rg).resources@.len() as usize,
                            access: AccessType::Nothing,
                        },
                        ExportRecord {
                            image: (old(rg).resources@.len() + 2) as usize,
                            access: AccessType::AnyShaderReadSampledImageOrUniformTexelBuffer,
                        },
                    ]
                    &&& final(self).reset_reference_accumulation == false
                    &&& final(self).accum_img.last_rg_handle == Some(
                        ExportedHandle(old(rg).exports@.len() as usize),
                    )
                    &&& final(self).accum_img.resource == old(self).accum_img.resource
                    &&& final(self).accum_img.access_type == old(self).accum_img.access_type
                    &&& final(self).meshes == old(self).meshes
                    &&& final(self).mesh_blas == old(self).mesh_blas
                    &&& final(self).tlas == old(self).tlas
                    &&& final(self).mesh_descriptors == old(self).mesh_descriptors
                    &&& final(self).vertex_arena == old(self).vertex_arena
                    &&& final(self).vertex_buffer_device_address == old(
                        self,
                    ).vertex_buffer_device_address
                    &&& final(self).bindless_images == old(self).bindless_images
                    &&& final(self).image_luts == old(self).image_luts
                    &&& final(self).image_slot_writes == old(self).image_slot_writes
                    &&& final(self).next_bindless_image_id == old(self).next_bindless_image_id
                    &&& final(self).render_mode == old(self).render_mode
                    &&& final(self).frame_idx == old(self).frame_idx
                }
            },
    {
        if self.tlas.is_none() {
            return Err(RenderError::NoTopLevelAcceleration);
        }
        rg.set_predefined_bindless_layout(bindless_descriptor_set_layout());
        let ghost rg1 = *rg;
        let n = self.image_luts.len();
        let mut i: usize = 0;
        while i < n
            invariant
                i <= n,
                rg.steps@ == rg1.steps@ + lut_compute_steps(i as int),
                rg.resources@ == rg1.resources@,
                rg.exports@ == rg1.exports@,
                rg.layout_view() == rg1.layout_view(),
            decreases n - i,
        {
            rg.compute_image_lut(i);
            i += 1;
            proof {
                assert(rg.steps@ =~= rg1.steps@ + lut_compute_steps(i as int));
            }
        }
        match self.render_mode {
            RenderMode::Standard => Ok(self.prepare_render_graph_standard(rg, frame_state)),
            RenderMode::Reference => Ok(self.prepare_render_graph_reference(rg, frame_state)),
        }
    }

    /// Reconciles state after the external engine finished a frame: when a
    /// temporal export handle is pending, the accumulation image's access
    /// state is refreshed from the retired graph's report and the pending
    /// handle is consumed — exactly once per frame; without one, the
    /// access state stays as it was. Then the frame index advances by
    /// exactly one, wrapping from the maximum representable value to 0.
    pub fn retire_render_graph(&mut self, retired: &RetiredRenderGraph)
        requires
            old(self).wf(),
            old(self).accum_img.last_rg_handle matches Some(h) ==> h.0
                < retired.image_states@.len(),
        ensures
            final(self).wf(),
            final(self).frame_idx == if old(self).frame_idx == u32::MAX {
                0u32
            } else {
                (old(self).frame_idx + 1) as u32
            },
            final(self).accum_img.last_rg_handle is None,
            old(self).accum_img.last_rg_handle matches Some(h)
                ==> final(self).accum_img.access_type == retired.image_states@[h.0 as int],
            old(self).accum_img.last_rg_handle is None ==> final(self).accum_img.access_type == old(
                self,
            ).accum_img.access_type,
            final(self).accum_img.resource == old(self).accum_img.resource,
            final(self).reset_reference_accumulation == old(self).reset_reference_accumulation,
            final(self).meshes == old(self).meshes,
            final(self).mesh_blas == old(self).mesh_blas,
            final(self).tlas == old(self).tlas,
            final(self).mesh_descriptors == old(self).mesh_descriptors,
            final(self).vertex_arena == old(self).vertex_arena,
            final(self).vertex_buffer_device_address == old(self).vertex_buffer_device_address,
            final(self).bindless_images == old(self).bindless_images,
            final(self).image_luts == old(self).image_luts,
            final(self).image_slot_writes == old(self).image_slot_writes,
            final(self).next_bindless_image_id == old(self).next_bindless_image_id,
            final(self).render_mode == old(self).render_mode,
    {
        if let Some(handle) = self.accum_img.last_rg_handle {
            self.accum_img.access_type = retired.get_image(handle);
            self.accum_img.last_rg_handle = None;
        }
        self.frame_idx = if self.frame_idx == u32::MAX {
            0
        } else {
            self.frame_idx + 1
        };
    }
}

} // verus!

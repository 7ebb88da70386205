//! Mesh-side data: the GPU mesh descriptor record, the packed triangle
//! mesh handed in by asset loading, the uploaded-mesh registry entry, and
//! the data that bottom- and top-level ray-tracing acceleration structures
//! are built from.
use vstd::prelude::*;

use crate::arena::align_up;

verus! {

/// One slot of the GPU-visible mesh descriptor table: the byte offset of
/// each of a mesh's attribute streams inside the geometry arena. Written
/// once when the mesh is added, never mutated afterward.
#[derive(Clone, Copy, Debug, PartialEq, Eq, Structural)]
pub struct GpuMesh {
    pub vertex_core_offset: u32,
    pub vertex_uv_offset: u32,
    pub vertex_mat_offset: u32,
    pub vertex_aux_offset: u32,
    pub mat_data_offset: u32,
    pub index_offset: u32,
}

/// A mesh handed to `add_mesh`: triangle indices plus five attribute
/// streams already packed into bytes (vertex cores, uvs, per-vertex
/// material ids, auxiliary colors, and material data). Every stream's
/// element type has a natural alignment of [`MESH_STREAM_ALIGN`] bytes.
pub struct PackedTriangleMesh {
    pub indices: Vec<u32>,
    pub verts: Vec<u8>,
    pub uvs: Vec<u8>,
    pub material_ids: Vec<u8>,
    pub colors: Vec<u8>,
    pub materials: Vec<u8>,
}

/// Natural alignment of every mesh stream's element type.
pub const MESH_STREAM_ALIGN: usize = 4;

/// Registry entry for a mesh already packed into the geometry arena.
#[derive(Clone, Copy, Debug, PartialEq, Eq, Structural)]
pub struct UploadedTriMesh {
    pub index_buffer_offset: u64,
    pub index_count: u32,
}

/// What a bottom-level acceleration structure is built from: absolute
/// device addresses of the mesh's vertex and index streams, the number of
/// indices, and the largest vertex index those indices reference.
#[derive(Clone, Copy, Debug, PartialEq, Eq, Structural)]
pub struct RayTracingBottomAcceleration {
    pub vertex_buffer_address: u64,
    pub index_buffer_address: u64,
    pub index_count: usize,
    pub max_vertex: u32,
}

/// A top-level acceleration structure: one instance per bottom-level
/// structure. `instances[i]` is the registry index of the bottom-level
/// structure it instances, so instance order is registry order.
pub struct RayTracingTopAcceleration {
    pub instances: Vec<usize>,
}

/// Byte `k` (0 is the least significant) of `x` in little-endian order.
pub open spec fn u32_le_byte(x: u32, k: int) -> u8 {
    if k == 0 {
        (x as int % 256) as u8
    } else if k == 1 {
        (x as int / 256 % 256) as u8
    } else if k == 2 {
        (x as int / 65536 % 256) as u8
    } else {
        (x as int / 16777216 % 256) as u8
    }
}

/// The little-endian byte image of a sequence of 32-bit indices.
pub open spec fn u32s_le_bytes(s: Seq<u32>) -> Seq<u8> {
    Seq::new(s.len() * 4, |i: int| u32_le_byte(s[i / 4], i % 4))
}

/// Packs triangle indices into the little-endian byte stream that the
/// geometry arena stores.
pub fn u32s_to_le_bytes(v: &Vec<u32>) -> (r: Vec<u8>)
    ensures
        r@ == u32s_le_bytes(v@),
{
    let mut r: Vec<u8> = Vec::new();
    let mut i: usize = 0;
    while i < v.len()
        invariant
            i <= v@.len(),
            r@.len() == i * 4,
            r@ == u32s_le_bytes(v@.subrange(0, i as int)),
        decreases v@.len() - i,
    {
        let x = v[i];
        r.push((x % 256) as u8);
        r.push((x / 256 % 256) as u8);
        r.push((x / 65536 % 256) as u8);
        r.push((x / 16777216 % 256) as u8);
        i += 1;
        proof {
            assert(r@ =~= u32s_le_bytes(v@.subrange(0, i as int)));
        }
    }
    proof {
        assert(v@.subrange(0, v@.len() as int) == v@);
    }
    r
}

/// The largest vertex index referenced by a non-empty index stream.
pub open spec fn max_index_of(s: Seq<u32>) -> int
    recommends
        s.len() > 0,
{
    s.map_values(|x: u32| x as int).max()
}

/// The maximum vertex index a mesh's index stream references; feeds the
/// triangle range of the bottom-level acceleration structure.
pub fn max_index(v: &Vec<u32>) -> (r: u32)
    requires
        v@.len() > 0,
    ensures
        r as int == max_index_of(v@),
        forall|i: int| 0 <= i < v@.len() ==> v@[i] <= r,
        exists|i: int| 0 <= i < v@.len() && v@[i] == r,
{
    let mut r = v[0];
    let mut i: usize = 1;
    while i < v.len()
        invariant
            1 <= i <= v@.len(),
            v@.len() > 0,
            forall|j: int| 0 <= j < i ==> v@[j] <= r,
            exists|j: int| 0 <= j < i && v@[j] == r,
        decreases v@.len() - i,
    {
        if v[i] > r {
            r = v[i];
        }
        i += 1;
    }
    proof {
        let m = v@.map_values(|x: u32| x as int);
        m.max_ensures();
        assert(m.contains(m.max()));
        let k = choose|k: int| 0 <= k < m.len() && m[k] == m.max();
        assert(v@[k] as int == m.max());
        let j = choose|j: int| 0 <= j < v@.len() && v@[j] == r;
        assert(m[j] == r as int);
    }
    r
}

/// Where a stream of `len` bytes lands when appended at cursor `c`: the
/// packer returns offset 0 for an empty stream and the aligned cursor
/// otherwise.
pub open spec fn stream_offset(c: int, len: int) -> int {
    if len == 0 {
        0
    } else {
        align_up(c, MESH_STREAM_ALIGN as int)
    }
}

/// The cursor after a stream of `len` bytes is appended at cursor `c`.
pub open spec fn stream_end(c: int, len: int) -> int {
    if len == 0 {
        c
    } else {
        align_up(c, MESH_STREAM_ALIGN as int) + len
    }
}

/// Appending a stream never moves the cursor backwards.
pub proof fn lemma_stream_end_monotonic(c: int, len: int)
    requires
        0 <= c,
        0 <= len,
    ensures
        c <= stream_end(c, len),
{
    if len != 0 {
        crate::arena::lemma_align_up(c, MESH_STREAM_ALIGN as int);
    }
}

/// Where the six streams of a mesh land when appended at cursor `c0`, in
/// the fixed order: indices, vertex cores, uvs, material ids, colors,
/// material data. Returns the six start offsets in that order, followed by
/// the final cursor.
pub open spec fn mesh_stream_offsets(c0: int, m: PackedTriangleMesh) -> (
    int,
    int,
    int,
    int,
    int,
    int,
    int,
) {
    let index_off = stream_offset(c0, m.indices@.len() * 4 as int);
    let c1 = stream_end(c0, m.indices@.len() * 4 as int);
    let core_off = stream_offset(c1, m.verts@.len() as int);
    let c2 = stream_end(c1, m.verts@.len() as int);
    let uv_off = stream_offset(c2, m.uvs@.len() as int);
    let c3 = stream_end(c2, m.uvs@.len() as int);
    let mat_off = stream_offset(c3, m.material_ids@.len() as int);
    let c4 = stream_end(c3, m.material_ids@.len() as int);
    let aux_off = stream_offset(c4, m.colors@.len() as int);
    let c5 = stream_end(c4, m.colors@.len() as int);
    let mat_data_off = stream_offset(c5, m.materials@.len() as int);
    let c6 = stream_end(c5, m.materials@.len() as int);
    (index_off, core_off, uv_off, mat_off, aux_off, mat_data_off, c6)
}

/// The per-stream cursors of a mesh's six appends never decrease, so when
/// any single stream overruns the arena capacity, the final cursor
/// overruns it too.
pub proof fn lemma_mesh_offsets_end_monotonic(c0: int, m: PackedTriangleMesh)
    requires
        0 <= c0,
    ensures
        ({
            let c1 = stream_end(c0, m.indices@.len() * 4 as int);
            let c2 = stream_end(c1, m.verts@.len() as int);
            let c3 = stream_end(c2, m.uvs@.len() as int);
            let c4 = stream_end(c3, m.material_ids@.len() as int);
            let c5 = stream_end(c4, m.colors@.len() as int);
            let c6 = stream_end(c5, m.materials@.len() as int);
            &&& mesh_stream_offsets(c0, m).6 == c6
            &&& c0 <= c1
            &&& c1 <= c2
            &&& c2 <= c3
            &&& c3 <= c4
            &&& c4 <= c5
            &&& c5 <= c6
        }),
{
    let c1 = stream_end(c0, m.indices@.len() * 4 as int);
    let c2 = stream_end(c1, m.verts@.len() as int);
    let c3 = stream_end(c2, m.uvs@.len() as int);
    let c4 = stream_end(c3, m.material_ids@.len() as int);
    let c5 = stream_end(c4, m.colors@.len() as int);
    lemma_stream_end_monotonic(c0, m.indices@.len() * 4 as int);
    lemma_stream_end_monotonic(c1, m.verts@.len() as int);
    lemma_stream_end_monotonic(c2, m.uvs@.len() as int);
    lemma_stream_end_monotonic(c3, m.material_ids@.len() as int);
    lemma_stream_end_monotonic(c4, m.colors@.len() as int);
    lemma_stream_end_monotonic(c5, m.materials@.len() as int);
}

} // verus!

use vicki_render::RenderError;
use vicki_render::MAX_BINDLESS_DESCRIPTOR_COUNT;
use vicki_render::MAX_GPU_MESHES;
use vicki_render::bindless::BindlessImageHandle;
use vicki_render::bindless::ImageFormat;
use vicki_render::bindless::RawRgba8Image;
use vicki_render::bindless::TexGamma;
use vicki_render::bindless::TexParams;
use vicki_render::graph::AccessType;
use vicki_render::graph::ImageDesc;
use vicki_render::graph::RetiredRenderGraph;
use vicki_render::mesh::PackedTriangleMesh;
use vicki_render::render_client::RenderMode;
use vicki_render::render_client::TemporalImage;
use vicki_render::render_client::VickiRenderClient;

const BASE_ADDRESS: u64 = 0x1000;

fn tiny_mesh() -> PackedTriangleMesh {
    PackedTriangleMesh {
        indices: vec![0u32],
        verts: Vec::new(),
        uvs: Vec::new(),
        material_ids: Vec::new(),
        colors: Vec::new(),
        materials: Vec::new(),
    }
}

fn pixel() -> RawRgba8Image {
    RawRgba8Image { data: vec![0u8, 0, 0, 255], width: 1, height: 1 }
}

#[test]
fn add_mesh_descriptor_reproduces_arena_offsets() {
    let mut client = VickiRenderClient::new(BASE_ADDRESS);
    let mesh = PackedTriangleMesh {
        indices: vec![0u32, 1, 2],
        verts: vec![1u8; 6],
        uvs: vec![2u8; 3],
        material_ids: vec![3u8; 2],
        colors: vec![4u8; 5],
        materials: vec![5u8; 4],
    };
    let idx = client.add_mesh(&mesh).unwrap();
    assert_eq!(idx, 0);
    let d = client.mesh_descriptors[idx];
    assert_eq!(d.index_offset, 0);
    assert_eq!(d.vertex_core_offset, 12);
    assert_eq!(d.vertex_uv_offset, 20);
    assert_eq!(d.vertex_mat_offset, 24);
    assert_eq!(d.vertex_aux_offset, 28);
    assert_eq!(d.mat_data_offset, 36);
    assert_eq!(client.vertex_arena.written_bytes(), 40);

    let entry = client.meshes[idx];
    assert_eq!(entry.index_buffer_offset, 0);
    assert_eq!(entry.index_count, 3);

    let blas = client.mesh_blas[idx];
    assert_eq!(blas.index_buffer_address, BASE_ADDRESS);
    assert_eq!(blas.vertex_buffer_address, BASE_ADDRESS + 12);
    assert_eq!(blas.index_count, 3);
    assert_eq!(blas.max_vertex, 2);
}

#[test]
fn add_mesh_assigns_slots_in_order() {
    let mut client = VickiRenderClient::new(BASE_ADDRESS);
    assert_eq!(client.add_mesh(&tiny_mesh()).unwrap(), 0);
    assert_eq!(client.add_mesh(&tiny_mesh()).unwrap(), 1);
    assert_eq!(client.add_mesh(&tiny_mesh()).unwrap(), 2);
    assert_eq!(client.meshes.len(), 3);
    assert_eq!(client.mesh_blas.len(), 3);
    assert_eq!(client.mesh_descriptors.len(), 3);
}

#[test]
fn add_mesh_rejects_empty_mesh() {
    let mut client = VickiRenderClient::new(BASE_ADDRESS);
    let mesh = PackedTriangleMesh {
        indices: Vec::new(),
        verts: vec![1u8; 4],
        uvs: Vec::new(),
        material_ids: Vec::new(),
        colors: Vec::new(),
        materials: Vec::new(),
    };
    assert_eq!(client.add_mesh(&mesh), Err(RenderError::EmptyMesh));
    assert_eq!(client.meshes.len(), 0);
    assert_eq!(client.vertex_arena.written_bytes(), 0);
}

#[test]
fn add_mesh_rejects_when_slots_exhausted() {
    let mut client = VickiRenderClient::new(BASE_ADDRESS);
    for i in 0..MAX_GPU_MESHES {
        assert_eq!(client.add_mesh(&tiny_mesh()).unwrap(), i);
    }
    assert_eq!(client.add_mesh(&tiny_mesh()), Err(RenderError::MeshSlotsExhausted));
    assert_eq!(client.meshes.len(), MAX_GPU_MESHES);
}

#[test]
fn tlas_instance_counts_follow_registration() {
    let mut client = VickiRenderClient::new(BASE_ADDRESS);
    client.build_ray_tracing_top_level_acceleration();
    assert_eq!(client.tlas.as_ref().unwrap().instances.len(), 0);
    client.add_mesh(&tiny_mesh()).unwrap();
    client.build_ray_tracing_top_level_acceleration();
    assert_eq!(client.tlas.as_ref().unwrap().instances, vec![0usize]);
    client.add_mesh(&tiny_mesh()).unwrap();
    client.build_ray_tracing_top_level_acceleration();
    assert_eq!(client.tlas.as_ref().unwrap().instances, vec![0usize, 1]);
}

#[test]
fn bindless_handles_are_sequential_from_zero() {
    let mut client = VickiRenderClient::new(BASE_ADDRESS);
    let params = TexParams { gamma: TexGamma::Linear };
    assert_eq!(client.add_image(&pixel(), params).unwrap(), BindlessImageHandle(0));
    assert_eq!(client.add_image(&pixel(), params).unwrap(), BindlessImageHandle(1));
    assert_eq!(client.add_image(&pixel(), params).unwrap(), BindlessImageHandle(2));
    assert_eq!(client.image_slot_writes, vec![0u32, 1, 2]);
}

#[test]
fn lut_registration_must_match_expected_id() {
    let mut client = VickiRenderClient::new(BASE_ADDRESS);
    assert_eq!(client.add_image_lut(0), Ok(()));
    // Registration-order drift is a fatal mismatch and registers nothing.
    assert_eq!(client.add_image_lut(5), Err(RenderError::LutHandleMismatch));
    assert_eq!(client.image_luts.len(), 1);
    assert_eq!(client.add_image_lut(1), Ok(()));
    let params = TexParams { gamma: TexGamma::Linear };
    // Images and LUTs share the same handle sequence.
    assert_eq!(client.add_image(&pixel(), params).unwrap(), BindlessImageHandle(2));
    assert_eq!(client.image_slot_writes, vec![0u32, 1, 2]);
}

#[test]
fn add_image_selects_gamma_aware_format() {
    let mut client = VickiRenderClient::new(BASE_ADDRESS);
    let img = RawRgba8Image { data: vec![0u8; 4 * 6], width: 2, height: 3 };
    client.add_image(&img, TexParams { gamma: TexGamma::Srgb }).unwrap();
    client.add_image(&img, TexParams { gamma: TexGamma::Linear }).unwrap();
    assert_eq!(client.bindless_images[0].format, ImageFormat::R8G8B8A8Srgb);
    assert_eq!(client.bindless_images[1].format, ImageFormat::R8G8B8A8Unorm);
    assert_eq!(client.bindless_images[0].width, 2);
    assert_eq!(client.bindless_images[0].height, 3);
    assert_eq!(client.bindless_images[0].row_pitch, 8);
}

#[test]
fn bindless_capacity_is_enforced() {
    let mut client = VickiRenderClient::new(BASE_ADDRESS);
    let params = TexParams { gamma: TexGamma::Linear };
    let img = RawRgba8Image { data: Vec::new(), width: 1, height: 1 };
    for i in 0..MAX_BINDLESS_DESCRIPTOR_COUNT {
        assert_eq!(client.add_image(&img, params).unwrap(), BindlessImageHandle(i as u32));
    }
    assert_eq!(client.add_image(&img, params), Err(RenderError::BindlessCapacityExceeded));
    assert_eq!(
        client.add_image_lut(MAX_BINDLESS_DESCRIPTOR_COUNT),
        Err(RenderError::BindlessCapacityExceeded)
    );
}

#[test]
fn frame_index_increments_and_wraps_on_retire() {
    let mut client = VickiRenderClient::new(BASE_ADDRESS);
    let report = RetiredRenderGraph { image_states: Vec::new() };
    client.retire_render_graph(&report);
    assert_eq!(client.frame_idx, 1);
    client.retire_render_graph(&report);
    assert_eq!(client.frame_idx, 2);
    client.frame_idx = u32::MAX;
    client.retire_render_graph(&report);
    assert_eq!(client.frame_idx, 0);
}

#[test]
fn mode_switch_keeps_frame_index_and_reset_clears_it() {
    let mut client = VickiRenderClient::new(BASE_ADDRESS);
    client.frame_idx = 41;
    client.set_render_mode(RenderMode::Reference);
    assert_eq!(client.frame_idx, 41);
    client.set_render_mode(RenderMode::Standard);
    assert_eq!(client.frame_idx, 41);
    client.set_render_mode(RenderMode::Reference);
    client.reset_frame_idx();
    assert_eq!(client.frame_idx, 0);
    assert_eq!(client.render_mode, RenderMode::Reference);
}

#[test]
fn temporal_image_starts_untouched() {
    let t = TemporalImage::new(
        ImageDesc { format: ImageFormat::R32G32B32A32Sfloat, width: 64, height: 64 },
    );
    assert_eq!(t.access_type, AccessType::Nothing);
    assert_eq!(t.last_rg_handle, None);
    assert_eq!(t.resource.width, 64);
}

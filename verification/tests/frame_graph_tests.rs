use vicki_render::RenderError;
use vicki_render::bindless::DescriptorType;
use vicki_render::bindless::bindless_descriptor_set_layout;
use vicki_render::graph::AccessType;
use vicki_render::graph::ExportedHandle;
use vicki_render::graph::RenderGraph;
use vicki_render::graph::RenderGraphStep;
use vicki_render::graph::RetiredRenderGraph;
use vicki_render::mesh::PackedTriangleMesh;
use vicki_render::render_client::FrameState;
use vicki_render::render_client::RenderMode;
use vicki_render::render_client::VickiRenderClient;

const BASE_ADDRESS: u64 = 0x2000;

fn client_with_scene() -> VickiRenderClient {
    let mut client = VickiRenderClient::new(BASE_ADDRESS);
    let mesh = PackedTriangleMesh {
        indices: vec![0u32, 1, 2],
        verts: vec![0u8; 12],
        uvs: vec![0u8; 8],
        material_ids: vec![0u8; 4],
        colors: vec![0u8; 16],
        materials: vec![0u8; 4],
    };
    client.add_mesh(&mesh).unwrap();
    client.build_ray_tracing_top_level_acceleration();
    client
}

fn frame() -> FrameState {
    FrameState { window_width: 640, window_height: 360 }
}

#[test]
fn prepare_without_top_level_acceleration_fails() {
    let mut client = VickiRenderClient::new(BASE_ADDRESS);
    let mut rg = RenderGraph::new();
    let r = client.prepare_render_graph(&mut rg, &frame());
    assert_eq!(r, Err(RenderError::NoTopLevelAcceleration));
    assert_eq!(rg.steps.len(), 0);
    assert!(rg.predefined_bindless_layout.is_none());
}

#[test]
fn standard_graph_has_exact_step_sequence() {
    let mut client = client_with_scene();
    let mut rg = RenderGraph::new();
    let handle = client.prepare_render_graph(&mut rg, &frame()).unwrap();
    assert_eq!(handle, ExportedHandle(0));
    let expected = vec![
        RenderGraphStep::CreateImage { resource: 0 },
        RenderGraphStep::ClearDepth { image: 0 },
        RenderGraphStep::CreateImage { resource: 1 },
        RenderGraphStep::ClearColor { image: 1 },
        RenderGraphStep::RasterMeshes { depth: 0, gbuffer: 1, mesh_count: 1 },
        RenderGraphStep::ImportAcceleration { resource: 2 },
        RenderGraphStep::TraceSunShadowMask { depth: 0, acceleration: 2, output: 3 },
        RenderGraphStep::CreateImage { resource: 4 },
        RenderGraphStep::ClearColor { image: 4 },
        RenderGraphStep::LightGbuffer { gbuffer: 1, depth: 0, shadow_mask: 3, output: 4 },
        RenderGraphStep::ExportImage {
            image: 4,
            access: AccessType::AnyShaderReadSampledImageOrUniformTexelBuffer,
        },
    ];
    assert_eq!(rg.steps, expected);
    assert_eq!(rg.exports.len(), 1);
    assert_eq!(rg.exports[0].image, 4);
}

#[test]
fn prepare_installs_bindless_layout_and_lut_steps() {
    let mut client = client_with_scene();
    client.add_image_lut(0).unwrap();
    client.add_image_lut(1).unwrap();
    let mut rg = RenderGraph::new();
    client.prepare_render_graph(&mut rg, &frame()).unwrap();
    assert_eq!(rg.steps[0], RenderGraphStep::ComputeImageLut { lut_index: 0 });
    assert_eq!(rg.steps[1], RenderGraphStep::ComputeImageLut { lut_index: 1 });
    let layout = rg.predefined_bindless_layout.as_ref().unwrap();
    assert_eq!(layout.len(), 3);
    assert_eq!(layout[0].binding, 0);
    assert_eq!(layout[0].ty, DescriptorType::StorageBuffer);
    assert_eq!(layout[2].ty, DescriptorType::SampledImage);
    assert!(layout[2].is_bindless);
    // The layout description is process-wide constant configuration.
    assert_eq!(bindless_descriptor_set_layout(), *layout);
}

#[test]
fn reference_reset_clears_accumulation_exactly_once() {
    let mut client = client_with_scene();
    client.render_mode = RenderMode::Reference;
    client.reset_reference_accumulation = true;

    let mut rg1 = RenderGraph::new();
    client.prepare_render_graph(&mut rg1, &frame()).unwrap();
    assert_eq!(rg1.steps[0], RenderGraphStep::ImportImage { resource: 0 });
    assert_eq!(rg1.steps[1], RenderGraphStep::ClearColor { image: 0 });
    assert!(!client.reset_reference_accumulation);

    // Without a new request the next frame does not re-clear.
    let mut rg2 = RenderGraph::new();
    client.prepare_render_graph(&mut rg2, &frame()).unwrap();
    assert_eq!(rg2.steps[0], RenderGraphStep::ImportImage { resource: 0 });
    assert_eq!(rg2.steps[1], RenderGraphStep::ImportAcceleration { resource: 1 });
    assert!(!client.reset_reference_accumulation);
}

#[test]
fn reference_graph_threads_temporal_state_through_retirement() {
    let mut client = client_with_scene();
    client.render_mode = RenderMode::Reference;
    let mut rg = RenderGraph::new();
    let handle = client.prepare_render_graph(&mut rg, &frame()).unwrap();
    // Two exports: the accumulation image first, the normalized output next.
    assert_eq!(handle, ExportedHandle(1));
    assert_eq!(client.accum_img.last_rg_handle, Some(ExportedHandle(0)));
    assert_eq!(rg.exports.len(), 2);
    assert_eq!(rg.exports[0].access, AccessType::Nothing);

    let report = RetiredRenderGraph {
        image_states: vec![
            AccessType::AnyShaderReadOther,
            AccessType::AnyShaderReadSampledImageOrUniformTexelBuffer,
        ],
    };
    client.retire_render_graph(&report);
    assert_eq!(client.accum_img.access_type, AccessType::AnyShaderReadOther);
    assert_eq!(client.accum_img.last_rg_handle, None);
    assert_eq!(client.frame_idx, 1);

    // A retirement with nothing pending leaves the access state alone.
    client.retire_render_graph(&RetiredRenderGraph { image_states: Vec::new() });
    assert_eq!(client.accum_img.access_type, AccessType::AnyShaderReadOther);
    assert_eq!(client.frame_idx, 2);

    // The next reference frame imports the image at its last-known state.
    let mut rg2 = RenderGraph::new();
    client.prepare_render_graph(&mut rg2, &frame()).unwrap();
    match rg2.resources[0] {
        vicki_render::graph::GraphResource::ImportedImage { desc: _, access } => {
            assert_eq!(access, AccessType::AnyShaderReadOther);
        }
        _ => panic!("accumulation image must be imported first"),
    }
}

#[test]
fn mode_switch_does_not_disturb_prepared_frames() {
    let mut client = client_with_scene();
    let mut rg = RenderGraph::new();
    client.prepare_render_graph(&mut rg, &frame()).unwrap();
    client.retire_render_graph(&RetiredRenderGraph { image_states: Vec::new() });
    assert_eq!(client.frame_idx, 1);
    client.set_render_mode(RenderMode::Reference);
    assert_eq!(client.frame_idx, 1);
    let mut rg2 = RenderGraph::new();
    let handle = client.prepare_render_graph(&mut rg2, &frame()).unwrap();
    assert_eq!(handle, ExportedHandle(1));
    client.set_render_mode(RenderMode::Standard);
    assert_eq!(client.frame_idx, 1);
}

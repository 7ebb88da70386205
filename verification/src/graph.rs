//! Declarative render-graph description. The frame controller records one
//! frame's GPU work here — resources to create or import and the passes
//! that touch them — and the external render-graph engine executes it with
//! correct synchronization. Retirement reports the final access state of
//! every exported resource.
use vstd::prelude::*;

use crate::bindless::DescriptorBindingDesc;
use crate::bindless::ImageFormat;

verus! {

/// Synchronization access state a resource is in when imported into or
/// exported from a render graph.
#[derive(Clone, Copy, Debug, PartialEq, Eq, Structural)]
pub enum AccessType {
    Nothing,
    AnyShaderReadOther,
    AnyShaderReadSampledImageOrUniformTexelBuffer,
}

/// Size and format of a GPU image.
#[derive(Clone, Copy, Debug, PartialEq, Eq, Structural)]
pub struct ImageDesc {
    pub format: ImageFormat,
    pub width: u32,
    pub height: u32,
}

/// A resource the graph knows: an image it creates itself, or an image or
/// acceleration structure imported from outside at a given access state.
#[derive(Clone, Copy, Debug, PartialEq, Eq, Structural)]
pub enum GraphResource {
    TransientImage { desc: ImageDesc },
    ImportedImage { desc: ImageDesc, access: AccessType },
    ImportedAcceleration { access: AccessType },
}

/// The image description of a resource, when it is an image.
pub open spec fn resource_image_desc(r: GraphResource) -> Option<ImageDesc> {
    match r {
        GraphResource::TransientImage { desc } => Some(desc),
        GraphResource::ImportedImage { desc, access } => Some(desc),
        GraphResource::ImportedAcceleration { access } => None,
    }
}

/// One operation recorded into the graph description. Resource numbers
/// index the graph's resource list. Clears always clear to zero.
#[derive(Clone, Copy, Debug, PartialEq, Eq, Structural)]
pub enum RenderGraphStep {
    ComputeImageLut { lut_index: usize },
    CreateImage { resource: usize },
    ImportImage { resource: usize },
    ImportAcceleration { resource: usize },
    ClearDepth { image: usize },
    ClearColor { image: usize },
    RasterMeshes { depth: usize, gbuffer: usize, mesh_count: usize },
    TraceSunShadowMask { depth: usize, acceleration: usize, output: usize },
    LightGbuffer { gbuffer: usize, depth: usize, shadow_mask: usize, output: usize },
    ReferencePathTrace { accum: usize, acceleration: usize },
    NormalizeAccum { accum: usize, output: usize },
    ExportImage { image: usize, access: AccessType },
}

/// Handle returned by `export_image`: the index of the export, and of its
/// final access state in the retired graph's report.
#[derive(Clone, Copy, Debug, PartialEq, Eq, Structural)]
pub struct ExportedHandle(pub usize);

/// One exported image and the access state it is handed over in.
#[derive(Clone, Copy, Debug, PartialEq, Eq, Structural)]
pub struct ExportRecord {
    pub image: usize,
    pub access: AccessType,
}

/// A declarative description of one frame's GPU work.
pub struct RenderGraph {
    pub resources: Vec<GraphResource>,
    pub steps: Vec<RenderGraphStep>,
    pub exports: Vec<ExportRecord>,
    pub predefined_bindless_layout: Option<Vec<DescriptorBindingDesc>>,
}

impl RenderGraph {
    /// The installed predefined layout, as a mathematical value.
    pub open spec fn layout_view(self) -> Option<Seq<DescriptorBindingDesc>> {
        match self.predefined_bindless_layout {
            Some(v) => Some(v@),
            None => None,
        }
    }

    /// An empty graph: no resources, steps or exports, and no predefined
    /// layout installed yet.
    pub fn new() -> (r: Self)
        ensures
            r.resources@.len() == 0,
            r.steps@.len() == 0,
            r.exports@.len() == 0,
            r.layout_view() is None,
    {
        RenderGraph {
            resources: Vec::new(),
            steps: Vec::new(),
            exports: Vec::new(),
            predefined_bindless_layout: None,
        }
    }

    /// Installs the layout description the graph resolves descriptor set 1
    /// against. Overwrites any previous installation, so repeating it each
    /// frame is idempotent.
    pub fn set_predefined_bindless_layout(&mut self, layout: Vec<DescriptorBindingDesc>)
        ensures
            final(self).layout_view() == Some(layout@),
            final(self).resources@ == old(self).resources@,
            final(self).steps@ == old(self).steps@,
            final(self).exports@ == old(self).exports@,
    {
        self.predefined_bindless_layout = Some(layout);
    }

    /// Records the compute step refreshing lookup-table image `lut_index`.
    pub fn compute_image_lut(&mut self, lut_index: usize)
        ensures
            final(self).steps@ == old(self).steps@.push(
                RenderGraphStep::ComputeImageLut { lut_index },
            ),
            final(self).resources@ == old(self).resources@,
            final(self).exports@ == old(self).exports@,
            final(self).layout_view() == old(self).layout_view(),
    {
        self.steps.push(RenderGraphStep::ComputeImageLut { lut_index });
    }

    /// Creates a transient image and returns its resource number.
    pub fn create_image(&mut self, desc: ImageDesc) -> (r: usize)
        ensures
            r == old(self).resources@.len(),
            final(self).resources@ == old(self).resources@.push(
                GraphResource::TransientImage { desc },
            ),
            final(self).steps@ == old(self).steps@.push(
                RenderGraphStep::CreateImage { resource: r },
            ),
            final(self).exports@ == old(self).exports@,
            final(self).layout_view() == old(self).layout_view(),
    {
        let r = self.resources.len();
        self.resources.push(GraphResource::TransientImage { desc });
        self.steps.push(RenderGraphStep::CreateImage { resource: r });
        r
    }

    /// Imports an external image at its last-known access state and
    /// returns its resource number.
    pub fn import_image(&mut self, desc: ImageDesc, access: AccessType) -> (r: usize)
        ensures
            r == old(self).resources@.len(),
            final(self).resources@ == old(self).resources@.push(
                GraphResource::ImportedImage { desc, access },
            ),
            final(self).steps@ == old(self).steps@.push(
                RenderGraphStep::ImportImage { resource: r },
            ),
            final(self).exports@ == old(self).exports@,
            final(self).layout_view() == old(self).layout_view(),
    {
        let r = self.resources.len();
        self.resources.push(GraphResource::ImportedImage { desc, access });
        self.steps.push(RenderGraphStep::ImportImage { resource: r });
        r
    }

    /// Imports an acceleration structure at the given access state and
    /// returns its resource number.
    pub fn import_ray_tracing_acceleration(&mut self, access: AccessType) -> (r: usize)
        ensures
            r == old(self).resources@.len(),
            final(self).resources@ == old(self).resources@.push(
                GraphResource::ImportedAcceleration { access },
            ),
            final(self).steps@ == old(self).steps@.push(
                RenderGraphStep::ImportAcceleration { resource: r },
            ),
            final(self).exports@ == old(self).exports@,
            final(self).layout_view() == old(self).layout_view(),
    {
        let r = self.resources.len();
        self.resources.push(GraphResource::ImportedAcceleration { access });
        self.steps.push(RenderGraphStep::ImportAcceleration { resource: r });
        r
    }

    /// Records a depth clear of `image`.
    pub fn clear_depth(&mut self, image: usize)
        requires
            image < old(self).resources@.len(),
        ensures
            final(self).steps@ == old(self).steps@.push(RenderGraphStep::ClearDepth { image }),
            final(self).resources@ == old(self).resources@,
            final(self).exports@ == old(self).exports@,
            final(self).layout_view() == old(self).layout_view(),
    {
        self.steps.push(RenderGraphStep::ClearDepth { image });
    }

    /// Records a clear of `image` to zero.
    pub fn clear_color(&mut self, image: usize)
        requires
            image < old(self).resources@.len(),
        ensures
            final(self).steps@ == old(self).steps@.push(RenderGraphStep::ClearColor { image }),
            final(self).resources@ == old(self).resources@,
            final(self).exports@ == old(self).exports@,
            final(self).layout_view() == old(self).layout_view(),
    {
        self.steps.push(RenderGraphStep::ClearColor { image });
    }

    /// Records a raster pass of `mesh_count` registered meshes into the
    /// g-buffer, depth-tested against `depth`.
    pub fn raster_meshes(&mut self, depth: usize, gbuffer: usize, mesh_count: usize)
        requires
            depth < old(self).resources@.len(),
            gbuffer < old(self).resources@.len(),
        ensures
            final(self).steps@ == old(self).steps@.push(
                RenderGraphStep::RasterMeshes { depth, gbuffer, mesh_count },
            ),
            final(self).resources@ == old(self).resources@,
            final(self).exports@ == old(self).exports@,
            final(self).layout_view() == old(self).layout_view(),
    {
        self.steps.push(RenderGraphStep::RasterMeshes { depth, gbuffer, mesh_count });
    }

    /// The image description of an image resource.
    pub fn image_desc(&self, image: usize) -> (d: ImageDesc)
        requires
            image < self.resources@.len(),
            resource_image_desc(self.resources@[image as int]) is Some,
        ensures
            Some(d) == resource_image_desc(self.resources@[image as int]),
    {
        match self.resources[image] {
            GraphResource::TransientImage { desc } => desc,
            GraphResource::ImportedImage { desc, access } => desc,
            GraphResource::ImportedAcceleration { access } => vstd::pervasive::unreached(),
        }
    }

    /// Records a ray-traced sun shadow pass against `depth`, creating and
    /// returning the shadow-mask image it writes (same size as `depth`).
    pub fn trace_sun_shadow_mask(&mut self, depth: usize, acceleration: usize) -> (r: usize)
        requires
            depth < old(self).resources@.len(),
            acceleration < old(self).resources@.len(),
            resource_image_desc(old(self).resources@[depth as int]) is Some,
        ensures
            r == old(self).resources@.len(),
            final(self).resources@ == old(self).resources@.push(
                GraphResource::TransientImage {
                    desc: (ImageDesc {
                        format: ImageFormat::R8Unorm,
                        width: resource_image_desc(
                            old(self).resources@[depth as int],
                        ).unwrap().width,
                        height: resource_image_desc(
                            old(self).resources@[depth as int],
                        ).unwrap().height,
                    }),
                },
            ),
            final(self).steps@ == old(self).steps@.push(
                RenderGraphStep::TraceSunShadowMask { depth, acceleration, output: r },
            ),
            final(self).exports@ == old(self).exports@,
            final(self).layout_view() == old(self).layout_view(),
    {
        let d = self.image_desc(depth);
        let r = self.resources.len();
        self.resources.push(
            GraphResource::TransientImage {
                desc: ImageDesc { format: ImageFormat::R8Unorm, width: d.width, height: d.height },
            },
        );
        self.steps.push(RenderGraphStep::TraceSunShadowMask { depth, acceleration, output: r });
        r
    }

    /// Records the lighting pass combining the g-buffer, depth and shadow
    /// mask into `output`.
    pub fn light_gbuffer(&mut self, gbuffer: usize, depth: usize, shadow_mask: usize, output: usize)
        requires
            gbuffer < old(self).resources@.len(),
            depth < old(self).resources@.len(),
            shadow_mask < old(self).resources@.len(),
            output < old(self).resources@.len(),
        ensures
            final(self).steps@ == old(self).steps@.push(
                RenderGraphStep::LightGbuffer { gbuffer, depth, shadow_mask, output },
            ),
            final(self).resources@ == old(self).resources@,
            final(self).exports@ == old(self).exports@,
            final(self).layout_view() == old(self).layout_view(),
    {
        self.steps.push(RenderGraphStep::LightGbuffer { gbuffer, depth, shadow_mask, output });
    }

    /// Records one more path-traced sample accumulated into `accum`.
    pub fn reference_path_trace(&mut self, accum: usize, acceleration: usize)
        requires
            accum < old(self).resources@.len(),
            acceleration < old(self).resources@.len(),
        ensures
            final(self).steps@ == old(self).steps@.push(
                RenderGraphStep::ReferencePathTrace { accum, acceleration },
            ),
            final(self).resources@ == old(self).resources@,
            final(self).exports@ == old(self).exports@,
            final(self).layout_view() == old(self).layout_view(),
    {
        self.steps.push(RenderGraphStep::ReferencePathTrace { accum, acceleration });
    }

    /// Records the pass normalizing the accumulation buffer into a fresh
    /// display-ready image of the given format, and returns that image.
    pub fn normalize_accum(&mut self, accum: usize, format: ImageFormat) -> (r: usize)
        requires
            accum < old(self).resources@.len(),
            resource_image_desc(old(self).resources@[accum as int]) is Some,
        ensures
            r == old(self).resources@.len(),
            final(self).resources@ == old(self).resources@.push(
                GraphResource::TransientImage {
                    desc: (ImageDesc {
                        format,
                        width: resource_image_desc(
                            old(self).resources@[accum as int],
                        ).unwrap().width,
                        height: resource_image_desc(
                            old(self).resources@[accum as int],
                        ).unwrap().height,
                    }),
                },
            ),
            final(self).steps@ == old(self).steps@.push(
                RenderGraphStep::NormalizeAccum { accum, output: r },
            ),
            final(self).exports@ == old(self).exports@,
            final(self).layout_view() == old(self).layout_view(),
    {
        let d = self.image_desc(accum);
        let r = self.resources.len();
        self.resources.push(
            GraphResource::TransientImage {
                desc: ImageDesc { format, width: d.width, height: d.height },
            },
        );
        self.steps.push(RenderGraphStep::NormalizeAccum { accum, output: r });
        r
    }

    /// Exports `image` in the given access state; the returned handle
    /// indexes the retired graph's report of final access states.
    pub fn export_image(&mut self, image: usize, access: AccessType) -> (r: ExportedHandle)
        requires
            image < old(self).resources@.len(),
        ensures
            r == (ExportedHandle(old(self).exports@.len() as usize)),
            final(self).exports@ == old(self).exports@.push(ExportRecord { image, access }),
            final(self).steps@ == old(self).steps@.push(
                RenderGraphStep::ExportImage { image, access },
            ),
            final(self).resources@ == old(self).resources@,
            final(self).layout_view() == old(self).layout_view(),
    {
        let r = ExportedHandle(self.exports.len());
        self.exports.push(ExportRecord { image, access });
        self.steps.push(RenderGraphStep::ExportImage { image, access });
        r
    }
}

/// The engine's report after a graph retires: the final access state of
/// each exported resource, indexed by its exported handle.
pub struct RetiredRenderGraph {
    pub image_states: Vec<AccessType>,
}

impl RetiredRenderGraph {
    /// The final access state of one exported image.
    pub fn get_image(&self, handle: ExportedHandle) -> (r: AccessType)
        requires
            handle.0 < self.image_states@.len(),
        ensures
            r == self.image_states@[handle.0 as int],
    {
        self.image_states[handle.0]
    }
}

} // verus!

//! How pipelines are built and kept.

use vstd::prelude::*;

use crate::text::decimal;
#[allow(unused_imports)]
use crate::text::decimal_text;
use crate::vulkan::codes::{
    BLEND_ONE, BLEND_ONE_MINUS_SOURCE_ALPHA, BLEND_OP_ADD, COLOR_COMPONENTS_RGBA,
    COMPARE_LESS_OR_EQUAL, CULL_BACK, CULL_NONE, FRONT_COUNTER_CLOCKWISE, POLYGON_FILL,
    SAMPLES_ONE, SHADER_STAGE_FRAGMENT, SHADER_STAGE_VERTEX, TOPOLOGY_TRIANGLE_LIST,
};
use crate::vulkan::failure::{call_failed, subject_failed};
#[allow(unused_imports)]
use crate::vulkan::failure::{call_failed_text, subject_failed_text};
use crate::vulkan::pipeline::{
    plan_sampler, plan_set_layout, LayoutBinding, SamplerPlan, ShaderDeclaration,
};
#[allow(unused_imports)]
use crate::vulkan::pipeline::{
    built_in_sampler, has_binding, is_set_layout, law_set_layout_binds_what_is_declared,
    sampler_plan,
};
use crate::vulkan::pipeline_key::{
    pipeline_video_sampler_key, shader_missing, VulkanPipelineKey,
    VulkanVideoCombinedImmutableSamplerKey,
};
#[allow(unused_imports)]
use crate::vulkan::pipeline_key::{
    law_same_pipeline_has_same_fields, same_pipeline, same_samplers, samplers_sorted,
    shader_missing_text,
};
use crate::vulkan::render_pass::{RenderPassCache, VulkanRenderPassKey};
use crate::vulkan::vertex_input::{plan_vertex_attributes, VertexAttribute};
#[allow(unused_imports)]
use crate::vulkan::vertex_input::{pipeline_attributes, slots_fit};

verus! {

/// A pipeline that was built, once with depth writes and once without.
pub struct VulkanPipeline {
    pub pipeline_write: u64,
    pub pipeline_no_write: u64,
    pub layout: u64,
    pub descriptor_set_layout: u64,
    pub has_descriptors: bool,
    pub sampler_handles: Vec<u64>,
}

/// A pipeline under its key.
pub struct CachedPipeline {
    pub key: VulkanPipelineKey,
    pub pipeline: VulkanPipeline,
}

/// The pipelines that were built.
pub struct PipelineCache {
    pub pipelines: Vec<CachedPipeline>,
}

/// Where the pipeline with the key is kept.
pub open spec fn find_pipeline(pipelines: Seq<CachedPipeline>, key: VulkanPipelineKey) -> Option<
    int,
>
    decreases pipelines.len(),
{
    if pipelines.len() == 0 {
        None
    } else {
        match find_pipeline(pipelines.drop_last(), key) {
            Some(index) => Some(index),
            None => if same_pipeline(pipelines.last().key, key) {
                Some(pipelines.len() - 1)
            } else {
                None
            },
        }
    }
}

proof fn lemma_find_pipeline_prefix(
    pipelines: Seq<CachedPipeline>,
    key: VulkanPipelineKey,
    n: int,
)
    requires
        0 <= n <= pipelines.len(),
        find_pipeline(pipelines.take(n), key) is Some,
    ensures
        find_pipeline(pipelines, key) == find_pipeline(pipelines.take(n), key),
    decreases pipelines.len() - n,
{
    if n == pipelines.len() {
        assert(pipelines.take(n) =~= pipelines);
    } else {
        assert(pipelines.take(n + 1).drop_last() =~= pipelines.take(n));
        lemma_find_pipeline_prefix(pipelines, key, n + 1);
    }
}

/// A device object that goes back to the device.
#[derive(Clone, Copy, PartialEq, Eq, Structural, Debug)]
pub enum PipelineRelease {
    Sampler(u64),
    Pipeline(u64),
    ShaderModule(u64),
    PipelineLayout(u64),
    SetLayout(u64),
    RenderPass(u64),
}

/// The samplers of a list, to be given back.
pub open spec fn sampler_releases(samplers: Seq<u64>) -> Seq<PipelineRelease> {
    Seq::new(samplers.len(), |i: int| PipelineRelease::Sampler(samplers[i]))
}

/// What a pipeline is made of, in the order in which it is given back.
pub open spec fn pipeline_releases(pipeline: VulkanPipeline) -> Seq<PipelineRelease> {
    sampler_releases(pipeline.sampler_handles@) + seq![
        PipelineRelease::Pipeline(pipeline.pipeline_write),
        PipelineRelease::Pipeline(pipeline.pipeline_no_write),
        PipelineRelease::PipelineLayout(pipeline.layout),
        PipelineRelease::SetLayout(pipeline.descriptor_set_layout),
    ]
}

/// What the first `n` pipelines are made of.
pub open spec fn all_releases(pipelines: Seq<CachedPipeline>, n: int) -> Seq<PipelineRelease>
    decreases n,
{
    if n <= 0 {
        seq![]
    } else {
        all_releases(pipelines, n - 1) + pipeline_releases(pipelines[n - 1].pipeline)
    }
}

fn append_samplers(releases: &mut Vec<PipelineRelease>, samplers: &Vec<u64>)
    ensures
        final(releases)@ == old(releases)@ + sampler_releases(samplers@),
{
    let ghost start = releases@;
    let ghost wanted = sampler_releases(samplers@);
    let mut i: usize = 0;
    while i < samplers.len()
        invariant
            i <= samplers@.len(),
            wanted == sampler_releases(samplers@),
            releases@ == start + wanted.take(i as int),
        decreases samplers@.len() - i,
    {
        releases.push(PipelineRelease::Sampler(samplers[i]));
        i = i + 1;
        assert(releases@ =~= start + wanted.take(i as int));
    }
    assert(wanted.take(i as int) =~= wanted);
}

/// The passes that are kept for pipelines, to be given back.
pub open spec fn pass_releases(cache: RenderPassCache) -> Seq<PipelineRelease> {
    Seq::new(
        cache.passes@.len(),
        |i: int| PipelineRelease::RenderPass(cache.passes@[i].render_pass),
    )
}

impl PipelineCache {
    /// Starts with no pipeline.
    pub fn new() -> (cache: PipelineCache)
        ensures
            cache.pipelines@.len() == 0,
    {
        PipelineCache { pipelines: Vec::new() }
    }

    fn lookup(&self, key: &VulkanPipelineKey) -> (found: Option<usize>)
        ensures
            match found {
                Some(index) => index < self.pipelines@.len() && find_pipeline(
                    self.pipelines@,
                    *key,
                ) == Some(index as int),
                None => find_pipeline(self.pipelines@, *key) is None,
            },
    {
        let mut i: usize = 0;
        while i < self.pipelines.len()
            invariant
                i <= self.pipelines@.len(),
                find_pipeline(self.pipelines@.take(i as int), *key) is None,
            decreases self.pipelines@.len() - i,
        {
            proof {
                let next = self.pipelines@.take(i + 1);
                assert(next.drop_last() =~= self.pipelines@.take(i as int));
                assert(next.last() == self.pipelines@[i as int]);
            }
            if self.pipelines[i].key.same_as(key) {
                proof {
                    lemma_find_pipeline_prefix(self.pipelines@, *key, i + 1);
                }
                return Some(i);
            }
            i = i + 1;
        }
        assert(self.pipelines@.take(i as int) =~= self.pipelines@);
        None
    }

    /// Finds the pipeline of a packet.
    pub fn get(&self, key: &VulkanPipelineKey) -> (result: Result<&VulkanPipeline, String>)
        ensures
            match find_pipeline(self.pipelines@, *key) {
                Some(index) => result == Ok::<&VulkanPipeline, String>(
                    &self.pipelines@[index].pipeline,
                ),
                None => result matches Err(message) && message@
                    == "missing Vulkan pipeline for shader "@ + decimal_text(
                    key.shader_index as nat,
                ),
            },
    {
        match self.lookup(key) {
            Some(index) => Ok(&self.pipelines[index].pipeline),
            None => {
                let mut message: String = "missing Vulkan pipeline for shader ".to_owned();
                let index: String = decimal(key.shader_index as u64);
                message.append(index.as_str());
                Err(message)
            },
        }
    }

    /// Keeps a pipeline that was built.
    pub fn insert(&mut self, key: VulkanPipelineKey, pipeline: VulkanPipeline)
        ensures
            final(self).pipelines@ == old(self).pipelines@.push((CachedPipeline { key, pipeline })),
    {
        self.pipelines.push(CachedPipeline { key, pipeline });
    }

    /// Gives all pipelines back, and the passes that were made for them.
    pub fn destroy_pipelines(&mut self, passes: &mut RenderPassCache) -> (releases: Vec<
        PipelineRelease,
    >)
        ensures
            releases@ == all_releases(old(self).pipelines@, old(self).pipelines@.len() as int)
                + pass_releases(*old(passes)),
            final(self).pipelines@.len() == 0,
            final(passes).passes@.len() == 0,
    {
        let mut releases: Vec<PipelineRelease> = Vec::new();
        let mut i: usize = 0;
        while i < self.pipelines.len()
            invariant
                i <= self.pipelines@.len(),
                *self == *old(self),
                *passes == *old(passes),
                releases@ == all_releases(self.pipelines@, i as int),
            decreases self.pipelines@.len() - i,
        {
            let ghost before = releases@;
            let pipeline: &VulkanPipeline = &self.pipelines[i].pipeline;
            append_samplers(&mut releases, &pipeline.sampler_handles);
            releases.push(PipelineRelease::Pipeline(pipeline.pipeline_write));
            releases.push(PipelineRelease::Pipeline(pipeline.pipeline_no_write));
            releases.push(PipelineRelease::PipelineLayout(pipeline.layout));
            releases.push(PipelineRelease::SetLayout(pipeline.descriptor_set_layout));
            assert(releases@ =~= before + pipeline_releases(*pipeline));
            i = i + 1;
        }
        let ghost given = releases@;
        let ghost wanted = pass_releases(*passes);
        let mut i: usize = 0;
        while i < passes.passes.len()
            invariant
                i <= passes.passes@.len(),
                *self == *old(self),
                *passes == *old(passes),
                wanted == pass_releases(*passes),
                releases@ == given + wanted.take(i as int),
            decreases passes.passes@.len() - i,
        {
            releases.push(PipelineRelease::RenderPass(passes.passes[i].render_pass));
            i = i + 1;
            assert(releases@ =~= given + wanted.take(i as int));
        }
        assert(wanted.take(i as int) =~= wanted);
        self.pipelines = Vec::new();
        passes.passes = Vec::new();
        releases
    }
}

/// A pipeline that was built and kept is found again, under its key and no other.
pub proof fn law_kept_pipeline_is_found(
    pipelines: Seq<CachedPipeline>,
    entry: CachedPipeline,
    other: VulkanPipelineKey,
)
    requires
        find_pipeline(pipelines, entry.key) is None,
    ensures
        ({
            let after = pipelines.push(entry);
            &&& find_pipeline(after, entry.key) == Some(pipelines.len() as int)
            &&& !same_pipeline(entry.key, other) ==> find_pipeline(after, other) == find_pipeline(
                pipelines,
                other,
            )
        }),
{
    assert(pipelines.push(entry).drop_last() =~= pipelines);
}

/// The pipeline that a packet draws with.
pub fn pick_pipeline(pipeline: &VulkanPipeline, depth_write: bool) -> (handle: u64)
    ensures
        handle == (if depth_write {
            pipeline.pipeline_write
        } else {
            pipeline.pipeline_no_write
        }),
{
    if depth_write {
        pipeline.pipeline_write
    } else {
        pipeline.pipeline_no_write
    }
}

/// The key of a pipeline.
pub fn pipeline_key(
    shader_index: usize,
    shader_variant: usize,
    render_pass: VulkanRenderPassKey,
    alpha_blend: bool,
    backface_culling: bool,
    samplers: &Vec<VulkanVideoCombinedImmutableSamplerKey>,
) -> (key: VulkanPipelineKey)
    ensures
        key.shader_index == shader_index,
        key.shader_variant == shader_variant,
        key.render_pass == render_pass,
        key.alpha_blend == alpha_blend,
        key.backface_culling == backface_culling,
        samplers_sorted(key.video_combined_immutable_samplers@),
        same_samplers(key.video_combined_immutable_samplers@, samplers@),
{
    VulkanPipelineKey {
        shader_index,
        shader_variant,
        render_pass,
        alpha_blend,
        backface_culling,
        video_combined_immutable_samplers: pipeline_video_sampler_key(samplers),
    }
}

/// What all pipelines have in common. Colors and alpha are blended by the same factors;
/// neither the bounds of depths nor stencils are tested.
#[derive(Clone, Copy, PartialEq, Eq, Structural, Debug)]
pub struct FixedState {
    pub topology: i32,
    pub primitive_restart: bool,
    pub polygon_mode: i32,
    pub front_face: i32,
    /// The bits of the width of a line.
    pub line_width: u32,
    pub samples: u32,
    pub source_factor: i32,
    pub destination_factor: i32,
    pub blend_op: i32,
    pub color_write_mask: u32,
    pub depth_compare: i32,
    pub depth_bounds_test: bool,
    pub stencil_test: bool,
    /// The stages that see the descriptors.
    pub descriptor_stages: u32,
}

/// Triangles that face the viewer counter-clockwise, one sample for each pixel, colors
/// that are multiplied by their alpha already, and the nearest depth in front.
pub open spec fn fixed_state() -> FixedState {
    FixedState {
        topology: TOPOLOGY_TRIANGLE_LIST,
        primitive_restart: false,
        polygon_mode: POLYGON_FILL,
        front_face: FRONT_COUNTER_CLOCKWISE,
        line_width: F32_ONE,
        samples: SAMPLES_ONE,
        source_factor: BLEND_ONE,
        destination_factor: BLEND_ONE_MINUS_SOURCE_ALPHA,
        blend_op: BLEND_OP_ADD,
        color_write_mask: COLOR_COMPONENTS_RGBA,
        depth_compare: COMPARE_LESS_OR_EQUAL,
        depth_bounds_test: false,
        stencil_test: false,
        descriptor_stages: SHADER_STAGE_VERTEX | SHADER_STAGE_FRAGMENT,
    }
}

fn plan_fixed_state() -> (fixed: FixedState)
    ensures
        fixed == fixed_state(),
{
    FixedState {
        topology: TOPOLOGY_TRIANGLE_LIST,
        primitive_restart: false,
        polygon_mode: POLYGON_FILL,
        front_face: FRONT_COUNTER_CLOCKWISE,
        line_width: F32_ONE,
        samples: SAMPLES_ONE,
        source_factor: BLEND_ONE,
        destination_factor: BLEND_ONE_MINUS_SOURCE_ALPHA,
        blend_op: BLEND_OP_ADD,
        color_write_mask: COLOR_COMPONENTS_RGBA,
        depth_compare: COMPARE_LESS_OR_EQUAL,
        depth_bounds_test: false,
        stencil_test: false,
        descriptor_stages: SHADER_STAGE_VERTEX | SHADER_STAGE_FRAGMENT,
    }
}

/// The bits of one.
pub const F32_ONE: u32 = 0x3F80_0000;

/// Where the vertex code starts.
pub const VERTEX_ENTRY: &'static str = "vertex_main";

/// Where the fragment code starts.
pub const FRAGMENT_ENTRY: &'static str = "fragment_main";

/// How a pipeline is built. The depth test is on where the pass has a depth attachment;
/// of the two pipelines only the first writes depth then.
pub struct PipelinePlan {
    pub set_layout: Vec<LayoutBinding>,
    pub has_descriptors: bool,
    pub geometry_stride: u32,
    pub instance_stride: u32,
    pub attributes: Vec<VertexAttribute>,
    pub fixed: FixedState,
    pub alpha_blend: bool,
    pub cull_mode: u32,
    pub depth_test: bool,
    pub depth_writes: [bool; 2],
    pub samplers: Vec<SamplerPlan>,
}

/// The plan is the one for the shader and the key.
pub open spec fn is_pipeline_plan(
    plan: PipelinePlan,
    shader: ShaderDeclaration,
    key: VulkanPipelineKey,
    samplers: Seq<VulkanVideoCombinedImmutableSamplerKey>,
) -> bool {
    &&& is_set_layout(plan.set_layout@, shader, samplers)
    &&& plan.has_descriptors == shader.has_descriptors()
    &&& plan.geometry_stride == shader.geometry_slots * 4
    &&& plan.instance_stride == shader.instance_slots * 4
    &&& plan.attributes@ =~= pipeline_attributes(
        shader.geometry_slots as int,
        shader.instance_slots as int,
    )
    &&& plan.alpha_blend == key.alpha_blend
    &&& plan.fixed == fixed_state()
    &&& plan.cull_mode == if key.backface_culling {
        CULL_BACK
    } else {
        CULL_NONE
    }
    &&& plan.depth_test == key.render_pass.depth_format is Some
    &&& plan.depth_writes@ =~= seq![key.render_pass.depth_format is Some, false]
    &&& plan.samplers@ =~= Seq::new(
        shader.samplers@.len(),
        |i: int| sampler_plan(shader.samplers@[i]),
    )
}

fn plan_samplers(shader: &ShaderDeclaration) -> (plans: Vec<SamplerPlan>)
    ensures
        plans@ =~= Seq::new(shader.samplers@.len(), |i: int| sampler_plan(shader.samplers@[i])),
{
    let mut plans: Vec<SamplerPlan> = Vec::new();
    let mut i: usize = 0;
    while i < shader.samplers.len()
        invariant
            i <= shader.samplers@.len(),
            plans@.len() == i,
            forall|j: int| 0 <= j < i ==> plans@[j] == sampler_plan(shader.samplers@[j]),
        decreases shader.samplers@.len() - i,
    {
        plans.push(plan_sampler(shader.samplers[i]));
        i = i + 1;
    }
    plans
}

/// Plans a pipeline, or nothing where it was built before. `shader` is nothing where
/// the shader has no Vulkan binary.
pub fn ensure_pipeline(
    cache: &PipelineCache,
    has_os_shader: bool,
    shader: Option<&ShaderDeclaration>,
    key: &VulkanPipelineKey,
    samplers: &Vec<VulkanVideoCombinedImmutableSamplerKey>,
) -> (result: Result<Option<PipelinePlan>, String>)
    requires
        shader matches Some(shader) ==> shader.bindings_fit() && slots_fit(shader.geometry_slots)
            && slots_fit(shader.instance_slots),
        same_samplers(key.video_combined_immutable_samplers@, samplers@),
    ensures
        if find_pipeline(cache.pipelines@, *key) is Some {
            result matches Ok(plan) && plan is None
        } else if !has_os_shader {
            result matches Err(message) && message@ == shader_missing_text(
                key.shader_index,
                "os_shader_id"@,
            )
        } else {
            match shader {
                None => result matches Err(message) && message@ == shader_missing_text(
                    key.shader_index,
                    "Vulkan binary"@,
                ),
                Some(shader) => if !shader.has_vertex_code {
                    result matches Err(message) && message@ == shader_missing_text(
                        key.shader_index,
                        "vertex SPIR-V"@,
                    )
                } else if !shader.has_fragment_code {
                    result matches Err(message) && message@ == shader_missing_text(
                        key.shader_index,
                        "fragment SPIR-V"@,
                    )
                } else {
                    result matches Ok(Some(plan)) && is_pipeline_plan(
                        plan,
                        *shader,
                        *key,
                        samplers@,
                    )
                },
            }
        },
{
    if cache.lookup(key).is_some() {
        return Ok(None);
    }
    if !has_os_shader {
        return Err(shader_missing(key.shader_index, "os_shader_id"));
    }
    match shader {
        None => Err(shader_missing(key.shader_index, "Vulkan binary")),
        Some(shader) => {
            if !shader.has_vertex_code {
                return Err(shader_missing(key.shader_index, "vertex SPIR-V"));
            }
            if !shader.has_fragment_code {
                return Err(shader_missing(key.shader_index, "fragment SPIR-V"));
            }
            let has_descriptors: bool = shader.uniform_bindings.len() > 0 || shader.has_dynamic
                || shader.has_scope || shader.textures.len() > 0 || shader.samplers.len() > 0
                || shader.bindings.xr_depth != 0;
            let depth_test: bool = key.render_pass.depth_format.is_some();
            Ok(
                Some(
                    PipelinePlan {
                        set_layout: plan_set_layout(shader, samplers),
                        has_descriptors,
                        geometry_stride: (shader.geometry_slots * 4) as u32,
                        instance_stride: (shader.instance_slots * 4) as u32,
                        attributes: plan_vertex_attributes(
                            shader.geometry_slots,
                            shader.instance_slots,
                        ),
                        alpha_blend: key.alpha_blend,
                        fixed: plan_fixed_state(),
                        cull_mode: if key.backface_culling {
                            CULL_BACK
                        } else {
                            CULL_NONE
                        },
                        depth_test,
                        depth_writes: [depth_test, false],
                        samplers: plan_samplers(shader),
                    },
                ),
            )
        },
    }
}

/// Where the building of a pipeline stands: what is to be created next.
#[derive(Clone, Copy, PartialEq, Eq, Structural, Debug)]
pub enum BuildStage {
    SetLayout,
    PipelineLayout,
    VertexModule,
    FragmentModule,
    RenderPass,
    Pipelines,
    Sampler,
    Done,
}

/// A pipeline that is being built. A handle is zero until it is created.
pub struct PipelineBuild {
    pub stage: BuildStage,
    pub has_descriptors: bool,
    pub sampler_count: usize,
    pub set_layout: u64,
    pub layout: u64,
    pub vertex_module: u64,
    pub fragment_module: u64,
    pub render_pass: u64,
    pub pipeline_write: u64,
    pub pipeline_no_write: u64,
    pub samplers: Vec<u64>,
}

/// How a build ended that failed: what it gives back, in order, and the error.
pub struct BuildFailure {
    pub releases: Vec<PipelineRelease>,
    pub message: String,
}

/// The device objects that a build holds, in the order in which they were created. The
/// pass belongs to its own cache.
pub open spec fn held(build: PipelineBuild) -> Seq<PipelineRelease> {
    match build.stage {
        BuildStage::SetLayout => seq![],
        BuildStage::PipelineLayout => seq![PipelineRelease::SetLayout(build.set_layout)],
        BuildStage::VertexModule => seq![
            PipelineRelease::SetLayout(build.set_layout),
            PipelineRelease::PipelineLayout(build.layout),
        ],
        BuildStage::FragmentModule => seq![
            PipelineRelease::SetLayout(build.set_layout),
            PipelineRelease::PipelineLayout(build.layout),
            PipelineRelease::ShaderModule(build.vertex_module),
        ],
        BuildStage::RenderPass | BuildStage::Pipelines => seq![
            PipelineRelease::SetLayout(build.set_layout),
            PipelineRelease::PipelineLayout(build.layout),
            PipelineRelease::ShaderModule(build.vertex_module),
            PipelineRelease::ShaderModule(build.fragment_module),
        ],
        BuildStage::Sampler | BuildStage::Done => seq![
            PipelineRelease::SetLayout(build.set_layout),
            PipelineRelease::PipelineLayout(build.layout),
            PipelineRelease::Pipeline(build.pipeline_write),
            PipelineRelease::Pipeline(build.pipeline_no_write),
        ] + sampler_releases(build.samplers@),
    }
}

/// What a build gives back when the creation of a single object fails.
pub open spec fn given_back(build: PipelineBuild) -> Seq<PipelineRelease> {
    match build.stage {
        BuildStage::PipelineLayout => seq![PipelineRelease::SetLayout(build.set_layout)],
        BuildStage::VertexModule => seq![
            PipelineRelease::PipelineLayout(build.layout),
            PipelineRelease::SetLayout(build.set_layout),
        ],
        BuildStage::FragmentModule => seq![
            PipelineRelease::ShaderModule(build.vertex_module),
            PipelineRelease::PipelineLayout(build.layout),
            PipelineRelease::SetLayout(build.set_layout),
        ],
        BuildStage::Sampler => sampler_releases(build.samplers@) + seq![
            PipelineRelease::Pipeline(build.pipeline_write),
            PipelineRelease::Pipeline(build.pipeline_no_write),
            PipelineRelease::PipelineLayout(build.layout),
            PipelineRelease::SetLayout(build.set_layout),
        ],
        _ => seq![],
    }
}

/// The message for a single object that could not be created.
pub open spec fn build_failed_text(stage: BuildStage, code: i32) -> Seq<char> {
    match stage {
        BuildStage::SetLayout => call_failed_text("create_descriptor_set_layout"@, code),
        BuildStage::PipelineLayout => call_failed_text("create_pipeline_layout"@, code),
        BuildStage::VertexModule => subject_failed_text("create_shader_module"@, "vertex"@, code),
        BuildStage::FragmentModule => subject_failed_text(
            "create_shader_module"@,
            "fragment"@,
            code,
        ),
        _ => call_failed_text("create_sampler"@, code),
    }
}

/// A build after the next single object was created.
pub open spec fn build_created(before: PipelineBuild, after: PipelineBuild, handle: u64) -> bool {
    match before.stage {
        BuildStage::SetLayout => after == (PipelineBuild {
            stage: BuildStage::PipelineLayout,
            set_layout: handle,
            ..before
        }),
        BuildStage::PipelineLayout => after == (PipelineBuild {
            stage: BuildStage::VertexModule,
            layout: handle,
            ..before
        }),
        BuildStage::VertexModule => after == (PipelineBuild {
            stage: BuildStage::FragmentModule,
            vertex_module: handle,
            ..before
        }),
        BuildStage::FragmentModule => after == (PipelineBuild {
            stage: BuildStage::RenderPass,
            fragment_module: handle,
            ..before
        }),
        BuildStage::RenderPass => after == (PipelineBuild {
            stage: BuildStage::Pipelines,
            render_pass: handle,
            ..before
        }),
        BuildStage::Sampler => {
            &&& after.samplers@ =~= before.samplers@.push(handle)
            &&& after == (PipelineBuild {
                stage: if before.samplers@.len() + 1 < before.sampler_count {
                    BuildStage::Sampler
                } else {
                    BuildStage::Done
                },
                samplers: after.samplers,
                ..before
            })
        },
        _ => after == before,
    }
}

/// The two pipelines, or the error of the call with whatever it created.
pub struct PipelinesResult {
    pub pipelines: Vec<u64>,
    pub error: Option<i32>,
}

/// The pipelines of a list, to be given back.
pub open spec fn created_releases(pipelines: Seq<u64>) -> Seq<PipelineRelease> {
    Seq::new(pipelines.len(), |i: int| PipelineRelease::Pipeline(pipelines[i]))
}

impl PipelineBuild {
    /// Begins to build a pipeline.
    pub fn new(plan: &PipelinePlan) -> (build: PipelineBuild)
        ensures
            build.stage == BuildStage::SetLayout,
            build.has_descriptors == plan.has_descriptors,
            build.sampler_count == plan.samplers@.len(),
            build.samplers@.len() == 0,
            build.set_layout == 0 && build.layout == 0,
            build.vertex_module == 0 && build.fragment_module == 0,
            build.render_pass == 0,
            build.pipeline_write == 0 && build.pipeline_no_write == 0,
    {
        PipelineBuild {
            stage: BuildStage::SetLayout,
            has_descriptors: plan.has_descriptors,
            sampler_count: plan.samplers.len(),
            set_layout: 0,
            layout: 0,
            vertex_module: 0,
            fragment_module: 0,
            render_pass: 0,
            pipeline_write: 0,
            pipeline_no_write: 0,
            samplers: Vec::new(),
        }
    }

    /// Goes on after a single object was created or the pass was found.
    pub fn created(&mut self, handle: u64)
        requires
            old(self).stage == BuildStage::Sampler ==> old(self).samplers@.len()
                < old(self).sampler_count,
        ensures
            build_created(*old(self), *final(self), handle),
    {
        match self.stage {
            BuildStage::SetLayout => {
                self.set_layout = handle;
                self.stage = BuildStage::PipelineLayout;
            },
            BuildStage::PipelineLayout => {
                self.layout = handle;
                self.stage = BuildStage::VertexModule;
            },
            BuildStage::VertexModule => {
                self.vertex_module = handle;
                self.stage = BuildStage::FragmentModule;
            },
            BuildStage::FragmentModule => {
                self.fragment_module = handle;
                self.stage = BuildStage::RenderPass;
            },
            BuildStage::RenderPass => {
                self.render_pass = handle;
                self.stage = BuildStage::Pipelines;
            },
            BuildStage::Sampler => {
                self.samplers.push(handle);
                if self.samplers.len() >= self.sampler_count {
                    self.stage = BuildStage::Done;
                }
            },
            _ => {},
        }
    }

    /// Ends after a single object could not be created.
    pub fn failed(&self, code: i32) -> (failure: BuildFailure)
        requires
            self.stage == BuildStage::SetLayout || self.stage == BuildStage::PipelineLayout
                || self.stage == BuildStage::VertexModule || self.stage
                == BuildStage::FragmentModule || self.stage == BuildStage::Sampler,
        ensures
            failure.releases@ == given_back(*self),
            failure.message@ == build_failed_text(self.stage, code),
    {
        let mut releases: Vec<PipelineRelease> = Vec::new();
        match self.stage {
            BuildStage::SetLayout => {
                BuildFailure {
                    releases,
                    message: call_failed("create_descriptor_set_layout", code),
                }
            },
            BuildStage::PipelineLayout => {
                releases.push(PipelineRelease::SetLayout(self.set_layout));
                assert(releases@ =~= given_back(*self));
                BuildFailure { releases, message: call_failed("create_pipeline_layout", code) }
            },
            BuildStage::VertexModule => {
                releases.push(PipelineRelease::PipelineLayout(self.layout));
                releases.push(PipelineRelease::SetLayout(self.set_layout));
                assert(releases@ =~= given_back(*self));
                BuildFailure {
                    releases,
                    message: subject_failed("create_shader_module", "vertex", code),
                }
            },
            BuildStage::FragmentModule => {
                releases.push(PipelineRelease::ShaderModule(self.vertex_module));
                releases.push(PipelineRelease::PipelineLayout(self.layout));
                releases.push(PipelineRelease::SetLayout(self.set_layout));
                assert(releases@ =~= given_back(*self));
                BuildFailure {
                    releases,
                    message: subject_failed("create_shader_module", "fragment", code),
                }
            },
            _ => {
                append_samplers(&mut releases, &self.samplers);
                releases.push(PipelineRelease::Pipeline(self.pipeline_write));
                releases.push(PipelineRelease::Pipeline(self.pipeline_no_write));
                releases.push(PipelineRelease::PipelineLayout(self.layout));
                releases.push(PipelineRelease::SetLayout(self.set_layout));
                assert(releases@ =~= given_back(*self));
                BuildFailure { releases, message: call_failed("create_sampler", code) }
            },
        }
    }

    /// Ends after the pass could not be had. Nothing is given back: the layouts and the
    /// modules stay with the device until it goes.
    pub fn render_pass_failed(&self, message: String) -> (failure: BuildFailure)
        requires
            self.stage == BuildStage::RenderPass,
        ensures
            failure.releases@.len() == 0,
            failure.message@ == message@,
    {
        BuildFailure { releases: Vec::new(), message }
    }

    /// Goes on after the call that creates the two pipelines. The shader modules go back
    /// either way; what is returned is given back before anything else happens.
    pub fn pipelines_created(&mut self, result: PipelinesResult) -> (outcome: Result<
        Vec<PipelineRelease>,
        BuildFailure,
    >)
        requires
            old(self).stage == BuildStage::Pipelines,
            old(self).samplers@.len() == 0,
        ensures
            ({
                let modules = seq![
                    PipelineRelease::ShaderModule(old(self).vertex_module),
                    PipelineRelease::ShaderModule(old(self).fragment_module),
                ];
                if result.error is None && result.pipelines@.len() >= 2 {
                    &&& outcome matches Ok(releases) && releases@ == modules
                    &&& *final(self) == (PipelineBuild {
                        stage: if old(self).sampler_count > 0 {
                            BuildStage::Sampler
                        } else {
                            BuildStage::Done
                        },
                        pipeline_write: result.pipelines@[0],
                        pipeline_no_write: result.pipelines@[1],
                        ..*old(self)
                    })
                } else {
                    &&& *final(self) == *old(self)
                    &&& outcome matches Err(failure) && failure.releases@ == modules
                        + created_releases(result.pipelines@) + seq![
                        PipelineRelease::PipelineLayout(old(self).layout),
                        PipelineRelease::SetLayout(old(self).set_layout),
                    ] && failure.message@ == (match result.error {
                        Some(code) => call_failed_text("create_graphics_pipelines"@, code),
                        None => "create_graphics_pipelines returned fewer than 2 pipelines"@,
                    })
                }
            }),
    {
        let mut releases: Vec<PipelineRelease> = Vec::new();
        releases.push(PipelineRelease::ShaderModule(self.vertex_module));
        releases.push(PipelineRelease::ShaderModule(self.fragment_module));
        let ghost modules = seq![
            PipelineRelease::ShaderModule(self.vertex_module),
            PipelineRelease::ShaderModule(self.fragment_module),
        ];
        assert(releases@ =~= modules);
        if result.error.is_none() && result.pipelines.len() >= 2 {
            self.pipeline_write = result.pipelines[0];
            self.pipeline_no_write = result.pipelines[1];
            self.stage = if self.sampler_count > 0 {
                BuildStage::Sampler
            } else {
                BuildStage::Done
            };
            return Ok(releases);
        }
        let ghost wanted = created_releases(result.pipelines@);
        let mut i: usize = 0;
        while i < result.pipelines.len()
            invariant
                i <= result.pipelines@.len(),
                wanted == created_releases(result.pipelines@),
                releases@ == modules + wanted.take(i as int),
            decreases result.pipelines@.len() - i,
        {
            releases.push(PipelineRelease::Pipeline(result.pipelines[i]));
            i = i + 1;
            assert(releases@ =~= modules + wanted.take(i as int));
        }
        assert(wanted.take(i as int) =~= wanted);
        releases.push(PipelineRelease::PipelineLayout(self.layout));
        releases.push(PipelineRelease::SetLayout(self.set_layout));
        assert(releases@ =~= modules + wanted + seq![
            PipelineRelease::PipelineLayout(self.layout),
            PipelineRelease::SetLayout(self.set_layout),
        ]);
        let message: String = match result.error {
            Some(code) => call_failed("create_graphics_pipelines", code),
            None => "create_graphics_pipelines returned fewer than 2 pipelines".to_owned(),
        };
        Err(BuildFailure { releases, message })
    }

    /// The pipeline of a build that is done.
    pub fn finish(self) -> (pipeline: VulkanPipeline)
        requires
            self.stage == BuildStage::Done,
        ensures
            pipeline == (VulkanPipeline {
                pipeline_write: self.pipeline_write,
                pipeline_no_write: self.pipeline_no_write,
                layout: self.layout,
                descriptor_set_layout: self.set_layout,
                has_descriptors: self.has_descriptors,
                sampler_handles: self.samplers,
            }),
    {
        VulkanPipeline {
            pipeline_write: self.pipeline_write,
            pipeline_no_write: self.pipeline_no_write,
            layout: self.layout,
            descriptor_set_layout: self.set_layout,
            has_descriptors: self.has_descriptors,
            sampler_handles: self.samplers,
        }
    }
}

/// A build that creates one more object holds that object, and nothing else has
/// changed hands.
pub proof fn law_build_holds_what_it_creates(
    before: PipelineBuild,
    after: PipelineBuild,
    handle: u64,
)
    requires
        build_created(before, after, handle),
        before.stage == BuildStage::SetLayout || before.stage == BuildStage::PipelineLayout
            || before.stage == BuildStage::VertexModule || before.stage
            == BuildStage::FragmentModule || before.stage == BuildStage::Sampler,
    ensures
        ({
            let created = match before.stage {
                BuildStage::SetLayout => PipelineRelease::SetLayout(handle),
                BuildStage::PipelineLayout => PipelineRelease::PipelineLayout(handle),
                BuildStage::Sampler => PipelineRelease::Sampler(handle),
                _ => PipelineRelease::ShaderModule(handle),
            };
            held(after) == held(before).push(created)
        }),
{
    if before.stage == BuildStage::Sampler {
        assert(sampler_releases(after.samplers@) =~= sampler_releases(before.samplers@).push(
            PipelineRelease::Sampler(handle),
        ));
    }
    let created = match before.stage {
        BuildStage::SetLayout => PipelineRelease::SetLayout(handle),
        BuildStage::PipelineLayout => PipelineRelease::PipelineLayout(handle),
        BuildStage::Sampler => PipelineRelease::Sampler(handle),
        _ => PipelineRelease::ShaderModule(handle),
    };
    assert(held(after) =~= held(before).push(created));
}

/// A build in which a single object cannot be created gives back all that it holds.
pub proof fn law_failed_build_gives_back_all(build: PipelineBuild)
    requires
        build.stage == BuildStage::SetLayout || build.stage == BuildStage::PipelineLayout
            || build.stage == BuildStage::VertexModule || build.stage
            == BuildStage::FragmentModule || build.stage == BuildStage::Sampler,
    ensures
        given_back(build).to_multiset() == held(build).to_multiset(),
{
    broadcast use vstd::seq_lib::group_to_multiset_ensures;

    let set_layout = PipelineRelease::SetLayout(build.set_layout);
    let layout = PipelineRelease::PipelineLayout(build.layout);
    let module = PipelineRelease::ShaderModule(build.vertex_module);
    let write = PipelineRelease::Pipeline(build.pipeline_write);
    let no_write = PipelineRelease::Pipeline(build.pipeline_no_write);
    let none = Seq::<PipelineRelease>::empty();
    match build.stage {
        BuildStage::VertexModule => {
            assert(held(build) =~= none.push(set_layout).push(layout));
            assert(given_back(build) =~= none.push(layout).push(set_layout));
        },
        BuildStage::FragmentModule => {
            assert(held(build) =~= none.push(set_layout).push(layout).push(module));
            assert(given_back(build) =~= none.push(module).push(layout).push(set_layout));
        },
        BuildStage::Sampler => {
            let samplers = sampler_releases(build.samplers@);
            let fixed = none.push(set_layout).push(layout).push(write).push(no_write);
            assert(held(build) =~= fixed + samplers);
            assert(given_back(build) =~= samplers.push(write).push(no_write).push(layout).push(
                set_layout,
            ));
            vstd::seq_lib::lemma_multiset_commutative(fixed, samplers);
        },
        _ => {},
    }
    assert(given_back(build).to_multiset() =~= held(build).to_multiset());
}

/// A finished pipeline is made of just what its build holds: giving the pipeline back
/// gives back all of it.
pub proof fn law_finished_pipeline_owns_all(build: PipelineBuild, pipeline: VulkanPipeline)
    requires
        build.stage == BuildStage::Done,
        pipeline.pipeline_write == build.pipeline_write,
        pipeline.pipeline_no_write == build.pipeline_no_write,
        pipeline.layout == build.layout,
        pipeline.descriptor_set_layout == build.set_layout,
        pipeline.sampler_handles@ == build.samplers@,
    ensures
        pipeline_releases(pipeline).to_multiset() == held(build).to_multiset(),
{
    let sampling = PipelineBuild { stage: BuildStage::Sampler, ..build };
    law_failed_build_gives_back_all(sampling);
    assert(given_back(sampling) =~= pipeline_releases(pipeline));
    assert(held(sampling) =~= held(build));
}

/// A pipeline that is found was kept under a key that agrees with the one asked for in
/// every field, and it is the first such; where none is found, every kept key differs in
/// some field.
pub proof fn law_found_pipeline_was_kept_under_the_key(
    pipelines: Seq<CachedPipeline>,
    key: VulkanPipelineKey,
)
    ensures
        match find_pipeline(pipelines, key) {
            Some(found) => {
                &&& 0 <= found < pipelines.len()
                &&& agrees(pipelines[found].key, key)
                &&& forall|i: int| 0 <= i < found ==> !agrees((#[trigger] pipelines[i]).key, key)
            },
            None => forall|i: int|
                0 <= i < pipelines.len() ==> !agrees((#[trigger] pipelines[i]).key, key),
        },
    decreases pipelines.len(),
{
    if pipelines.len() > 0 {
        let before = pipelines.drop_last();
        law_found_pipeline_was_kept_under_the_key(before, key);
        law_same_pipeline_has_same_fields(pipelines.last().key, key);
        assert(forall|i: int| 0 <= i < before.len() ==> before[i] == pipelines[i]);
    }
}

/// Two keys have the same value in every field.
pub open spec fn agrees(a: VulkanPipelineKey, b: VulkanPipelineKey) -> bool {
    a.shader_index == b.shader_index && a.shader_variant == b.shader_variant
        && a.render_pass.color_formats@ == b.render_pass.color_formats@
        && a.render_pass.depth_format == b.render_pass.depth_format && a.alpha_blend
        == b.alpha_blend && a.backface_culling == b.backface_culling
        && a.video_combined_immutable_samplers@ == b.video_combined_immutable_samplers@
}

/// A pipeline gives back each sampler and each object that it is made of, and nothing
/// else.
pub proof fn law_pipeline_gives_back_its_parts(pipeline: VulkanPipeline, i: int)
    ensures
        pipeline_releases(pipeline).len() == pipeline.sampler_handles@.len() + 4,
        0 <= i < pipeline.sampler_handles@.len() ==> pipeline_releases(pipeline)[i]
            == PipelineRelease::Sampler(pipeline.sampler_handles@[i]),
        pipeline_releases(pipeline).contains(PipelineRelease::Pipeline(pipeline.pipeline_write)),
        pipeline_releases(pipeline).contains(PipelineRelease::Pipeline(pipeline.pipeline_no_write)),
        pipeline_releases(pipeline).contains(PipelineRelease::PipelineLayout(pipeline.layout)),
        pipeline_releases(pipeline).contains(
            PipelineRelease::SetLayout(pipeline.descriptor_set_layout),
        ),
{
    let n = pipeline.sampler_handles@.len() as int;
    let releases = pipeline_releases(pipeline);
    assert(releases[n] == PipelineRelease::Pipeline(pipeline.pipeline_write));
    assert(releases[n + 1] == PipelineRelease::Pipeline(pipeline.pipeline_no_write));
    assert(releases[n + 2] == PipelineRelease::PipelineLayout(pipeline.layout));
    assert(releases[n + 3] == PipelineRelease::SetLayout(pipeline.descriptor_set_layout));
}

/// A plan follows its shader and its key: all that the shader binds is in its layout, with
/// the samplers that are built in, a vertex and an instance take four bytes for
/// each of their numbers, the attributes are as wide as that, nothing is culled and nothing
/// blended that the key does not ask for, depth is tested and written only where the pass
/// has a depth attachment, and the second pipeline never writes depth.
pub proof fn law_plan_follows_shader_and_key(
    plan: PipelinePlan,
    shader: ShaderDeclaration,
    key: VulkanPipelineKey,
    samplers: Seq<VulkanVideoCombinedImmutableSamplerKey>,
)
    requires
        is_pipeline_plan(plan, shader, key, samplers),
    ensures
        forall|k: int|
            0 <= k < plan.set_layout@.len() ==> (#[trigger] plan.set_layout@[k]).sampler
                == built_in_sampler(samplers, plan.set_layout@[k].binding),
        forall|i: int|
            0 <= i < shader.collected_types(samplers).len() ==> has_binding(
                plan.set_layout@,
                (#[trigger] shader.collected_types(samplers)[i]).binding,
            ),
        plan.geometry_stride == shader.geometry_slots * 4,
        plan.instance_stride == shader.instance_slots * 4,
        plan.alpha_blend == key.alpha_blend,
        plan.cull_mode == 2 <==> key.backface_culling,
        plan.cull_mode == 0 <==> !key.backface_culling,
        plan.depth_test <==> key.render_pass.depth_format is Some,
        plan.depth_writes@[0] <==> key.render_pass.depth_format is Some,
        !plan.depth_writes@[1],
        plan.samplers@.len() == shader.samplers@.len(),
        plan.has_descriptors <==> {
            ||| shader.uniform_bindings@.len() > 0
            ||| shader.has_dynamic
            ||| shader.has_scope
            ||| shader.textures@.len() > 0
            ||| shader.samplers@.len() > 0
            ||| shader.bindings.xr_depth != 0
        },
        plan.fixed.topology == 3,
        plan.fixed.polygon_mode == 0,
        plan.fixed.front_face == 0,
        plan.fixed.samples == 1,
        plan.fixed.source_factor == 1,
        plan.fixed.destination_factor == 7,
        plan.fixed.blend_op == 0,
        plan.fixed.color_write_mask == 15,
        plan.fixed.depth_compare == 3,
        plan.fixed.line_width == 0x3f80_0000,
        !plan.fixed.primitive_restart && !plan.fixed.depth_bounds_test && !plan.fixed.stencil_test,
        plan.fixed.descriptor_stages == 0x11,
{
    law_set_layout_binds_what_is_declared(plan.set_layout@, shader, samplers);
    assert(0x1u32 | 0x10u32 == 0x11u32) by (bit_vector);
}

/// A build goes through all its stages: each object that is created is the one that the
/// stage is for, nothing else changes, and each sampler is made.
pub proof fn law_build_leaves_no_stage_out(before: PipelineBuild, after: PipelineBuild, handle: u64)
    requires
        build_created(before, after, handle),
    ensures
        before.stage is SetLayout ==> after.stage is PipelineLayout && after.set_layout == handle,
        before.stage is PipelineLayout ==> after.stage is VertexModule && after.layout == handle,
        before.stage is VertexModule ==> after.stage is FragmentModule && after.vertex_module
            == handle,
        before.stage is FragmentModule ==> after.stage is RenderPass && after.fragment_module
            == handle,
        before.stage is RenderPass ==> after.stage is Pipelines && after.render_pass == handle,
        before.stage is Sampler ==> after.samplers@.len() == before.samplers@.len() + 1
            && after.samplers@.last() == handle && (after.stage is Done <==> after.samplers@.len()
            >= before.sampler_count),
        !(before.stage is SetLayout) ==> after.set_layout == before.set_layout,
        !(before.stage is PipelineLayout) ==> after.layout == before.layout,
        !(before.stage is Sampler) ==> after.samplers@ == before.samplers@,
        after.has_descriptors == before.has_descriptors,
        after.sampler_count == before.sampler_count,
{
}

/// Every pipeline that was created is given back, and so is every render pass that is kept.
pub proof fn law_created_and_kept_are_given_back(pipelines: Seq<u64>, cache: RenderPassCache, i: int)
    ensures
        created_releases(pipelines).len() == pipelines.len(),
        0 <= i < pipelines.len() ==> created_releases(pipelines)[i] == PipelineRelease::Pipeline(
            pipelines[i],
        ),
        pass_releases(cache).len() == cache.passes@.len(),
        0 <= i < cache.passes@.len() ==> pass_releases(cache)[i] == PipelineRelease::RenderPass(
            cache.passes@[i].render_pass,
        ),
{
}

/// What each of the pipelines is made of is given back: both pipelines, their layouts and
/// their samplers.
pub proof fn law_every_pipeline_is_given_back(pipelines: Seq<CachedPipeline>, n: int, k: int)
    requires
        0 <= k < n <= pipelines.len(),
    ensures
        ({
            let all = all_releases(pipelines, n);
            let pipeline = pipelines[k].pipeline;
            &&& all.contains(PipelineRelease::Pipeline(pipeline.pipeline_write))
            &&& all.contains(PipelineRelease::Pipeline(pipeline.pipeline_no_write))
            &&& all.contains(PipelineRelease::PipelineLayout(pipeline.layout))
            &&& all.contains(PipelineRelease::SetLayout(pipeline.descriptor_set_layout))
            &&& forall|i: int|
                0 <= i < pipeline.sampler_handles@.len() ==> all.contains(
                    PipelineRelease::Sampler(#[trigger] pipeline.sampler_handles@[i]),
                )
        }),
    decreases n,
{
    let before = all_releases(pipelines, n - 1);
    let last = pipeline_releases(pipelines[n - 1].pipeline);
    let all = all_releases(pipelines, n);
    assert forall|item: PipelineRelease|
        before.contains(item) || last.contains(item) implies #[trigger] all.contains(item) by {
        if before.contains(item) {
            let i = choose|i: int| 0 <= i < before.len() && before[i] == item;
            assert(all[i] == item);
        } else {
            let i = choose|i: int| 0 <= i < last.len() && last[i] == item;
            assert(all[before.len() + i] == item);
        }
    }
    let pipeline = pipelines[k].pipeline;
    if k < n - 1 {
        law_every_pipeline_is_given_back(pipelines, n - 1, k);
    } else {
        let m = pipeline.sampler_handles@.len() as int;
        assert(last[m] == PipelineRelease::Pipeline(pipeline.pipeline_write));
        assert(last[m + 1] == PipelineRelease::Pipeline(pipeline.pipeline_no_write));
        assert(last[m + 2] == PipelineRelease::PipelineLayout(pipeline.layout));
        assert(last[m + 3] == PipelineRelease::SetLayout(pipeline.descriptor_set_layout));
        assert forall|i: int| 0 <= i < m implies last.contains(
            PipelineRelease::Sampler(#[trigger] pipeline.sampler_handles@[i]),
        ) by {
            assert(last[i] == PipelineRelease::Sampler(pipeline.sampler_handles@[i]));
        }
    }
}

/// A build that fails names the call of its stage and its error.
pub proof fn law_failed_builds_name_their_call(stage: BuildStage, code: i32)
    ensures
        ({
            let text = build_failed_text(stage, code);
            &&& stage is SetLayout ==> text == call_failed_text(
                "create_descriptor_set_layout"@,
                code,
            )
            &&& stage is PipelineLayout ==> text == call_failed_text(
                "create_pipeline_layout"@,
                code,
            )
            &&& stage is VertexModule ==> text == subject_failed_text(
                "create_shader_module"@,
                "vertex"@,
                code,
            )
            &&& stage is FragmentModule ==> text == subject_failed_text(
                "create_shader_module"@,
                "fragment"@,
                code,
            )
            &&& stage is Sampler ==> text == call_failed_text("create_sampler"@, code)
        }),
{
}

} // verus!

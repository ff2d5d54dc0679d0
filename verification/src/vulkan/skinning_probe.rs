//! The probe that skins a whole mesh on the device and compares the result.

use vstd::prelude::*;

use crate::float_bits::{sanitize_tolerance, tally_differences, DifferenceTally};
#[allow(unused_imports)]
use crate::float_bits::{largest_difference, mismatch_count, usable_tolerance};
use crate::vulkan::compute_probe::count_word_mismatches;
#[allow(unused_imports)]
use crate::vulkan::compute_probe::{law_word_mismatches_count_the_differing, word_mismatches};
use crate::vulkan::pending::PendingProbes;
#[allow(unused_imports)]
use crate::vulkan::pending::{request_text, unfinished, PendingProbe};
use crate::vulkan::script::{
    Access, BufferUse, CommandRun, ComputeProgram, DeviceOp, Setup, Slot, Stage, Step,
};
#[allow(unused_imports)]
use crate::vulkan::script::no_progress;

verus! {

/// How many invocations one workgroup has.
pub const WORKGROUP_SIZE: u32 = 64;

/// How many workgroups cover `count` invocations; at least one.
pub open spec fn workgroups_for(count: int) -> int {
    if count <= 0 {
        1
    } else {
        (count + 63) / 64
    }
}

/// Counts the workgroups that cover `count` invocations.
pub fn workgroups(count: u32) -> (groups: u32)
    ensures
        groups == workgroups_for(count as int),
{
    if count == 0 {
        1
    } else {
        (count - 1) / WORKGROUP_SIZE + 1
    }
}

/// The workgroups cover all invocations, and one fewer would not.
pub proof fn law_workgroups_cover(count: int)
    requires
        0 <= count,
    ensures
        workgroups_for(count) >= 1,
        count <= workgroups_for(count) * 64,
        count > 0 ==> (workgroups_for(count) - 1) * 64 < count,
{
}

/// The indices that are sampled: of the first `count` requested ones, those that
/// are out of range become zero; the rest of the list is zero.
pub open spec fn sampled_indices(requested: Seq<u32>, count: int, limit: int) -> Seq<u32> {
    Seq::new(
        requested.len(),
        |i: int|
            if i < count && requested[i] < limit {
                requested[i]
            } else {
                0
            },
    )
}

/// Selects the indices to sample.
pub fn select_sample_indices(requested: &[u32], count: usize, limit: usize) -> (indices: Vec<u32>)
    ensures
        indices@ == sampled_indices(requested@, count as int, limit as int),
{
    let mut indices: Vec<u32> = Vec::new();
    let mut i: usize = 0;
    while i < requested.len()
        invariant
            i <= requested@.len(),
            indices@ == sampled_indices(requested@, count as int, limit as int).take(i as int),
        decreases requested@.len() - i,
    {
        let index: u32 = requested[i];
        if i < count && (index as u64) < (limit as u64) {
            indices.push(index);
        } else {
            indices.push(0);
        }
        i = i + 1;
        assert(indices@ =~= sampled_indices(requested@, count as int, limit as int).take(i as int));
    }
    assert(indices@ =~= sampled_indices(requested@, count as int, limit as int));
    indices
}

/// Every sampled index is in range, where there is anything to sample.
pub proof fn law_sampled_indices_in_range(requested: Seq<u32>, count: int, limit: int)
    requires
        0 < limit,
    ensures
        sampled_indices(requested, count, limit).len() == requested.len(),
        forall|i: int|
            0 <= i < requested.len() ==> 0 <= #[trigger] sampled_indices(
                requested,
                count,
                limit,
            )[i] < limit,
{
}

/// What the probe is called in messages.
pub const SUBJECT: &'static str = "full f32 skinning mesh probe";

/// The setup of the probe.
pub open spec fn skinning_setup_steps(
    vertex_bytes: u64,
    triangle_bytes: u64,
    position_bytes: u64,
    observation_bytes: u64,
) -> Seq<Step> {
    seq![
        Step {
            slot: Slot::Code,
            op: DeviceOp::CompileShader { program: ComputeProgram::SkinningMesh },
            subject: SUBJECT,
        },
        Step {
            slot: Slot::Vertices,
            op: DeviceOp::HostBufferWithData { usage: BufferUse::Storage, size: vertex_bytes },
            subject: SUBJECT,
        },
        Step {
            slot: Slot::Triangles,
            op: DeviceOp::HostBufferWithData { usage: BufferUse::Storage, size: triangle_bytes },
            subject: SUBJECT,
        },
        Step {
            slot: Slot::Positions,
            op: DeviceOp::HostBuffer { usage: BufferUse::Storage, size: position_bytes },
            subject: SUBJECT,
        },
        Step {
            slot: Slot::Observations,
            op: DeviceOp::HostBuffer { usage: BufferUse::Storage, size: observation_bytes },
            subject: SUBJECT,
        },
        Step {
            slot: Slot::Params,
            op: DeviceOp::HostBufferWithData { usage: BufferUse::Storage, size: 16 },
            subject: SUBJECT,
        },
        Step {
            slot: Slot::Module,
            op: DeviceOp::ShaderModule { code: Slot::Code },
            subject: SUBJECT,
        },
        Step {
            slot: Slot::SetLayout,
            op: DeviceOp::StorageSetLayout { bindings: 5 },
            subject: SUBJECT,
        },
        Step {
            slot: Slot::PipelineLayout,
            op: DeviceOp::PipelineLayout { set_layout: Slot::SetLayout },
            subject: SUBJECT,
        },
        Step {
            slot: Slot::Pipeline,
            op: DeviceOp::ComputePipeline {
                module: Slot::Module,
                layout: Slot::PipelineLayout,
                program: ComputeProgram::SkinningMesh,
            },
            subject: SUBJECT,
        },
        Step { slot: Slot::Pool, op: DeviceOp::StoragePool { descriptors: 5 }, subject: SUBJECT },
        Step {
            slot: Slot::Descriptors,
            op: DeviceOp::DescriptorSet { pool: Slot::Pool, layout: Slot::SetLayout },
            subject: SUBJECT,
        },
        Step {
            slot: Slot::Descriptors,
            op: DeviceOp::QueueStorageWrite {
                binding: 0,
                buffer: Slot::Vertices,
                range: vertex_bytes,
            },
            subject: SUBJECT,
        },
        Step {
            slot: Slot::Descriptors,
            op: DeviceOp::QueueStorageWrite {
                binding: 1,
                buffer: Slot::Triangles,
                range: triangle_bytes,
            },
            subject: SUBJECT,
        },
        Step {
            slot: Slot::Descriptors,
            op: DeviceOp::QueueStorageWrite {
                binding: 2,
                buffer: Slot::Positions,
                range: position_bytes,
            },
            subject: SUBJECT,
        },
        Step {
            slot: Slot::Descriptors,
            op: DeviceOp::QueueStorageWrite {
                binding: 3,
                buffer: Slot::Observations,
                range: observation_bytes,
            },
            subject: SUBJECT,
        },
        Step {
            slot: Slot::Descriptors,
            op: DeviceOp::QueueStorageWrite { binding: 4, buffer: Slot::Params, range: 16 },
            subject: SUBJECT,
        },
        Step { slot: Slot::Descriptors, op: DeviceOp::UpdateSets, subject: SUBJECT },
        Step { slot: Slot::Commands, op: DeviceOp::CommandBuffer, subject: SUBJECT },
        Step { slot: Slot::Fence, op: DeviceOp::Fence, subject: SUBJECT },
    ]
}

/// The commands of the probe. Nothing is waited for.
pub open spec fn skinning_command_steps(
    vertex_bytes: u64,
    triangle_bytes: u64,
    position_bytes: u64,
    observation_bytes: u64,
    groups: u32,
) -> Seq<Step> {
    seq![
        Step { slot: Slot::Commands, op: DeviceOp::BeginCommands, subject: SUBJECT },
        Step {
            slot: Slot::Commands,
            op: DeviceOp::QueueBarrier {
                buffer: Slot::Vertices,
                size: vertex_bytes,
                before: Access::HostWrite,
                after: Access::ShaderRead,
            },
            subject: SUBJECT,
        },
        Step {
            slot: Slot::Commands,
            op: DeviceOp::QueueBarrier {
                buffer: Slot::Triangles,
                size: triangle_bytes,
                before: Access::HostWrite,
                after: Access::ShaderRead,
            },
            subject: SUBJECT,
        },
        Step {
            slot: Slot::Commands,
            op: DeviceOp::QueueBarrier {
                buffer: Slot::Params,
                size: 16,
                before: Access::HostWrite,
                after: Access::ShaderRead,
            },
            subject: SUBJECT,
        },
        Step {
            slot: Slot::Commands,
            op: DeviceOp::Barrier { first: Stage::Host, second: Stage::Compute },
            subject: SUBJECT,
        },
        Step {
            slot: Slot::Commands,
            op: DeviceOp::BindPipeline { pipeline: Slot::Pipeline },
            subject: SUBJECT,
        },
        Step {
            slot: Slot::Commands,
            op: DeviceOp::BindSet { layout: Slot::PipelineLayout },
            subject: SUBJECT,
        },
        Step { slot: Slot::Commands, op: DeviceOp::Dispatch { groups }, subject: SUBJECT },
        Step {
            slot: Slot::Commands,
            op: DeviceOp::QueueBarrier {
                buffer: Slot::Positions,
                size: position_bytes,
                before: Access::ShaderWrite,
                after: Access::HostRead,
            },
            subject: SUBJECT,
        },
        Step {
            slot: Slot::Commands,
            op: DeviceOp::QueueBarrier {
                buffer: Slot::Observations,
                size: observation_bytes,
                before: Access::ShaderWrite,
                after: Access::HostRead,
            },
            subject: SUBJECT,
        },
        Step {
            slot: Slot::Commands,
            op: DeviceOp::Barrier { first: Stage::Compute, second: Stage::Host },
            subject: SUBJECT,
        },
        Step { slot: Slot::Commands, op: DeviceOp::EndCommands, subject: SUBJECT },
        Step { slot: Slot::Queue, op: DeviceOp::Submit { counted: true }, subject: SUBJECT },
    ]
}

fn skinning_setup(
    vertex_bytes: u64,
    triangle_bytes: u64,
    position_bytes: u64,
    observation_bytes: u64,
) -> (steps: Vec<Step>)
    ensures
        steps@ == skinning_setup_steps(
            vertex_bytes,
            triangle_bytes,
            position_bytes,
            observation_bytes,
        ),
{
    vec![
        Step {
            slot: Slot::Code,
            op: DeviceOp::CompileShader { program: ComputeProgram::SkinningMesh },
            subject: SUBJECT,
        },
        Step {
            slot: Slot::Vertices,
            op: DeviceOp::HostBufferWithData { usage: BufferUse::Storage, size: vertex_bytes },
            subject: SUBJECT,
        },
        Step {
            slot: Slot::Triangles,
            op: DeviceOp::HostBufferWithData { usage: BufferUse::Storage, size: triangle_bytes },
            subject: SUBJECT,
        },
        Step {
            slot: Slot::Positions,
            op: DeviceOp::HostBuffer { usage: BufferUse::Storage, size: position_bytes },
            subject: SUBJECT,
        },
        Step {
            slot: Slot::Observations,
            op: DeviceOp::HostBuffer { usage: BufferUse::Storage, size: observation_bytes },
            subject: SUBJECT,
        },
        Step {
            slot: Slot::Params,
            op: DeviceOp::HostBufferWithData { usage: BufferUse::Storage, size: 16 },
            subject: SUBJECT,
        },
        Step {
            slot: Slot::Module,
            op: DeviceOp::ShaderModule { code: Slot::Code },
            subject: SUBJECT,
        },
        Step {
            slot: Slot::SetLayout,
            op: DeviceOp::StorageSetLayout { bindings: 5 },
            subject: SUBJECT,
        },
        Step {
            slot: Slot::PipelineLayout,
            op: DeviceOp::PipelineLayout { set_layout: Slot::SetLayout },
            subject: SUBJECT,
        },
        Step {
            slot: Slot::Pipeline,
            op: DeviceOp::ComputePipeline {
                module: Slot::Module,
                layout: Slot::PipelineLayout,
                program: ComputeProgram::SkinningMesh,
            },
            subject: SUBJECT,
        },
        Step { slot: Slot::Pool, op: DeviceOp::StoragePool { descriptors: 5 }, subject: SUBJECT },
        Step {
            slot: Slot::Descriptors,
            op: DeviceOp::DescriptorSet { pool: Slot::Pool, layout: Slot::SetLayout },
            subject: SUBJECT,
        },
        Step {
            slot: Slot::Descriptors,
            op: DeviceOp::QueueStorageWrite {
                binding: 0,
                buffer: Slot::Vertices,
                range: vertex_bytes,
            },
            subject: SUBJECT,
        },
        Step {
            slot: Slot::Descriptors,
            op: DeviceOp::QueueStorageWrite {
                binding: 1,
                buffer: Slot::Triangles,
                range: triangle_bytes,
            },
            subject: SUBJECT,
        },
        Step {
            slot: Slot::Descriptors,
            op: DeviceOp::QueueStorageWrite {
                binding: 2,
                buffer: Slot::Positions,
                range: position_bytes,
            },
            subject: SUBJECT,
        },
        Step {
            slot: Slot::Descriptors,
            op: DeviceOp::QueueStorageWrite {
                binding: 3,
                buffer: Slot::Observations,
                range: observation_bytes,
            },
            subject: SUBJECT,
        },
        Step {
            slot: Slot::Descriptors,
            op: DeviceOp::QueueStorageWrite { binding: 4, buffer: Slot::Params, range: 16 },
            subject: SUBJECT,
        },
        Step { slot: Slot::Descriptors, op: DeviceOp::UpdateSets, subject: SUBJECT },
        Step { slot: Slot::Commands, op: DeviceOp::CommandBuffer, subject: SUBJECT },
        Step { slot: Slot::Fence, op: DeviceOp::Fence, subject: SUBJECT },
    ]
}

fn skinning_commands(
    vertex_bytes: u64,
    triangle_bytes: u64,
    position_bytes: u64,
    observation_bytes: u64,
    groups: u32,
) -> (steps: Vec<Step>)
    ensures
        steps@ == skinning_command_steps(
            vertex_bytes,
            triangle_bytes,
            position_bytes,
            observation_bytes,
            groups,
        ),
{
    vec![
        Step { slot: Slot::Commands, op: DeviceOp::BeginCommands, subject: SUBJECT },
        Step {
            slot: Slot::Commands,
            op: DeviceOp::QueueBarrier {
                buffer: Slot::Vertices,
                size: vertex_bytes,
                before: Access::HostWrite,
                after: Access::ShaderRead,
            },
            subject: SUBJECT,
        },
        Step {
            slot: Slot::Commands,
            op: DeviceOp::QueueBarrier {
                buffer: Slot::Triangles,
                size: triangle_bytes,
                before: Access::HostWrite,
                after: Access::ShaderRead,
            },
            subject: SUBJECT,
        },
        Step {
            slot: Slot::Commands,
            op: DeviceOp::QueueBarrier {
                buffer: Slot::Params,
                size: 16,
                before: Access::HostWrite,
                after: Access::ShaderRead,
            },
            subject: SUBJECT,
        },
        Step {
            slot: Slot::Commands,
            op: DeviceOp::Barrier { first: Stage::Host, second: Stage::Compute },
            subject: SUBJECT,
        },
        Step {
            slot: Slot::Commands,
            op: DeviceOp::BindPipeline { pipeline: Slot::Pipeline },
            subject: SUBJECT,
        },
        Step {
            slot: Slot::Commands,
            op: DeviceOp::BindSet { layout: Slot::PipelineLayout },
            subject: SUBJECT,
        },
        Step { slot: Slot::Commands, op: DeviceOp::Dispatch { groups }, subject: SUBJECT },
        Step {
            slot: Slot::Commands,
            op: DeviceOp::QueueBarrier {
                buffer: Slot::Positions,
                size: position_bytes,
                before: Access::ShaderWrite,
                after: Access::HostRead,
            },
            subject: SUBJECT,
        },
        Step {
            slot: Slot::Commands,
            op: DeviceOp::QueueBarrier {
                buffer: Slot::Observations,
                size: observation_bytes,
                before: Access::ShaderWrite,
                after: Access::HostRead,
            },
            subject: SUBJECT,
        },
        Step {
            slot: Slot::Commands,
            op: DeviceOp::Barrier { first: Stage::Compute, second: Stage::Host },
            subject: SUBJECT,
        },
        Step { slot: Slot::Commands, op: DeviceOp::EndCommands, subject: SUBJECT },
        Step { slot: Slot::Queue, op: DeviceOp::Submit { counted: true }, subject: SUBJECT },
    ]
}

/// A mesh probe as planned.
pub struct SkinningProbe {
    pub setup: Setup,
    pub commands: CommandRun,
    pub params: [u32; 4],
    pub detail: SkinningDetail,
}

/// What a submitted mesh probe keeps for its completion. Positions are given by
/// their bits.
pub struct SkinningDetail {
    pub vertex_count: usize,
    pub triangle_count: usize,
    pub sample_count: usize,
    pub sample_indices: Vec<u32>,
    pub expected_positions: Vec<[u32; 4]>,
    pub expected_triangles: Vec<[u32; 4]>,
    pub tolerance: u32,
}

impl SkinningDetail {
    /// The expectations cover the mesh, and every sample is a vertex of it.
    pub open spec fn wf(&self) -> bool {
        &&& self.vertex_count > 0
        &&& self.expected_positions@.len() == self.vertex_count
        &&& self.expected_triangles@.len() == self.triangle_count
        &&& self.sample_count <= self.sample_indices@.len()
        &&& forall|i: int|
            0 <= i < self.sample_indices@.len() ==> #[trigger] self.sample_indices@[i]
                < self.vertex_count
    }
}

/// Why a mesh is refused, if it is.
pub open spec fn skinning_refusal(vertex_count: int, triangle_count: int) -> Option<Seq<char>> {
    if vertex_count == 0 {
        Some("full f32 skinning mesh probe requires vertices"@)
    } else if triangle_count == 0 {
        Some("full f32 skinning mesh probe requires triangles"@)
    } else if vertex_count > u32::MAX || triangle_count > u32::MAX {
        Some("full f32 skinning mesh probe exceeds u32 count range"@)
    } else {
        None
    }
}

/// The smallest of three counts.
pub open spec fn least_of(a: usize, b: int, c: int) -> int {
    if a <= b && a <= c {
        a as int
    } else if b <= c {
        b
    } else {
        c
    }
}

/// Plans a mesh probe. The expected positions, one per vertex, and the expected
/// triangles stand for the mesh; `vertex_bytes` and `triangle_bytes` are its sizes.
pub fn submit_xr_f32_skinning_mesh_probe_async(
    expected_positions: Vec<[u32; 4]>,
    expected_triangles: Vec<[u32; 4]>,
    vertex_bytes: u64,
    triangle_bytes: u64,
    sample_vertex_indices: &[u32],
    sample_count: usize,
    tolerance: u32,
) -> (result: Result<SkinningProbe, String>)
    ensures
        match skinning_refusal(
            expected_positions@.len() as int,
            expected_triangles@.len() as int,
        ) {
            Some(text) => result matches Err(message) && message@ == text,
            None => {
                let vertices = expected_positions@.len();
                let triangles = expected_triangles@.len();
                &&& result matches Ok(probe)
                &&& probe.setup.wf()
                &&& probe.setup.done == 0
                &&& probe.setup.acquired@.len() == 0
                &&& probe.setup.steps@ == skinning_setup_steps(
                    vertex_bytes,
                    triangle_bytes,
                    (vertices * 16) as u64,
                    (triangles * 16) as u64,
                )
                &&& probe.commands.wf()
                &&& probe.commands.done == 0
                &&& probe.commands.progress == no_progress()
                &&& probe.commands.steps@ == skinning_command_steps(
                    vertex_bytes,
                    triangle_bytes,
                    (vertices * 16) as u64,
                    (triangles * 16) as u64,
                    workgroups_for(
                        if vertices >= triangles {
                            vertices as int
                        } else {
                            triangles as int
                        },
                    ) as u32,
                )
                &&& probe.params@ == seq![vertices as u32, triangles as u32, 0, 0]
                &&& probe.detail.wf()
                &&& probe.detail.vertex_count == vertices
                &&& probe.detail.triangle_count == triangles
                &&& probe.detail.sample_count == least_of(
                    sample_count,
                    sample_vertex_indices@.len() as int,
                    vertices as int,
                )
                &&& probe.detail.sample_indices@ == sampled_indices(
                    sample_vertex_indices@,
                    probe.detail.sample_count as int,
                    vertices as int,
                )
                &&& probe.detail.expected_positions == expected_positions
                &&& probe.detail.expected_triangles == expected_triangles
                &&& probe.detail.tolerance == usable_tolerance(tolerance)
            },
        },
{
    if expected_positions.len() == 0 {
        return Err("full f32 skinning mesh probe requires vertices".to_owned());
    }
    if expected_triangles.len() == 0 {
        return Err("full f32 skinning mesh probe requires triangles".to_owned());
    }
    let vertex_count: usize = expected_positions.len();
    let triangle_count: usize = expected_triangles.len();
    if vertex_count as u64 > u32::MAX as u64 || triangle_count as u64 > u32::MAX as u64 {
        return Err("full f32 skinning mesh probe exceeds u32 count range".to_owned());
    }
    let mut used: usize = sample_count;
    if sample_vertex_indices.len() < used {
        used = sample_vertex_indices.len();
    }
    if vertex_count < used {
        used = vertex_count;
    }
    let sample_indices: Vec<u32> = select_sample_indices(sample_vertex_indices, used, vertex_count);
    let position_bytes: u64 = vertex_count as u64 * 16;
    let observation_bytes: u64 = triangle_count as u64 * 16;
    let dispatch: u32 = if vertex_count >= triangle_count {
        vertex_count as u32
    } else {
        triangle_count as u32
    };
    let groups: u32 = workgroups(dispatch);
    let setup: Vec<Step> = skinning_setup(
        vertex_bytes,
        triangle_bytes,
        position_bytes,
        observation_bytes,
    );
    let commands: Vec<Step> = skinning_commands(
        vertex_bytes,
        triangle_bytes,
        position_bytes,
        observation_bytes,
        groups,
    );
    let params: [u32; 4] = [vertex_count as u32, triangle_count as u32, 0, 0];
    assert(params@ =~= seq![vertex_count as u32, triangle_count as u32, 0u32, 0u32]);
    Ok(
        SkinningProbe {
            setup: Setup::new(setup),
            commands: CommandRun::new(commands),
            params,
            detail: SkinningDetail {
                vertex_count,
                triangle_count,
                sample_count: used,
                sample_indices,
                expected_positions,
                expected_triangles,
                tolerance: sanitize_tolerance(tolerance),
            },
        },
    )
}

/// What a mesh probe reports, numbers by their bits.
pub struct XrGpuF32SkinningMeshProbeResult {
    pub vertex_count: usize,
    pub triangle_count: usize,
    pub index_count: usize,
    pub sample_count: usize,
    pub sample_vertex_indices: Vec<u32>,
    pub output_sample_positions: Vec<[u32; 4]>,
    pub expected_sample_positions: Vec<[u32; 4]>,
    pub checked_position_components: usize,
    pub mismatched_position_components: usize,
    pub mismatched_triangle_indices: usize,
    pub max_abs_error: u32,
    pub tolerance: u32,
    pub queue_submit_serial: u64,
    pub fence_serial: u64,
    pub resource_generation: u64,
    pub pending_retire_count: usize,
    pub retained_resource_count: usize,
    pub retired_after_fence_count: usize,
    pub queue_wait_idle_performed: bool,
}

/// How many indices of the observed triangles differ from the expected ones.
pub open spec fn triangle_mismatches(observed: Seq<[u32; 4]>, expected: Seq<[u32; 4]>) -> nat
    decreases observed.len(),
{
    if observed.len() == 0 {
        0
    } else {
        triangle_mismatches(observed.drop_last(), expected) + word_mismatches(
            observed.last()@,
            expected[observed.len() - 1]@,
        )
    }
}

fn count_triangle_mismatches(observed: &Vec<[u32; 4]>, expected: &Vec<[u32; 4]>) -> (count: usize)
    requires
        observed@.len() <= expected@.len(),
        observed@.len() * 4 <= usize::MAX,
    ensures
        count == triangle_mismatches(observed@, expected@),
{
    let mut count: usize = 0;
    let mut i: usize = 0;
    while i < observed.len()
        invariant
            i <= observed@.len() <= expected@.len(),
            observed@.len() * 4 <= usize::MAX,
            count <= i * 4,
            count == triangle_mismatches(observed@.take(i as int), expected@),
        decreases observed@.len() - i,
    {
        proof {
            assert(observed@.take(i + 1).drop_last() =~= observed@.take(i as int));
            assert(observed@.take(i + 1).last() == observed@[i as int]);
        }
        let row: usize = count_word_mismatches(&observed[i], &expected[i]);
        count = count + row;
        i = i + 1;
    }
    assert(observed@.take(i as int) =~= observed@);
    count
}

/// The rows at the sampled indices; rows that are not sampled are zero.
pub open spec fn sampled_rows(rows: Seq<[u32; 4]>, indices: Seq<u32>, count: int) -> Seq<Seq<u32>> {
    Seq::new(
        indices.len(),
        |i: int|
            if i < count {
                rows[indices[i] as int]@
            } else {
                seq![0u32, 0u32, 0u32, 0u32]
            },
    )
}

/// The contents of rows.
pub open spec fn row_contents(rows: Seq<[u32; 4]>) -> Seq<Seq<u32>> {
    rows.map_values(|row: [u32; 4]| row@)
}

fn select_rows(rows: &Vec<[u32; 4]>, indices: &Vec<u32>, count: usize) -> (selected: Vec<[u32; 4]>)
    requires
        forall|i: int| 0 <= i < indices@.len() ==> #[trigger] indices@[i] < rows@.len(),
    ensures
        row_contents(selected@) == sampled_rows(rows@, indices@, count as int),
{
    let mut selected: Vec<[u32; 4]> = Vec::new();
    let mut i: usize = 0;
    while i < indices.len()
        invariant
            i <= indices@.len(),
            forall|j: int| 0 <= j < indices@.len() ==> #[trigger] indices@[j] < rows@.len(),
            row_contents(selected@) == sampled_rows(rows@, indices@, count as int).take(i as int),
        decreases indices@.len() - i,
    {
        let zero: [u32; 4] = [0, 0, 0, 0];
        assert(zero@ =~= seq![0u32, 0u32, 0u32, 0u32]);
        let row: [u32; 4] = if i < count { rows[indices[i] as usize] } else { zero };
        let ghost wanted = sampled_rows(rows@, indices@, count as int);
        let ghost before = selected@;
        selected.push(row);
        proof {
            assert(row@ == wanted[i as int]);
            assert(row_contents(selected@) =~= row_contents(before).push(row@));
            assert(wanted.take(i + 1) =~= wanted.take(i as int).push(wanted[i as int]));
        }
        i = i + 1;
    }
    assert(sampled_rows(rows@, indices@, count as int).take(i as int) =~= sampled_rows(
        rows@,
        indices@,
        count as int,
    ));
    selected
}

/// Completes a mesh probe. `output_positions` and `observed` are what the device
/// wrote; `differences` are the absolute differences of the three components of
/// each position from what was expected.
pub fn complete_xr_f32_skinning_mesh_probe(
    pending: &mut PendingProbes<SkinningDetail>,
    index: usize,
    queue_wait_idle_performed: bool,
    output_positions: &Vec<[u32; 4]>,
    differences: &[u32],
    observed: &Vec<[u32; 4]>,
) -> (result: Result<XrGpuF32SkinningMeshProbeResult, String>)
    requires
        index < old(pending).probes@.len() ==> {
            let detail = old(pending).probes@[index as int].detail;
            &&& detail.wf()
            &&& output_positions@.len() == detail.vertex_count
            &&& observed@.len() == detail.triangle_count
            &&& differences@.len() == detail.vertex_count * 3
            &&& detail.vertex_count * 3 <= usize::MAX
            &&& detail.triangle_count * 4 <= usize::MAX
        },
    ensures
        if index >= old(pending).probes@.len() {
            &&& final(pending).probes@ == old(pending).probes@
            &&& result matches Err(message)
            &&& message@ == SUBJECT@ + " resource index is stale"@
        } else if old(pending).probes@[index as int].completed {
            &&& final(pending).probes@ == old(pending).probes@
            &&& result matches Err(message)
            &&& message@ == request_text(
                SUBJECT@,
                old(pending).probes@[index as int].request_id,
                " was already completed"@,
            )
        } else {
            let probe = old(pending).probes@[index as int];
            let detail = probe.detail;
            &&& final(pending).probes@ == old(pending).probes@.update(
                index as int,
                (PendingProbe { completed: true, ..probe }),
            )
            &&& result matches Ok(report)
            &&& report.vertex_count == detail.vertex_count
            &&& report.triangle_count == detail.triangle_count
            &&& report.index_count == detail.triangle_count * 3
            &&& report.sample_count == detail.sample_count
            &&& report.sample_vertex_indices@ == detail.sample_indices@
            &&& row_contents(report.output_sample_positions@) == sampled_rows(
                output_positions@,
                detail.sample_indices@,
                detail.sample_count as int,
            )
            &&& row_contents(report.expected_sample_positions@) == sampled_rows(
                detail.expected_positions@,
                detail.sample_indices@,
                detail.sample_count as int,
            )
            &&& report.checked_position_components == detail.vertex_count * 3
            &&& report.mismatched_position_components == mismatch_count(
                differences@,
                detail.tolerance,
            )
            &&& report.mismatched_triangle_indices == triangle_mismatches(
                observed@,
                detail.expected_triangles@,
            )
            &&& report.max_abs_error == largest_difference(differences@)
            &&& report.tolerance == detail.tolerance
            &&& report.queue_submit_serial == probe.queue_submit_serial
            &&& report.fence_serial == probe.queue_submit_serial
            &&& report.resource_generation == probe.resource_generation
            &&& report.pending_retire_count == unfinished(final(pending).probes@)
            &&& report.retained_resource_count == old(pending).probes@.len()
            &&& report.retired_after_fence_count == 0
            &&& report.queue_wait_idle_performed == queue_wait_idle_performed
        },
{
    match pending.check_completable(index, SUBJECT) {
        Err(message) => Err(message),
        Ok(()) => {
            let retained_resource_count: usize = pending.probes.len();
            let pending_retire_count: usize = pending.complete(index);
            let probe = &pending.probes[index];
            let tally: DifferenceTally = tally_differences(differences, probe.detail.tolerance);
            let mismatched_triangle_indices: usize = count_triangle_mismatches(
                observed,
                &probe.detail.expected_triangles,
            );
            let output_sample_positions: Vec<[u32; 4]> = select_rows(
                output_positions,
                &probe.detail.sample_indices,
                probe.detail.sample_count,
            );
            let expected_sample_positions: Vec<[u32; 4]> = select_rows(
                &probe.detail.expected_positions,
                &probe.detail.sample_indices,
                probe.detail.sample_count,
            );
            let sample_vertex_indices: Vec<u32> = probe.detail.sample_indices.clone();
            assert(sample_vertex_indices@ =~= probe.detail.sample_indices@);
            Ok(
                XrGpuF32SkinningMeshProbeResult {
                    vertex_count: probe.detail.vertex_count,
                    triangle_count: probe.detail.triangle_count,
                    index_count: probe.detail.triangle_count * 3,
                    sample_count: probe.detail.sample_count,
                    sample_vertex_indices,
                    output_sample_positions,
                    expected_sample_positions,
                    checked_position_components: probe.detail.vertex_count * 3,
                    mismatched_position_components: tally.mismatched,
                    mismatched_triangle_indices,
                    max_abs_error: tally.max_abs_error,
                    tolerance: probe.detail.tolerance,
                    queue_submit_serial: probe.queue_submit_serial,
                    fence_serial: probe.queue_submit_serial,
                    resource_generation: probe.resource_generation,
                    pending_retire_count,
                    retained_resource_count,
                    retired_after_fence_count: 0,
                    queue_wait_idle_performed,
                },
            )
        },
    }
}

/// The positions that are reported for the used samples are those of the vertices that
/// were sampled, so a vertex has the same position wherever it stands among the samples;
/// the rest are zero.
pub proof fn law_sampled_vertices_are_reported(
    rows: Seq<[u32; 4]>,
    indices: Seq<u32>,
    count: int,
    k: int,
    others: Seq<u32>,
    other_count: int,
    j: int,
)
    requires
        0 <= k < indices.len(),
        0 <= j < others.len(),
    ensures
        sampled_rows(rows, indices, count).len() == indices.len(),
        k < count ==> sampled_rows(rows, indices, count)[k] == rows[indices[k] as int]@,
        k >= count ==> sampled_rows(rows, indices, count)[k] == seq![0u32, 0u32, 0u32, 0u32],
        k < count && j < other_count && indices[k] == others[j] ==> sampled_rows(
            rows,
            indices,
            count,
        )[k] == sampled_rows(rows, others, other_count)[j],
{
}

/// A used sample that is in range is taken as it was asked for; any other is the first
/// one.
pub proof fn law_samples_are_taken_as_asked(requested: Seq<u32>, count: int, limit: int, k: int)
    requires
        0 <= k < requested.len(),
    ensures
        sampled_indices(requested, count, limit).len() == requested.len(),
        k < count && requested[k] < limit ==> sampled_indices(requested, count, limit)[k]
            == requested[k],
        k >= count || requested[k] >= limit ==> sampled_indices(requested, count, limit)[k] == 0,
{
}

/// No more samples are used than are asked for, given and there, and not fewer than the
/// smallest of these.
pub proof fn law_least_is_one_of_the_three(a: usize, b: int, c: int)
    ensures
        least_of(a, b, c) <= a,
        least_of(a, b, c) <= b,
        least_of(a, b, c) <= c,
        least_of(a, b, c) == a || least_of(a, b, c) == b || least_of(a, b, c) == c,
{
}

/// Groups of sixty-four cover the items with the fewest groups, and there is one at least.
pub proof fn law_workgroups_are_the_fewest(count: int)
    requires
        count >= 0,
    ensures
        workgroups_for(count) >= 1,
        workgroups_for(count) * 64 >= count,
        count > 0 ==> (workgroups_for(count) - 1) * 64 < count,
{
}

/// The triangles match exactly where every word of each is the expected one.
pub proof fn law_matching_triangles_are_the_expected(
    observed: Seq<[u32; 4]>,
    expected: Seq<[u32; 4]>,
)
    requires
        observed.len() <= expected.len(),
    ensures
        triangle_mismatches(observed, expected) == 0 <==> forall|i: int|
            0 <= i < observed.len() ==> (#[trigger] observed[i])@ == expected[i]@,
        triangle_mismatches(observed, expected) <= 4 * observed.len(),
    decreases observed.len(),
{
    if observed.len() > 0 {
        let before = observed.drop_last();
        let n = observed.len() - 1;
        law_matching_triangles_are_the_expected(before, expected);
        law_word_mismatches_count_the_differing(observed.last()@, expected[n]@);
        assert(forall|i: int| 0 <= i < n ==> before[i] == observed[i]);
        assert(observed[n] == observed.last());
        if word_mismatches(observed.last()@, expected[n]@) == 0 {
            assert(observed[n]@ =~= expected[n]@);
        }
        if triangle_mismatches(before, expected) != 0 {
            let i = choose|i: int| 0 <= i < n && (#[trigger] before[i])@ != expected[i]@;
            assert(observed[i]@ != expected[i]@);
        }
    }
}

/// A mesh is skinned exactly where it has vertices and triangles, and both can be counted
/// in 32 bits.
pub proof fn law_mesh_is_skinned_where_it_can_be(vertices: int, triangles: int)
    requires
        vertices >= 0,
        triangles >= 0,
    ensures
        skinning_refusal(vertices, triangles) is None <==> 1 <= vertices <= 0xffff_ffff && 1
            <= triangles <= 0xffff_ffff,
{
}

/// Rows keep their places and their words.
pub proof fn law_rows_keep_their_words(rows: Seq<[u32; 4]>, i: int)
    requires
        0 <= i < rows.len(),
    ensures
        row_contents(rows).len() == rows.len(),
        row_contents(rows)[i] == rows[i]@,
{
}

/// Every step is taken for the probe.
pub proof fn law_skinning_steps_are_for_the_probe(
    vertex_bytes: u64,
    triangle_bytes: u64,
    position_bytes: u64,
    observation_bytes: u64,
    groups: u32,
    i: int,
)
    ensures
        ({
            let setup = skinning_setup_steps(
                vertex_bytes,
                triangle_bytes,
                position_bytes,
                observation_bytes,
            );
            let commands = skinning_command_steps(
                vertex_bytes,
                triangle_bytes,
                position_bytes,
                observation_bytes,
                groups,
            );
            &&& 0 <= i < setup.len() ==> setup[i].subject == SUBJECT
            &&& 0 <= i < commands.len() ==> commands[i].subject == SUBJECT
        }),
{
}

/// The shader sees the whole of each buffer, and each barrier covers all of its buffer.
pub proof fn law_skinning_buffers_are_used_whole(
    vertex_bytes: u64,
    triangle_bytes: u64,
    position_bytes: u64,
    observation_bytes: u64,
    groups: u32,
    i: int,
)
    ensures
        ({
            let setup = skinning_setup_steps(
                vertex_bytes,
                triangle_bytes,
                position_bytes,
                observation_bytes,
            );
            let commands = skinning_command_steps(
                vertex_bytes,
                triangle_bytes,
                position_bytes,
                observation_bytes,
                groups,
            );
            let whole = |slot: Slot|
                if slot is Vertices {
                    vertex_bytes
                } else if slot is Triangles {
                    triangle_bytes
                } else if slot is Positions {
                    position_bytes
                } else if slot is Observations {
                    observation_bytes
                } else {
                    16
                };
            &&& 0 <= i < setup.len() && setup[i].op is QueueStorageWrite ==> whole(
                setup[i].op->QueueStorageWrite_buffer,
            ) == setup[i].op->QueueStorageWrite_range
            &&& 0 <= i < setup.len() && setup[i].op is HostBuffer ==> whole(setup[i].slot)
                == setup[i].op->HostBuffer_size
            &&& 0 <= i < setup.len() && setup[i].op is HostBufferWithData ==> whole(setup[i].slot)
                == setup[i].op->HostBufferWithData_size
            &&& 0 <= i < commands.len() && commands[i].op is QueueBarrier ==> whole(
                commands[i].op->QueueBarrier_buffer,
            ) == commands[i].op->QueueBarrier_size
            &&& 0 <= i < commands.len() && commands[i].op is Dispatch ==> commands[i].op->groups
                == groups
        }),
{
}

} // verus!

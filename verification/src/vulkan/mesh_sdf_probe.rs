//! The probe that builds a distance field from a mesh on the device.

use vstd::prelude::*;

use crate::float_bits::{sanitize_tolerance, tally_differences, DifferenceTally};
#[allow(unused_imports)]
use crate::float_bits::{largest_difference, mismatch_count, usable_tolerance};
use crate::vulkan::field_force_probe::is_usable_grid;
#[allow(unused_imports)]
use crate::vulkan::field_force_probe::usable_grid;
use crate::vulkan::mesh_sdf_buffers::{
    create_owned_xr_f32_mesh_sdf_derived_buffers, create_owned_xr_f32_mesh_sdf_source_mesh_buffers,
    DerivedUse, SourceUse,
};
#[allow(unused_imports)]
use crate::vulkan::mesh_sdf_buffers::{derived_buffer_steps, source_buffer_steps};
use crate::vulkan::pending::PendingProbes;
#[allow(unused_imports)]
use crate::vulkan::pending::{request_text, unfinished, PendingProbe};
use crate::vulkan::probe_program::ProgramUse;
use crate::vulkan::script::{Access, BufferUse, CommandRun, DeviceOp, Setup, Slot, Stage, Step};
#[allow(unused_imports)]
use crate::vulkan::script::no_progress;
use crate::vulkan::skinning_probe::{select_sample_indices, workgroups};
#[allow(unused_imports)]
use crate::vulkan::skinning_probe::{least_of, sampled_indices, workgroups_for};

verus! {

/// What the probe is called in messages.
pub const SUBJECT: &'static str = "f32 mesh SDF probe";

/// The bits that stand for a distance that is not there.
pub const MISSING_DISTANCE: u32 = 0x7fc0_0000;

/// The steps that every probe makes, once its mesh and derived buffers are in their
/// slots.
pub open spec fn mesh_sdf_common_steps(
    vertex_bytes: u64,
    triangle_bytes: u64,
    position_bytes: u64,
    distance_bytes: u64,
) -> Seq<Step> {
    seq![
        Step {
            slot: Slot::Params,
            op: DeviceOp::HostBufferWithData { usage: BufferUse::Storage, size: 32 },
            subject: SUBJECT,
        },
        Step {
            slot: Slot::Grid,
            op: DeviceOp::HostBufferWithData { usage: BufferUse::Storage, size: 16 },
            subject: SUBJECT,
        },
        Step { slot: Slot::Pool, op: DeviceOp::StoragePool { descriptors: 6 }, subject: SUBJECT },
        Step {
            slot: Slot::Descriptors,
            op: DeviceOp::DescriptorSet { pool: Slot::Pool, layout: Slot::SetLayout },
            subject: SUBJECT,
        },
        Step {
            slot: Slot::Descriptors,
            op: DeviceOp::QueueStorageWrite {
                binding: 0,
                buffer: Slot::Vertices,
                range: vertex_bytes,
            },
            subject: SUBJECT,
        },
        Step {
            slot: Slot::Descriptors,
            op: DeviceOp::QueueStorageWrite {
                binding: 1,
                buffer: Slot::Triangles,
                range: triangle_bytes,
            },
            subject: SUBJECT,
        },
        Step {
            slot: Slot::Descriptors,
            op: DeviceOp::QueueStorageWrite {
                binding: 2,
                buffer: Slot::Positions,
                range: position_bytes,
            },
            subject: SUBJECT,
        },
        Step {
            slot: Slot::Descriptors,
            op: DeviceOp::QueueStorageWrite {
                binding: 3,
                buffer: Slot::Distances,
                range: distance_bytes,
            },
            subject: SUBJECT,
        },
        Step {
            slot: Slot::Descriptors,
            op: DeviceOp::QueueStorageWrite { binding: 4, buffer: Slot::Params, range: 32 },
            subject: SUBJECT,
        },
        Step {
            slot: Slot::Descriptors,
            op: DeviceOp::QueueStorageWrite { binding: 5, buffer: Slot::Grid, range: 16 },
            subject: SUBJECT,
        },
        Step { slot: Slot::Descriptors, op: DeviceOp::UpdateSets, subject: SUBJECT },
        Step { slot: Slot::Commands, op: DeviceOp::CommandBuffer, subject: SUBJECT },
        Step { slot: Slot::Fence, op: DeviceOp::Fence, subject: SUBJECT },
    ]
}

/// The setup of a probe. A probe with buffers of its own makes them first.
pub open spec fn mesh_sdf_setup_steps(
    owned: bool,
    vertex_bytes: u64,
    triangle_bytes: u64,
    position_bytes: u64,
    distance_bytes: u64,
) -> Seq<Step> {
    let common = mesh_sdf_common_steps(
        vertex_bytes,
        triangle_bytes,
        position_bytes,
        distance_bytes,
    );
    if owned {
        source_buffer_steps(vertex_bytes, triangle_bytes) + derived_buffer_steps(
            position_bytes,
            distance_bytes,
        ) + common
    } else {
        common
    }
}

/// The commands of a probe: skin the mesh, then build the field from it. Nothing is
/// waited for.
pub open spec fn mesh_sdf_command_steps(
    vertex_bytes: u64,
    triangle_bytes: u64,
    position_bytes: u64,
    distance_bytes: u64,
    skin_groups: u32,
    field_groups: u32,
) -> Seq<Step> {
    seq![
        Step { slot: Slot::Commands, op: DeviceOp::BeginCommands, subject: SUBJECT },
        Step {
            slot: Slot::Commands,
            op: DeviceOp::QueueBarrier {
                buffer: Slot::Vertices,
                size: vertex_bytes,
                before: Access::HostWrite,
                after: Access::ShaderRead,
            },
            subject: SUBJECT,
        },
        Step {
            slot: Slot::Commands,
            op: DeviceOp::QueueBarrier {
                buffer: Slot::Triangles,
                size: triangle_bytes,
                before: Access::HostWrite,
                after: Access::ShaderRead,
            },
            subject: SUBJECT,
        },
        Step {
            slot: Slot::Commands,
            op: DeviceOp::QueueBarrier {
                buffer: Slot::Params,
                size: 32,
                before: Access::HostWrite,
                after: Access::ShaderRead,
            },
            subject: SUBJECT,
        },
        Step {
            slot: Slot::Commands,
            op: DeviceOp::QueueBarrier {
                buffer: Slot::Grid,
                size: 16,
                before: Access::HostWrite,
                after: Access::ShaderRead,
            },
            subject: SUBJECT,
        },
        Step {
            slot: Slot::Commands,
            op: DeviceOp::Barrier { first: Stage::Host, second: Stage::Compute },
            subject: SUBJECT,
        },
        Step {
            slot: Slot::Commands,
            op: DeviceOp::BindPipeline { pipeline: Slot::Pipeline },
            subject: SUBJECT,
        },
        Step {
            slot: Slot::Commands,
            op: DeviceOp::BindSet { layout: Slot::PipelineLayout },
            subject: SUBJECT,
        },
        Step {
            slot: Slot::Commands,
            op: DeviceOp::Dispatch { groups: skin_groups },
            subject: SUBJECT,
        },
        Step {
            slot: Slot::Commands,
            op: DeviceOp::QueueBarrier {
                buffer: Slot::Positions,
                size: position_bytes,
                before: Access::ShaderWrite,
                after: Access::ShaderRead,
            },
            subject: SUBJECT,
        },
        Step {
            slot: Slot::Commands,
            op: DeviceOp::Barrier { first: Stage::Compute, second: Stage::Compute },
            subject: SUBJECT,
        },
        Step {
            slot: Slot::Commands,
            op: DeviceOp::BindPipeline { pipeline: Slot::BuildPipeline },
            subject: SUBJECT,
        },
        Step {
            slot: Slot::Commands,
            op: DeviceOp::Dispatch { groups: field_groups },
            subject: SUBJECT,
        },
        Step {
            slot: Slot::Commands,
            op: DeviceOp::QueueBarrier {
                buffer: Slot::Distances,
                size: distance_bytes,
                before: Access::ShaderWrite,
                after: Access::HostRead,
            },
            subject: SUBJECT,
        },
        Step {
            slot: Slot::Commands,
            op: DeviceOp::Barrier { first: Stage::Compute, second: Stage::Host },
            subject: SUBJECT,
        },
        Step { slot: Slot::Commands, op: DeviceOp::EndCommands, subject: SUBJECT },
        Step { slot: Slot::Queue, op: DeviceOp::Submit { counted: true }, subject: SUBJECT },
    ]
}

fn mesh_sdf_common(
    vertex_bytes: u64,
    triangle_bytes: u64,
    position_bytes: u64,
    distance_bytes: u64,
) -> (steps: Vec<Step>)
    ensures
        steps@ == mesh_sdf_common_steps(
            vertex_bytes,
            triangle_bytes,
            position_bytes,
            distance_bytes,
        ),
{
    vec![
        Step {
            slot: Slot::Params,
            op: DeviceOp::HostBufferWithData { usage: BufferUse::Storage, size: 32 },
            subject: SUBJECT,
        },
        Step {
            slot: Slot::Grid,
            op: DeviceOp::HostBufferWithData { usage: BufferUse::Storage, size: 16 },
            subject: SUBJECT,
        },
        Step { slot: Slot::Pool, op: DeviceOp::StoragePool { descriptors: 6 }, subject: SUBJECT },
        Step {
            slot: Slot::Descriptors,
            op: DeviceOp::DescriptorSet { pool: Slot::Pool, layout: Slot::SetLayout },
            subject: SUBJECT,
        },
        Step {
            slot: Slot::Descriptors,
            op: DeviceOp::QueueStorageWrite {
                binding: 0,
                buffer: Slot::Vertices,
                range: vertex_bytes,
            },
            subject: SUBJECT,
        },
        Step {
            slot: Slot::Descriptors,
            op: DeviceOp::QueueStorageWrite {
                binding: 1,
                buffer: Slot::Triangles,
                range: triangle_bytes,
            },
            subject: SUBJECT,
        },
        Step {
            slot: Slot::Descriptors,
            op: DeviceOp::QueueStorageWrite {
                binding: 2,
                buffer: Slot::Positions,
                range: position_bytes,
            },
            subject: SUBJECT,
        },
        Step {
            slot: Slot::Descriptors,
            op: DeviceOp::QueueStorageWrite {
                binding: 3,
                buffer: Slot::Distances,
                range: distance_bytes,
            },
            subject: SUBJECT,
        },
        Step {
            slot: Slot::Descriptors,
            op: DeviceOp::QueueStorageWrite { binding: 4, buffer: Slot::Params, range: 32 },
            subject: SUBJECT,
        },
        Step {
            slot: Slot::Descriptors,
            op: DeviceOp::QueueStorageWrite { binding: 5, buffer: Slot::Grid, range: 16 },
            subject: SUBJECT,
        },
        Step { slot: Slot::Descriptors, op: DeviceOp::UpdateSets, subject: SUBJECT },
        Step { slot: Slot::Commands, op: DeviceOp::CommandBuffer, subject: SUBJECT },
        Step { slot: Slot::Fence, op: DeviceOp::Fence, subject: SUBJECT },
    ]
}

fn mesh_sdf_commands(
    vertex_bytes: u64,
    triangle_bytes: u64,
    position_bytes: u64,
    distance_bytes: u64,
    skin_groups: u32,
    field_groups: u32,
) -> (steps: Vec<Step>)
    ensures
        steps@ == mesh_sdf_command_steps(
            vertex_bytes,
            triangle_bytes,
            position_bytes,
            distance_bytes,
            skin_groups,
            field_groups,
        ),
{
    vec![
        Step { slot: Slot::Commands, op: DeviceOp::BeginCommands, subject: SUBJECT },
        Step {
            slot: Slot::Commands,
            op: DeviceOp::QueueBarrier {
                buffer: Slot::Vertices,
                size: vertex_bytes,
                before: Access::HostWrite,
                after: Access::ShaderRead,
            },
            subject: SUBJECT,
        },
        Step {
            slot: Slot::Commands,
            op: DeviceOp::QueueBarrier {
                buffer: Slot::Triangles,
                size: triangle_bytes,
                before: Access::HostWrite,
                after: Access::ShaderRead,
            },
            subject: SUBJECT,
        },
        Step {
            slot: Slot::Commands,
            op: DeviceOp::QueueBarrier {
                buffer: Slot::Params,
                size: 32,
                before: Access::HostWrite,
                after: Access::ShaderRead,
            },
            subject: SUBJECT,
        },
        Step {
            slot: Slot::Commands,
            op: DeviceOp::QueueBarrier {
                buffer: Slot::Grid,
                size: 16,
                before: Access::HostWrite,
                after: Access::ShaderRead,
            },
            subject: SUBJECT,
        },
        Step {
            slot: Slot::Commands,
            op: DeviceOp::Barrier { first: Stage::Host, second: Stage::Compute },
            subject: SUBJECT,
        },
        Step {
            slot: Slot::Commands,
            op: DeviceOp::BindPipeline { pipeline: Slot::Pipeline },
            subject: SUBJECT,
        },
        Step {
            slot: Slot::Commands,
            op: DeviceOp::BindSet { layout: Slot::PipelineLayout },
            subject: SUBJECT,
        },
        Step {
            slot: Slot::Commands,
            op: DeviceOp::Dispatch { groups: skin_groups },
            subject: SUBJECT,
        },
        Step {
            slot: Slot::Commands,
            op: DeviceOp::QueueBarrier {
                buffer: Slot::Positions,
                size: position_bytes,
                before: Access::ShaderWrite,
                after: Access::ShaderRead,
            },
            subject: SUBJECT,
        },
        Step {
            slot: Slot::Commands,
            op: DeviceOp::Barrier { first: Stage::Compute, second: Stage::Compute },
            subject: SUBJECT,
        },
        Step {
            slot: Slot::Commands,
            op: DeviceOp::BindPipeline { pipeline: Slot::BuildPipeline },
            subject: SUBJECT,
        },
        Step {
            slot: Slot::Commands,
            op: DeviceOp::Dispatch { groups: field_groups },
            subject: SUBJECT,
        },
        Step {
            slot: Slot::Commands,
            op: DeviceOp::QueueBarrier {
                buffer: Slot::Distances,
                size: distance_bytes,
                before: Access::ShaderWrite,
                after: Access::HostRead,
            },
            subject: SUBJECT,
        },
        Step {
            slot: Slot::Commands,
            op: DeviceOp::Barrier { first: Stage::Compute, second: Stage::Host },
            subject: SUBJECT,
        },
        Step { slot: Slot::Commands, op: DeviceOp::EndCommands, subject: SUBJECT },
        Step { slot: Slot::Queue, op: DeviceOp::Submit { counted: true }, subject: SUBJECT },
    ]
}

/// The grid of a field: how many voxels it has each way, and its origin and voxel
/// size by their bits.
#[derive(Clone, Copy, PartialEq, Eq, Debug)]
pub struct XrGpuF32MeshSdfProbeGrid {
    pub dimensions: [u32; 3],
    pub origin_voxel_size: [u32; 4],
}

/// The voxels of a grid.
pub open spec fn grid_voxels(dimensions: Seq<u32>) -> int {
    dimensions[0] * dimensions[1] * dimensions[2]
}

/// Why a probe is refused, if it is.
pub open spec fn mesh_sdf_refusal(
    vertex_count: int,
    triangle_count: int,
    grid: XrGpuF32MeshSdfProbeGrid,
    sample_count: int,
    samples: int,
) -> Option<Seq<char>> {
    if vertex_count == 0 {
        Some("f32 mesh SDF probe requires vertices"@)
    } else if triangle_count == 0 {
        Some("f32 mesh SDF probe requires triangles"@)
    } else if vertex_count > u32::MAX || triangle_count > u32::MAX {
        Some("f32 mesh SDF probe exceeds u32 count range"@)
    } else if grid.dimensions@[0] == 0 || grid.dimensions@[1] == 0 || grid.dimensions@[2] == 0 {
        Some("f32 mesh SDF probe requires nonzero grid dimensions"@)
    } else if grid_voxels(grid.dimensions@) > usize::MAX {
        Some("f32 mesh SDF probe voxel count overflow"@)
    } else if grid_voxels(grid.dimensions@) > u32::MAX {
        Some("f32 mesh SDF probe voxel count exceeds u32 range"@)
    } else if !usable_grid(grid.origin_voxel_size@) {
        Some("f32 mesh SDF probe requires finite positive voxel size"@)
    } else if sample_count == 0 || samples == 0 {
        Some("f32 mesh SDF probe requires samples"@)
    } else {
        None
    }
}

/// A probe as planned, before its buffers are at hand.
pub struct MeshSdfPlan {
    pub vertex_count: usize,
    pub triangle_count: usize,
    pub voxel_count: usize,
    pub sample_count: usize,
    pub sample_indices: Vec<u32>,
    pub tolerance: u32,
    pub params: [u32; 8],
    pub position_bytes: u64,
    pub distance_bytes: u64,
}

fn count_voxels(dimensions: &[u32; 3]) -> (voxels: Option<usize>)
    requires
        dimensions@[0] > 0,
        dimensions@[1] > 0,
        dimensions@[2] > 0,
    ensures
        match voxels {
            Some(count) => count == grid_voxels(dimensions@),
            None => grid_voxels(dimensions@) > usize::MAX,
        },
{
    let width: usize = dimensions[0] as usize;
    let height: usize = dimensions[1] as usize;
    let depth: usize = dimensions[2] as usize;
    match width.checked_mul(height) {
        Some(plane) => plane.checked_mul(depth),
        None => {
            assert(width * height * depth >= width * height) by (nonlinear_arith)
                requires
                    depth >= 1,
                    width >= 0,
                    height >= 0,
            ;
            None
        },
    }
}

/// Plans a probe.
pub fn submit_xr_f32_mesh_sdf_probe_async(
    vertex_count: usize,
    triangle_count: usize,
    grid: XrGpuF32MeshSdfProbeGrid,
    sample_linear_indices: &[u32],
    sample_count: usize,
    tolerance: u32,
) -> (result: Result<MeshSdfPlan, String>)
    ensures
        match mesh_sdf_refusal(
            vertex_count as int,
            triangle_count as int,
            grid,
            sample_count as int,
            sample_linear_indices@.len() as int,
        ) {
            Some(text) => result matches Err(message) && message@ == text,
            None => {
                &&& result matches Ok(plan)
                &&& plan.vertex_count == vertex_count
                &&& plan.triangle_count == triangle_count
                &&& plan.voxel_count == grid_voxels(grid.dimensions@)
                &&& plan.sample_count == least_of(
                    sample_count,
                    sample_linear_indices@.len() as int,
                    plan.voxel_count as int,
                )
                &&& plan.sample_indices@ == sampled_indices(
                    sample_linear_indices@,
                    plan.sample_count as int,
                    plan.voxel_count as int,
                )
                &&& plan.tolerance == usable_tolerance(tolerance)
                &&& plan.params@ == seq![
                    vertex_count as u32,
                    triangle_count as u32,
                    plan.voxel_count as u32,
                    grid.dimensions@[0],
                    grid.dimensions@[1],
                    grid.dimensions@[2],
                    0,
                    0,
                ]
                &&& plan.position_bytes == 16 * vertex_count
                &&& plan.distance_bytes == 4 * plan.voxel_count
            },
        },
{
    if vertex_count == 0 {
        return Err("f32 mesh SDF probe requires vertices".to_owned());
    }
    if triangle_count == 0 {
        return Err("f32 mesh SDF probe requires triangles".to_owned());
    }
    if vertex_count as u64 > u32::MAX as u64 || triangle_count as u64 > u32::MAX as u64 {
        return Err("f32 mesh SDF probe exceeds u32 count range".to_owned());
    }
    if grid.dimensions[0] == 0 || grid.dimensions[1] == 0 || grid.dimensions[2] == 0 {
        return Err("f32 mesh SDF probe requires nonzero grid dimensions".to_owned());
    }
    let voxel_count: usize = match count_voxels(&grid.dimensions) {
        Some(count) => count,
        None => {
            return Err("f32 mesh SDF probe voxel count overflow".to_owned());
        },
    };
    proof {
        let d = grid.dimensions@;
        assert(d[0] * d[1] * d[2] >= 1) by (nonlinear_arith)
            requires
                d[0] >= 1,
                d[1] >= 1,
                d[2] >= 1,
        ;
    }
    if voxel_count == 0 || voxel_count as u64 > u32::MAX as u64 {
        return Err("f32 mesh SDF probe voxel count exceeds u32 range".to_owned());
    }
    if !is_usable_grid(&grid.origin_voxel_size) {
        return Err("f32 mesh SDF probe requires finite positive voxel size".to_owned());
    }
    let mut used: usize = sample_count;
    if sample_linear_indices.len() < used {
        used = sample_linear_indices.len();
    }
    if voxel_count < used {
        used = voxel_count;
    }
    if used == 0 {
        return Err("f32 mesh SDF probe requires samples".to_owned());
    }
    let sample_indices: Vec<u32> = select_sample_indices(sample_linear_indices, used, voxel_count);
    let params: [u32; 8] = [
        vertex_count as u32,
        triangle_count as u32,
        voxel_count as u32,
        grid.dimensions[0],
        grid.dimensions[1],
        grid.dimensions[2],
        0,
        0,
    ];
    assert(params@ =~= seq![
        vertex_count as u32,
        triangle_count as u32,
        voxel_count as u32,
        grid.dimensions@[0],
        grid.dimensions@[1],
        grid.dimensions@[2],
        0,
        0,
    ]);
    Ok(
        MeshSdfPlan {
            vertex_count,
            triangle_count,
            voxel_count,
            sample_count: used,
            sample_indices,
            tolerance: sanitize_tolerance(tolerance),
            params,
            position_bytes: vertex_count as u64 * 16,
            distance_bytes: voxel_count as u64 * 4,
        },
    )
}

/// The setup and the commands of a planned probe. `owned` says that the probe makes
/// buffers of its own.
pub fn mesh_sdf_scripts(plan: &MeshSdfPlan, owned: bool, vertex_bytes: u64, triangle_bytes: u64) -> (
    scripts: (Setup, CommandRun))
    requires
        plan.vertex_count <= u32::MAX,
        plan.voxel_count <= u32::MAX,
    ensures
        scripts.0.wf(),
        scripts.0.done == 0,
        scripts.0.acquired@.len() == 0,
        scripts.0.steps@ == mesh_sdf_setup_steps(
            owned,
            vertex_bytes,
            triangle_bytes,
            plan.position_bytes,
            plan.distance_bytes,
        ),
        scripts.1.wf(),
        scripts.1.done == 0,
        scripts.1.progress == no_progress(),
        scripts.1.steps@ == mesh_sdf_command_steps(
            vertex_bytes,
            triangle_bytes,
            plan.position_bytes,
            plan.distance_bytes,
            workgroups_for(plan.vertex_count as int) as u32,
            workgroups_for(plan.voxel_count as int) as u32,
        ),
{
    let mut common: Vec<Step> = mesh_sdf_common(
        vertex_bytes,
        triangle_bytes,
        plan.position_bytes,
        plan.distance_bytes,
    );
    let setup: Vec<Step> = if owned {
        let mut steps: Vec<Step> = create_owned_xr_f32_mesh_sdf_source_mesh_buffers(
            vertex_bytes,
            triangle_bytes,
        );
        let mut derived: Vec<Step> = create_owned_xr_f32_mesh_sdf_derived_buffers(
            plan.position_bytes,
            plan.distance_bytes,
        );
        steps.append(&mut derived);
        steps.append(&mut common);
        steps
    } else {
        common
    };
    let commands: Vec<Step> = mesh_sdf_commands(
        vertex_bytes,
        triangle_bytes,
        plan.position_bytes,
        plan.distance_bytes,
        workgroups(plan.vertex_count as u32),
        workgroups(plan.voxel_count as u32),
    );
    (Setup::new(setup), CommandRun::new(commands))
}

/// What a submitted probe keeps for its completion. Distances are given by their
/// bits.
pub struct MeshSdfDetail {
    pub vertex_count: usize,
    pub triangle_count: usize,
    pub voxel_count: usize,
    pub sample_count: usize,
    pub sample_indices: Vec<u32>,
    pub expected_distances: Vec<u32>,
    pub tolerance: u32,
    pub program: ProgramUse,
    pub source: SourceUse,
    pub derived: DerivedUse,
}

impl MeshSdfDetail {
    /// Every sample has an expectation.
    pub open spec fn wf(&self) -> bool {
        &&& self.sample_count <= self.sample_indices@.len()
        &&& self.sample_indices@.len() == self.expected_distances@.len()
    }
}

/// The distances at the sampled voxels. One that is not there is no number, and
/// what is not sampled is zero.
pub open spec fn sampled_distances(dense: Seq<u32>, indices: Seq<u32>, count: int) -> Seq<u32> {
    Seq::new(
        indices.len(),
        |i: int|
            if i >= count {
                0
            } else if indices[i] < dense.len() {
                dense[indices[i] as int]
            } else {
                MISSING_DISTANCE
            },
    )
}

/// Selects the distances at the sampled voxels.
pub fn select_distances(dense: &[u32], indices: &[u32], count: usize) -> (selected: Vec<u32>)
    ensures
        selected@ == sampled_distances(dense@, indices@, count as int),
{
    let mut selected: Vec<u32> = Vec::new();
    let mut i: usize = 0;
    while i < indices.len()
        invariant
            i <= indices@.len(),
            selected@ == sampled_distances(dense@, indices@, count as int).take(i as int),
        decreases indices@.len() - i,
    {
        if i >= count {
            selected.push(0);
        } else if (indices[i] as u64) < (dense.len() as u64) {
            selected.push(dense[indices[i] as usize]);
        } else {
            selected.push(MISSING_DISTANCE);
        }
        i = i + 1;
        assert(selected@ =~= sampled_distances(dense@, indices@, count as int).take(i as int));
    }
    assert(selected@ =~= sampled_distances(dense@, indices@, count as int));
    selected
}

/// The expectations of the used samples; the rest are zero.
pub open spec fn used_expectations(expected: Seq<u32>, count: int) -> Seq<u32> {
    Seq::new(
        expected.len(),
        |i: int|
            if i < count {
                expected[i]
            } else {
                0
            },
    )
}

fn select_expectations(expected: &[u32], count: usize) -> (selected: Vec<u32>)
    ensures
        selected@ == used_expectations(expected@, count as int),
{
    let mut selected: Vec<u32> = Vec::new();
    let mut i: usize = 0;
    while i < expected.len()
        invariant
            i <= expected@.len(),
            selected@ == used_expectations(expected@, count as int).take(i as int),
        decreases expected@.len() - i,
    {
        if i < count {
            selected.push(expected[i]);
        } else {
            selected.push(0);
        }
        i = i + 1;
        assert(selected@ =~= used_expectations(expected@, count as int).take(i as int));
    }
    assert(selected@ =~= used_expectations(expected@, count as int));
    selected
}

/// What a probe reports, numbers by their bits.
pub struct XrGpuF32MeshSdfProbeResult {
    pub vertex_count: usize,
    pub triangle_count: usize,
    pub index_count: usize,
    pub voxel_count: usize,
    pub sample_count: usize,
    pub checked_sample_count: usize,
    pub sample_linear_indices: Vec<u32>,
    pub output_distances: Vec<u32>,
    pub expected_distances: Vec<u32>,
    pub mismatched_samples: usize,
    pub max_abs_error: u32,
    pub tolerance: u32,
    pub queue_submit_serial: u64,
    pub fence_serial: u64,
    pub resource_generation: u64,
    pub program: ProgramUse,
    pub source: SourceUse,
    pub derived: DerivedUse,
    pub pending_retire_count: usize,
    pub retained_resource_count: usize,
    pub retired_after_fence_count: usize,
    pub queue_wait_idle_performed: bool,
}

/// Completes a probe. `dense` are the distances that the device wrote;
/// `differences` are the absolute differences of the used samples from what was
/// expected.
pub fn complete_xr_f32_mesh_sdf_probe(
    pending: &mut PendingProbes<MeshSdfDetail>,
    index: usize,
    queue_wait_idle_performed: bool,
    dense: &[u32],
    differences: &[u32],
) -> (result: Result<XrGpuF32MeshSdfProbeResult, String>)
    requires
        index < old(pending).probes@.len() ==> {
            let detail = old(pending).probes@[index as int].detail;
            &&& detail.wf()
            &&& differences@.len() == detail.sample_count
            &&& detail.triangle_count * 3 <= usize::MAX
        },
    ensures
        if index >= old(pending).probes@.len() {
            &&& final(pending).probes@ == old(pending).probes@
            &&& result matches Err(message)
            &&& message@ == SUBJECT@ + " resource index is stale"@
        } else if old(pending).probes@[index as int].completed {
            &&& final(pending).probes@ == old(pending).probes@
            &&& result matches Err(message)
            &&& message@ == request_text(
                SUBJECT@,
                old(pending).probes@[index as int].request_id,
                " was already completed"@,
            )
        } else {
            let probe = old(pending).probes@[index as int];
            let detail = probe.detail;
            &&& final(pending).probes@ == old(pending).probes@.update(
                index as int,
                (PendingProbe { completed: true, ..probe }),
            )
            &&& result matches Ok(report)
            &&& report.vertex_count == detail.vertex_count
            &&& report.triangle_count == detail.triangle_count
            &&& report.index_count == detail.triangle_count * 3
            &&& report.voxel_count == detail.voxel_count
            &&& report.sample_count == detail.sample_count
            &&& report.checked_sample_count == detail.sample_count
            &&& report.sample_linear_indices@ == detail.sample_indices@
            &&& report.output_distances@ == sampled_distances(
                dense@,
                detail.sample_indices@,
                detail.sample_count as int,
            )
            &&& report.expected_distances@ == used_expectations(
                detail.expected_distances@,
                detail.sample_count as int,
            )
            &&& report.mismatched_samples == mismatch_count(differences@, detail.tolerance)
            &&& report.max_abs_error == largest_difference(differences@)
            &&& report.tolerance == detail.tolerance
            &&& report.queue_submit_serial == probe.queue_submit_serial
            &&& report.fence_serial == probe.queue_submit_serial
            &&& report.resource_generation == probe.resource_generation
            &&& report.program == detail.program
            &&& report.source == detail.source
            &&& report.derived == detail.derived
            &&& report.pending_retire_count == unfinished(final(pending).probes@)
            &&& report.retained_resource_count == old(pending).probes@.len()
            &&& report.retired_after_fence_count == 0
            &&& report.queue_wait_idle_performed == queue_wait_idle_performed
        },
{
    match pending.check_completable(index, SUBJECT) {
        Err(message) => Err(message),
        Ok(()) => {
            let retained_resource_count: usize = pending.probes.len();
            let pending_retire_count: usize = pending.complete(index);
            let probe = &pending.probes[index];
            let tally: DifferenceTally = tally_differences(differences, probe.detail.tolerance);
            let output_distances: Vec<u32> = select_distances(
                dense,
                probe.detail.sample_indices.as_slice(),
                probe.detail.sample_count,
            );
            let expected_distances: Vec<u32> = select_expectations(
                probe.detail.expected_distances.as_slice(),
                probe.detail.sample_count,
            );
            let sample_linear_indices: Vec<u32> = probe.detail.sample_indices.clone();
            assert(sample_linear_indices@ =~= probe.detail.sample_indices@);
            Ok(
                XrGpuF32MeshSdfProbeResult {
                    vertex_count: probe.detail.vertex_count,
                    triangle_count: probe.detail.triangle_count,
                    index_count: probe.detail.triangle_count * 3,
                    voxel_count: probe.detail.voxel_count,
                    sample_count: probe.detail.sample_count,
                    checked_sample_count: probe.detail.sample_count,
                    sample_linear_indices,
                    output_distances,
                    expected_distances,
                    mismatched_samples: tally.mismatched,
                    max_abs_error: tally.max_abs_error,
                    tolerance: probe.detail.tolerance,
                    queue_submit_serial: probe.queue_submit_serial,
                    fence_serial: probe.queue_submit_serial,
                    resource_generation: probe.resource_generation,
                    program: probe.detail.program,
                    source: probe.detail.source,
                    derived: probe.detail.derived,
                    pending_retire_count,
                    retained_resource_count,
                    retired_after_fence_count: 0,
                    queue_wait_idle_performed,
                },
            )
        },
    }
}

/// The distance that is reported for a used sample is that of the voxel that was sampled:
/// a probe that samples the same voxel of the same field reports the same distance for
/// it, whatever its place among the samples. A sample beyond the field has no distance,
/// and one that is not used is reported as zero.
pub proof fn law_sampled_voxel_is_reported(
    dense: Seq<u32>,
    indices: Seq<u32>,
    count: int,
    k: int,
    others: Seq<u32>,
    other_count: int,
    j: int,
)
    requires
        0 <= k < indices.len(),
        0 <= j < others.len(),
    ensures
        sampled_distances(dense, indices, count).len() == indices.len(),
        k < count && indices[k] < dense.len() ==> sampled_distances(dense, indices, count)[k]
            == dense[indices[k] as int],
        k < count && indices[k] >= dense.len() ==> sampled_distances(dense, indices, count)[k]
            == 0x7fc0_0000,
        k >= count ==> sampled_distances(dense, indices, count)[k] == 0,
        k < count && j < other_count && indices[k] == others[j] ==> sampled_distances(
            dense,
            indices,
            count,
        )[k] == sampled_distances(dense, others, other_count)[j],
{
}

/// A report keeps what was expected of every used sample, and nothing of the others.
pub proof fn law_expectations_are_kept(expected: Seq<u32>, count: int, k: int)
    requires
        0 <= k < expected.len(),
    ensures
        used_expectations(expected, count).len() == expected.len(),
        k < count ==> used_expectations(expected, count)[k] == expected[k],
        k >= count ==> used_expectations(expected, count)[k] == 0,
{
}

/// A grid has a voxel for each place in it and no more: the places, counted row by row
/// and layer by layer, are the numbers below its count, each once.
pub proof fn law_grid_counts_its_voxels(dimensions: Seq<u32>, x: int, y: int, z: int, index: int)
    requires
        dimensions.len() == 3,
        0 <= x < dimensions[0],
        0 <= y < dimensions[1],
        0 <= z < dimensions[2],
        0 <= index < grid_voxels(dimensions),
    ensures
        0 <= (z * dimensions[1] + y) * dimensions[0] + x < grid_voxels(dimensions),
        exists|a: int, b: int, c: int|
            0 <= a < dimensions[0] && 0 <= b < dimensions[1] && 0 <= c < dimensions[2] && index
                == #[trigger] voxel_place(dimensions, a, b, c),
{
    let width = dimensions[0] as int;
    let height = dimensions[1] as int;
    let depth = dimensions[2] as int;
    let row = z * height + y;
    assert(0 <= row < depth * height) by (nonlinear_arith)
        requires
            row == z * height + y,
            0 <= y < height,
            0 <= z < depth,
    ;
    assert(0 <= row * width + x < (depth * height) * width) by (nonlinear_arith)
        requires
            0 <= row < depth * height,
            0 <= x < width,
    ;
    assert((depth * height) * width == (width * height) * depth) by (nonlinear_arith);
    let a = index % width;
    let r = index / width;
    let b = r % height;
    let c = r / height;
    vstd::arithmetic::div_mod::lemma_fundamental_div_mod(index, width);
    vstd::arithmetic::div_mod::lemma_fundamental_div_mod(r, height);
    vstd::arithmetic::div_mod::lemma_mod_bound(index, width);
    vstd::arithmetic::div_mod::lemma_mod_bound(r, height);
    vstd::arithmetic::div_mod::lemma_div_pos_is_pos(index, width);
    vstd::arithmetic::div_mod::lemma_div_pos_is_pos(r, height);
    assert(r < height * depth) by (nonlinear_arith)
        requires
            index == width * r + a,
            0 <= a,
            width > 0,
            index < (width * height) * depth,
    ;
    assert(c < depth) by (nonlinear_arith)
        requires
            r == height * c + b,
            0 <= b,
            height > 0,
            r < height * depth,
    ;
    assert(height * c == c * height) by (nonlinear_arith);
    assert(width * r == r * width) by (nonlinear_arith);
    assert(voxel_place(dimensions, a, b, c) == index);
}

/// The number of a voxel: rows follow one another, and so do layers.
pub open spec fn voxel_place(dimensions: Seq<u32>, x: int, y: int, z: int) -> int {
    (z * dimensions[1] + y) * dimensions[0] + x
}

/// A probe runs exactly where the mesh has vertices and triangles that can be counted,
/// the grid has voxels that can be counted and a size for them, and a sample is asked
/// for and given.
pub proof fn law_mesh_sdf_probe_runs_where_it_can(
    vertex_count: int,
    triangle_count: int,
    grid: XrGpuF32MeshSdfProbeGrid,
    sample_count: int,
    samples: int,
)
    requires
        vertex_count >= 0 && triangle_count >= 0 && sample_count >= 0 && samples >= 0,
    ensures
        mesh_sdf_refusal(vertex_count, triangle_count, grid, sample_count, samples) is None <==> {
            &&& 1 <= vertex_count <= 0xffff_ffff
            &&& 1 <= triangle_count <= 0xffff_ffff
            &&& 1 <= grid_voxels(grid.dimensions@) <= 0xffff_ffff
            &&& usable_grid(grid.origin_voxel_size@)
            &&& sample_count >= 1
            &&& samples >= 1
        },
{
    let a = grid.dimensions@[0] as int;
    let b = grid.dimensions@[1] as int;
    let c = grid.dimensions@[2] as int;
    assert((a * b) * c >= 1 <==> (a != 0 && b != 0 && c != 0)) by (nonlinear_arith)
        requires
            a >= 0,
            b >= 0,
            c >= 0,
    ;
}

/// Every step is taken for the probe.
pub proof fn law_mesh_sdf_steps_are_for_the_probe(
    vertex_bytes: u64,
    triangle_bytes: u64,
    position_bytes: u64,
    distance_bytes: u64,
    skin_groups: u32,
    field_groups: u32,
    i: int,
)
    ensures
        ({
            let common = mesh_sdf_common_steps(
                vertex_bytes,
                triangle_bytes,
                position_bytes,
                distance_bytes,
            );
            let commands = mesh_sdf_command_steps(
                vertex_bytes,
                triangle_bytes,
                position_bytes,
                distance_bytes,
                skin_groups,
                field_groups,
            );
            &&& 0 <= i < common.len() ==> common[i].subject == SUBJECT
            &&& 0 <= i < commands.len() ==> commands[i].subject == SUBJECT
        }),
{
}

/// The shaders see the whole of each buffer, and each barrier covers all of its buffer.
pub proof fn law_mesh_sdf_buffers_are_used_whole(
    vertex_bytes: u64,
    triangle_bytes: u64,
    position_bytes: u64,
    distance_bytes: u64,
    skin_groups: u32,
    field_groups: u32,
    i: int,
)
    ensures
        ({
            let common = mesh_sdf_common_steps(
                vertex_bytes,
                triangle_bytes,
                position_bytes,
                distance_bytes,
            );
            let commands = mesh_sdf_command_steps(
                vertex_bytes,
                triangle_bytes,
                position_bytes,
                distance_bytes,
                skin_groups,
                field_groups,
            );
            let whole = |slot: Slot|
                if slot is Vertices {
                    vertex_bytes
                } else if slot is Triangles {
                    triangle_bytes
                } else if slot is Positions {
                    position_bytes
                } else if slot is Distances {
                    distance_bytes
                } else if slot is Params {
                    32
                } else {
                    16
                };
            &&& 0 <= i < common.len() && common[i].op is QueueStorageWrite ==> whole(
                common[i].op->QueueStorageWrite_buffer,
            ) == common[i].op->QueueStorageWrite_range
            &&& 0 <= i < common.len() && common[i].op is HostBufferWithData ==> whole(
                common[i].slot,
            ) == common[i].op->HostBufferWithData_size
            &&& 0 <= i < commands.len() && commands[i].op is QueueBarrier ==> whole(
                commands[i].op->QueueBarrier_buffer,
            ) == commands[i].op->QueueBarrier_size
        }),
{
}

} // verus!

//! The probe that samples a resident distance field for forces.

use vstd::prelude::*;

use crate::float_bits::{
    is_finite_f32, is_finite_positive_f32, sanitize_tolerance, tally_differences, DifferenceTally,
};
#[allow(unused_imports)]
use crate::float_bits::{
    f32_finite, f32_finite_positive, largest_difference, mismatch_count, usable_tolerance,
};
use crate::vulkan::compute_probe::{
    expected_xr_gpu_f32_force_probe_accelerations, ForceReadback, Readback,
    XrGpuF32ForceProbeSample,
};
#[allow(unused_imports)]
use crate::vulkan::compute_probe::{readback_failed_text, usable_samples};
use crate::vulkan::failure::subject_failed;
use crate::vulkan::probe_program::ProgramUse;
use crate::vulkan::retained::RetainedProbes;
use crate::vulkan::script::{
    Access, Acquired, BufferUse, CommandRun, DeviceOp, Progress, Setup, Slot, Stage, Step,
};
#[allow(unused_imports)]
use crate::vulkan::script::no_progress;

verus! {

/// How many samples the probe holds.
pub const XR_GPU_F32_FIELD_FORCE_SAMPLE_PROBE_SAMPLES: usize = 4;

/// What the probe is called in messages.
pub const SUBJECT: &'static str = "f32 field force sample probe";

/// A distance field that is resident on the device. Its origin and voxel size are
/// given by their bits; the counts are absent where they overflow.
#[derive(Clone, Copy, PartialEq, Eq, Debug)]
pub struct ResidentField {
    pub generation: u64,
    pub dimensions: [u32; 3],
    pub origin_voxel_size: [u32; 4],
    pub sdf_distance_byte_len: u64,
    pub logical_voxel_count: Option<usize>,
    pub logical_sdf_distance_byte_len: Option<u64>,
}

/// Every coordinate is finite and the voxel size is above zero.
pub open spec fn usable_grid(origin_voxel_size: Seq<u32>) -> bool {
    &&& f32_finite(origin_voxel_size[0])
    &&& f32_finite(origin_voxel_size[1])
    &&& f32_finite(origin_voxel_size[2])
    &&& f32_finite_positive(origin_voxel_size[3])
}

/// Whether a grid can be used.
pub fn is_usable_grid(origin_voxel_size: &[u32; 4]) -> (usable: bool)
    ensures
        usable == usable_grid(origin_voxel_size@),
{
    is_finite_f32(origin_voxel_size[0]) && is_finite_f32(origin_voxel_size[1]) && is_finite_f32(
        origin_voxel_size[2],
    ) && is_finite_positive_f32(origin_voxel_size[3])
}

/// Why sampling is refused, if it is.
pub open spec fn field_force_refusal(field: Option<ResidentField>, sample_count: usize) -> Option<
    Seq<char>,
> {
    match field {
        None => Some("f32 field force sample probe requires a resident mesh SDF field"@),
        Some(field) => if field.dimensions@[0] == 0 || field.dimensions@[1] == 0
            || field.dimensions@[2] == 0 {
            Some("f32 field force sample probe requires nonzero dimensions"@)
        } else if !usable_grid(field.origin_voxel_size@) {
            Some("f32 field force sample probe requires finite positive voxel size"@)
        } else if field.logical_voxel_count is None {
            Some("f32 field force sample probe voxel count overflow"@)
        } else if field.logical_sdf_distance_byte_len is None {
            Some("f32 field force sample probe field byte count overflow"@)
        } else if field.logical_voxel_count->0 == 0 || field.sdf_distance_byte_len
            < field.logical_sdf_distance_byte_len->0 || field.logical_voxel_count->0 > u32::MAX {
            Some("f32 field force sample probe grid shape does not fit resident field"@)
        } else if sample_count == 0 {
            Some("f32 field force sample probe requires samples"@)
        } else {
            None
        },
    }
}

/// The setup of the probe, with the program at hand and the field in its slot.
pub open spec fn field_force_setup_steps(field_bytes: u64) -> Seq<Step> {
    seq![
        Step {
            slot: Slot::Input,
            op: DeviceOp::HostBufferWithData { usage: BufferUse::Storage, size: 256 },
            subject: SUBJECT,
        },
        Step {
            slot: Slot::Output,
            op: DeviceOp::HostBuffer { usage: BufferUse::Storage, size: 64 },
            subject: SUBJECT,
        },
        Step {
            slot: Slot::Params,
            op: DeviceOp::HostBufferWithData { usage: BufferUse::Storage, size: 16 },
            subject: SUBJECT,
        },
        Step {
            slot: Slot::Grid,
            op: DeviceOp::HostBufferWithData { usage: BufferUse::Storage, size: 16 },
            subject: SUBJECT,
        },
        Step { slot: Slot::Pool, op: DeviceOp::StoragePool { descriptors: 5 }, subject: SUBJECT },
        Step {
            slot: Slot::Descriptors,
            op: DeviceOp::DescriptorSet { pool: Slot::Pool, layout: Slot::SetLayout },
            subject: SUBJECT,
        },
        Step {
            slot: Slot::Descriptors,
            op: DeviceOp::QueueStorageWrite {
                binding: 0,
                buffer: Slot::Distances,
                range: field_bytes,
            },
            subject: SUBJECT,
        },
        Step {
            slot: Slot::Descriptors,
            op: DeviceOp::QueueStorageWrite { binding: 1, buffer: Slot::Input, range: 256 },
            subject: SUBJECT,
        },
        Step {
            slot: Slot::Descriptors,
            op: DeviceOp::QueueStorageWrite { binding: 2, buffer: Slot::Output, range: 64 },
            subject: SUBJECT,
        },
        Step {
            slot: Slot::Descriptors,
            op: DeviceOp::QueueStorageWrite { binding: 3, buffer: Slot::Params, range: 16 },
            subject: SUBJECT,
        },
        Step {
            slot: Slot::Descriptors,
            op: DeviceOp::QueueStorageWrite { binding: 4, buffer: Slot::Grid, range: 16 },
            subject: SUBJECT,
        },
        Step { slot: Slot::Descriptors, op: DeviceOp::UpdateSets, subject: SUBJECT },
        Step { slot: Slot::Commands, op: DeviceOp::CommandBuffer, subject: SUBJECT },
        Step { slot: Slot::Fence, op: DeviceOp::Fence, subject: SUBJECT },
    ]
}

/// The commands of the probe.
pub open spec fn field_force_command_steps(field_bytes: u64) -> Seq<Step> {
    seq![
        Step { slot: Slot::Commands, op: DeviceOp::BeginCommands, subject: SUBJECT },
        Step {
            slot: Slot::Commands,
            op: DeviceOp::QueueBarrier {
                buffer: Slot::Distances,
                size: field_bytes,
                before: Access::HostRead,
                after: Access::ShaderRead,
            },
            subject: SUBJECT,
        },
        Step {
            slot: Slot::Commands,
            op: DeviceOp::QueueBarrier {
                buffer: Slot::Input,
                size: 256,
                before: Access::HostWrite,
                after: Access::ShaderRead,
            },
            subject: SUBJECT,
        },
        Step {
            slot: Slot::Commands,
            op: DeviceOp::QueueBarrier {
                buffer: Slot::Params,
                size: 16,
                before: Access::HostWrite,
                after: Access::ShaderRead,
            },
            subject: SUBJECT,
        },
        Step {
            slot: Slot::Commands,
            op: DeviceOp::QueueBarrier {
                buffer: Slot::Grid,
                size: 16,
                before: Access::HostWrite,
                after: Access::ShaderRead,
            },
            subject: SUBJECT,
        },
        Step {
            slot: Slot::Commands,
            op: DeviceOp::Barrier { first: Stage::Host, second: Stage::Compute },
            subject: SUBJECT,
        },
        Step {
            slot: Slot::Commands,
            op: DeviceOp::BindPipeline { pipeline: Slot::Pipeline },
            subject: SUBJECT,
        },
        Step {
            slot: Slot::Commands,
            op: DeviceOp::BindSet { layout: Slot::PipelineLayout },
            subject: SUBJECT,
        },
        Step { slot: Slot::Commands, op: DeviceOp::Dispatch { groups: 1 }, subject: SUBJECT },
        Step {
            slot: Slot::Commands,
            op: DeviceOp::QueueBarrier {
                buffer: Slot::Output,
                size: 64,
                before: Access::ShaderWrite,
                after: Access::HostRead,
            },
            subject: SUBJECT,
        },
        Step {
            slot: Slot::Commands,
            op: DeviceOp::Barrier { first: Stage::Compute, second: Stage::Host },
            subject: SUBJECT,
        },
        Step { slot: Slot::Commands, op: DeviceOp::EndCommands, subject: SUBJECT },
        Step { slot: Slot::Queue, op: DeviceOp::Submit { counted: true }, subject: SUBJECT },
        Step { slot: Slot::Fence, op: DeviceOp::WaitFence { completes: true }, subject: SUBJECT },
        Step { slot: Slot::Queue, op: DeviceOp::CollectRetired, subject: SUBJECT },
    ]
}

fn field_force_setup(field_bytes: u64) -> (steps: Vec<Step>)
    ensures
        steps@ == field_force_setup_steps(field_bytes),
{
    vec![
        Step {
            slot: Slot::Input,
            op: DeviceOp::HostBufferWithData { usage: BufferUse::Storage, size: 256 },
            subject: SUBJECT,
        },
        Step {
            slot: Slot::Output,
            op: DeviceOp::HostBuffer { usage: BufferUse::Storage, size: 64 },
            subject: SUBJECT,
        },
        Step {
            slot: Slot::Params,
            op: DeviceOp::HostBufferWithData { usage: BufferUse::Storage, size: 16 },
            subject: SUBJECT,
        },
        Step {
            slot: Slot::Grid,
            op: DeviceOp::HostBufferWithData { usage: BufferUse::Storage, size: 16 },
            subject: SUBJECT,
        },
        Step { slot: Slot::Pool, op: DeviceOp::StoragePool { descriptors: 5 }, subject: SUBJECT },
        Step {
            slot: Slot::Descriptors,
            op: DeviceOp::DescriptorSet { pool: Slot::Pool, layout: Slot::SetLayout },
            subject: SUBJECT,
        },
        Step {
            slot: Slot::Descriptors,
            op: DeviceOp::QueueStorageWrite {
                binding: 0,
                buffer: Slot::Distances,
                range: field_bytes,
            },
            subject: SUBJECT,
        },
        Step {
            slot: Slot::Descriptors,
            op: DeviceOp::QueueStorageWrite { binding: 1, buffer: Slot::Input, range: 256 },
            subject: SUBJECT,
        },
        Step {
            slot: Slot::Descriptors,
            op: DeviceOp::QueueStorageWrite { binding: 2, buffer: Slot::Output, range: 64 },
            subject: SUBJECT,
        },
        Step {
            slot: Slot::Descriptors,
            op: DeviceOp::QueueStorageWrite { binding: 3, buffer: Slot::Params, range: 16 },
            subject: SUBJECT,
        },
        Step {
            slot: Slot::Descriptors,
            op: DeviceOp::QueueStorageWrite { binding: 4, buffer: Slot::Grid, range: 16 },
            subject: SUBJECT,
        },
        Step { slot: Slot::Descriptors, op: DeviceOp::UpdateSets, subject: SUBJECT },
        Step { slot: Slot::Commands, op: DeviceOp::CommandBuffer, subject: SUBJECT },
        Step { slot: Slot::Fence, op: DeviceOp::Fence, subject: SUBJECT },
    ]
}

fn field_force_commands(field_bytes: u64) -> (steps: Vec<Step>)
    ensures
        steps@ == field_force_command_steps(field_bytes),
{
    vec![
        Step { slot: Slot::Commands, op: DeviceOp::BeginCommands, subject: SUBJECT },
        Step {
            slot: Slot::Commands,
            op: DeviceOp::QueueBarrier {
                buffer: Slot::Distances,
                size: field_bytes,
                before: Access::HostRead,
                after: Access::ShaderRead,
            },
            subject: SUBJECT,
        },
        Step {
            slot: Slot::Commands,
            op: DeviceOp::QueueBarrier {
                buffer: Slot::Input,
                size: 256,
                before: Access::HostWrite,
                after: Access::ShaderRead,
            },
            subject: SUBJECT,
        },
        Step {
            slot: Slot::Commands,
            op: DeviceOp::QueueBarrier {
                buffer: Slot::Params,
                size: 16,
                before: Access::HostWrite,
                after: Access::ShaderRead,
            },
            subject: SUBJECT,
        },
        Step {
            slot: Slot::Commands,
            op: DeviceOp::QueueBarrier {
                buffer: Slot::Grid,
                size: 16,
                before: Access::HostWrite,
                after: Access::ShaderRead,
            },
            subject: SUBJECT,
        },
        Step {
            slot: Slot::Commands,
            op: DeviceOp::Barrier { first: Stage::Host, second: Stage::Compute },
            subject: SUBJECT,
        },
        Step {
            slot: Slot::Commands,
            op: DeviceOp::BindPipeline { pipeline: Slot::Pipeline },
            subject: SUBJECT,
        },
        Step {
            slot: Slot::Commands,
            op: DeviceOp::BindSet { layout: Slot::PipelineLayout },
            subject: SUBJECT,
        },
        Step { slot: Slot::Commands, op: DeviceOp::Dispatch { groups: 1 }, subject: SUBJECT },
        Step {
            slot: Slot::Commands,
            op: DeviceOp::QueueBarrier {
                buffer: Slot::Output,
                size: 64,
                before: Access::ShaderWrite,
                after: Access::HostRead,
            },
            subject: SUBJECT,
        },
        Step {
            slot: Slot::Commands,
            op: DeviceOp::Barrier { first: Stage::Compute, second: Stage::Host },
            subject: SUBJECT,
        },
        Step { slot: Slot::Commands, op: DeviceOp::EndCommands, subject: SUBJECT },
        Step { slot: Slot::Queue, op: DeviceOp::Submit { counted: true }, subject: SUBJECT },
        Step { slot: Slot::Fence, op: DeviceOp::WaitFence { completes: true }, subject: SUBJECT },
        Step { slot: Slot::Queue, op: DeviceOp::CollectRetired, subject: SUBJECT },
    ]
}

/// A sampling probe as planned.
pub struct FieldForceProbe {
    pub setup: Setup,
    pub commands: CommandRun,
    pub params: [u32; 4],
    pub sample_count: usize,
    pub tolerance: u32,
    pub source_field_generation: u64,
    pub source_field_buffer_bytes: u64,
}

/// Plans a sampling probe.
pub fn submit_xr_f32_field_force_sample_probe(
    field: Option<ResidentField>,
    sample_count: usize,
    tolerance: u32,
) -> (result: Result<FieldForceProbe, String>)
    ensures
        match field_force_refusal(field, sample_count) {
            Some(text) => result matches Err(message) && message@ == text,
            None => {
                &&& result matches Ok(probe)
                &&& field matches Some(source)
                &&& probe.setup.wf()
                &&& probe.setup.steps@ == field_force_setup_steps(source.sdf_distance_byte_len)
                &&& probe.setup.done == 0
                &&& probe.setup.acquired@.len() == 0
                &&& probe.commands.wf()
                &&& probe.commands.steps@ == field_force_command_steps(
                    source.sdf_distance_byte_len,
                )
                &&& probe.commands.done == 0
                &&& probe.commands.progress == no_progress()
                &&& probe.sample_count == usable_samples(sample_count, 4)
                &&& probe.params@ == seq![
                    probe.sample_count as u32,
                    source.dimensions@[0],
                    source.dimensions@[1],
                    source.dimensions@[2],
                ]
                &&& probe.tolerance == usable_tolerance(tolerance)
                &&& probe.source_field_generation == source.generation
                &&& probe.source_field_buffer_bytes == source.sdf_distance_byte_len
            },
        },
{
    let source: ResidentField = match field {
        Some(source) => source,
        None => {
            return Err(
                "f32 field force sample probe requires a resident mesh SDF field".to_owned(),
            );
        },
    };
    if source.dimensions[0] == 0 || source.dimensions[1] == 0 || source.dimensions[2] == 0 {
        return Err("f32 field force sample probe requires nonzero dimensions".to_owned());
    }
    if !is_usable_grid(&source.origin_voxel_size) {
        return Err("f32 field force sample probe requires finite positive voxel size".to_owned());
    }
    let voxel_count: usize = match source.logical_voxel_count {
        Some(count) => count,
        None => {
            return Err("f32 field force sample probe voxel count overflow".to_owned());
        },
    };
    let logical_bytes: u64 = match source.logical_sdf_distance_byte_len {
        Some(bytes) => bytes,
        None => {
            return Err("f32 field force sample probe field byte count overflow".to_owned());
        },
    };
    if voxel_count == 0 || source.sdf_distance_byte_len < logical_bytes || voxel_count as u64
        > u32::MAX as u64 {
        return Err(
            "f32 field force sample probe grid shape does not fit resident field".to_owned(),
        );
    }
    if sample_count == 0 {
        return Err("f32 field force sample probe requires samples".to_owned());
    }
    let used: usize = if sample_count < XR_GPU_F32_FIELD_FORCE_SAMPLE_PROBE_SAMPLES {
        sample_count
    } else {
        XR_GPU_F32_FIELD_FORCE_SAMPLE_PROBE_SAMPLES
    };
    let params: [u32; 4] = [
        used as u32,
        source.dimensions[0],
        source.dimensions[1],
        source.dimensions[2],
    ];
    assert(params@ =~= seq![
        used as u32,
        source.dimensions@[0],
        source.dimensions@[1],
        source.dimensions@[2],
    ]);
    Ok(
        FieldForceProbe {
            setup: Setup::new(field_force_setup(source.sdf_distance_byte_len)),
            commands: CommandRun::new(field_force_commands(source.sdf_distance_byte_len)),
            params,
            sample_count: used,
            tolerance: sanitize_tolerance(tolerance),
            source_field_generation: source.generation,
            source_field_buffer_bytes: source.sdf_distance_byte_len,
        },
    )
}

/// What a sampling probe reports, numbers by their bits.
#[derive(Clone, Copy, PartialEq, Eq, Debug)]
pub struct XrGpuF32FieldForceSampleProbeResult {
    pub samples: [XrGpuF32ForceProbeSample; 4],
    pub output_accelerations: [[u32; 4]; 4],
    pub expected_accelerations: [[u32; 4]; 4],
    pub sample_count: usize,
    pub component_count: usize,
    pub mismatched_components: usize,
    pub max_abs_error: u32,
    pub tolerance: u32,
    pub queue_submit_serial: u64,
    pub fence_serial: u64,
    pub resource_generation: u64,
    pub program: ProgramUse,
    pub source_field_generation: u64,
    pub source_field_buffer_resident: bool,
    pub source_field_buffer_bytes: u64,
    pub sample_input_buffer_bytes: u64,
    pub sample_output_buffer_bytes: u64,
    pub pending_retire_count: usize,
    pub retained_resource_count: usize,
    pub retired_after_fence_count: usize,
    pub queue_wait_idle_performed: bool,
}

/// What the end of a sampling probe takes over from its plan.
#[derive(Clone, Copy, PartialEq, Eq, Structural, Debug)]
pub struct FieldForceRun {
    pub sample_count: usize,
    pub tolerance: u32,
    pub program: ProgramUse,
    pub source_field_generation: u64,
    pub source_field_buffer_bytes: u64,
}

impl FieldForceProbe {
    /// What the end of the probe takes over, with the program that the probe came by.
    pub fn run_with(&self, program: ProgramUse) -> (run: FieldForceRun)
        ensures
            run == (FieldForceRun {
                sample_count: self.sample_count,
                tolerance: self.tolerance,
                program,
                source_field_generation: self.source_field_generation,
                source_field_buffer_bytes: self.source_field_buffer_bytes,
            }),
    {
        FieldForceRun {
            sample_count: self.sample_count,
            tolerance: self.tolerance,
            program,
            source_field_generation: self.source_field_generation,
            source_field_buffer_bytes: self.source_field_buffer_bytes,
        }
    }
}

/// Ends a sampling probe. Its resources are retained whether or not it succeeded.
pub fn finish_xr_f32_field_force_sample_probe(
    retained: &mut RetainedProbes,
    resources: Vec<Acquired>,
    progress: Progress,
    samples: [XrGpuF32ForceProbeSample; 4],
    run: FieldForceRun,
    readback: Readback<ForceReadback>,
) -> (result: Result<XrGpuF32FieldForceSampleProbeResult, String>)
    requires
        old(retained)@.len() < usize::MAX,
        run.sample_count <= 4,
        readback matches Readback::Data(data) ==> data.differences@.len() == run.sample_count * 3,
    ensures
        final(retained)@ == old(retained)@.push(resources@),
        match readback {
            Readback::Data(data) => {
                &&& result matches Ok(report)
                &&& report.samples == samples
                &&& report.output_accelerations == data.output_accelerations
                &&& forall|i: int|
                    0 <= i < 4 ==> #[trigger] report.expected_accelerations@[i]
                        == samples@[i].expected_acceleration
                &&& report.sample_count == run.sample_count
                &&& report.component_count == run.sample_count * 3
                &&& report.mismatched_components == mismatch_count(
                    data.differences@,
                    run.tolerance,
                )
                &&& report.max_abs_error == largest_difference(data.differences@)
                &&& report.tolerance == run.tolerance
                &&& report.queue_submit_serial == progress.submit_serial
                &&& report.fence_serial == progress.submit_serial
                &&& report.resource_generation == old(retained)@.len() + 1
                &&& report.program == run.program
                &&& report.source_field_generation == run.source_field_generation
                &&& report.source_field_buffer_resident
                &&& report.source_field_buffer_bytes == run.source_field_buffer_bytes
                &&& report.sample_input_buffer_bytes == 256
                &&& report.sample_output_buffer_bytes == 64
                &&& report.pending_retire_count == old(retained)@.len() + 1
                &&& report.retained_resource_count == old(retained)@.len() + 1
                &&& report.retired_after_fence_count == 0
                &&& !report.queue_wait_idle_performed
            },
            _ => result matches Err(message) && message@ == readback_failed_text(
                readback,
                "f32 field force sample probe readback"@,
            ),
        },
{
    let resource_generation: u64 = retained.retain(resources);
    let count: usize = retained.count();
    match readback {
        Readback::Data(data) => {
            let tally: DifferenceTally = tally_differences(
                data.differences.as_slice(),
                run.tolerance,
            );
            Ok(
                XrGpuF32FieldForceSampleProbeResult {
                    samples,
                    output_accelerations: data.output_accelerations,
                    expected_accelerations: expected_xr_gpu_f32_force_probe_accelerations(samples),
                    sample_count: run.sample_count,
                    component_count: run.sample_count * 3,
                    mismatched_components: tally.mismatched,
                    max_abs_error: tally.max_abs_error,
                    tolerance: run.tolerance,
                    queue_submit_serial: progress.submit_serial,
                    fence_serial: progress.submit_serial,
                    resource_generation,
                    program: run.program,
                    source_field_generation: run.source_field_generation,
                    source_field_buffer_resident: true,
                    source_field_buffer_bytes: run.source_field_buffer_bytes,
                    sample_input_buffer_bytes: 256,
                    sample_output_buffer_bytes: 64,
                    pending_retire_count: count,
                    retained_resource_count: count,
                    retired_after_fence_count: 0,
                    queue_wait_idle_performed: false,
                },
            )
        },
        Readback::CommandsFailed(message) => Err(message),
        Readback::MapFailed(code) => Err(
            subject_failed("map_memory", "f32 field force sample probe readback", code),
        ),
    }
}

/// The field is sampled exactly where it is there, has voxels that can be counted, a
/// place and a size for them, and bytes for all of them, and a sample is asked for.
pub proof fn law_field_is_sampled_where_it_can_be(field: Option<ResidentField>, sample_count: usize)
    ensures
        field_force_refusal(field, sample_count) is None <==> {
            &&& field matches Some(field)
            &&& 1 <= field.dimensions@[0] && 1 <= field.dimensions@[1] && 1 <= field.dimensions@[2]
            &&& usable_grid(field.origin_voxel_size@)
            &&& field.logical_voxel_count matches Some(voxels) && 1 <= voxels <= 0xffff_ffff
            &&& field.logical_sdf_distance_byte_len matches Some(bytes) && bytes
                <= field.sdf_distance_byte_len
            &&& sample_count >= 1
        },
{
}

/// A grid lies at a finite place and its voxels have a size.
pub proof fn law_usable_grid_has_a_place_and_a_size(grid: Seq<u32>)
    requires
        grid.len() == 4,
    ensures
        usable_grid(grid) <==> {
            &&& forall|i: int| 0 <= i < 4 ==> f32_finite(#[trigger] grid[i])
            &&& 1 <= grid[3] < 0x8000_0000
        },
{
    if usable_grid(grid) {
        assert forall|i: int| 0 <= i < 4 implies f32_finite(#[trigger] grid[i]) by {
            assert(i == 0 || i == 1 || i == 2 || i == 3);
        }
    } else if forall|i: int| 0 <= i < 4 ==> f32_finite(#[trigger] grid[i]) {
        assert(f32_finite(grid[0]) && f32_finite(grid[1]) && f32_finite(grid[2]) && f32_finite(
            grid[3],
        ));
    }
}

/// Every step is taken for the probe.
pub proof fn law_field_force_steps_are_for_the_probe(field_bytes: u64, i: int)
    ensures
        0 <= i < field_force_setup_steps(field_bytes).len() ==> field_force_setup_steps(
            field_bytes,
        )[i].subject == SUBJECT,
        0 <= i < field_force_command_steps(field_bytes).len() ==> field_force_command_steps(
            field_bytes,
        )[i].subject == SUBJECT,
{
}

/// The shader sees the whole of each buffer, and each barrier covers all of its buffer.
pub proof fn law_field_force_buffers_are_used_whole(field_bytes: u64, i: int)
    ensures
        ({
            let setup = field_force_setup_steps(field_bytes);
            let commands = field_force_command_steps(field_bytes);
            let whole = |slot: Slot|
                if slot is Distances {
                    field_bytes as int
                } else if slot is Input {
                    256
                } else if slot is Output {
                    64
                } else {
                    16
                };
            &&& 0 <= i < setup.len() && setup[i].op is QueueStorageWrite ==> whole(
                setup[i].op->QueueStorageWrite_buffer,
            ) == setup[i].op->QueueStorageWrite_range
            &&& 0 <= i < setup.len() && setup[i].op is HostBuffer ==> whole(setup[i].slot)
                == setup[i].op->HostBuffer_size
            &&& 0 <= i < setup.len() && setup[i].op is HostBufferWithData ==> whole(setup[i].slot)
                == setup[i].op->HostBufferWithData_size
            &&& 0 <= i < commands.len() && commands[i].op is QueueBarrier ==> whole(
                commands[i].op->QueueBarrier_buffer,
            ) == commands[i].op->QueueBarrier_size
        }),
{
}

} // verus!

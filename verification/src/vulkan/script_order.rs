//! What every compute script keeps to: a step uses only what is there, commands are
//! recorded, submitted and waited for in that order, and what the host reads afterwards
//! was made visible to it.

use vstd::prelude::*;

#[allow(unused_imports)]
use crate::vulkan::compute_probe::{
    compute_command_steps, compute_setup_steps, lemma_quiet_prefix, storage_command_steps,
    storage_setup_steps, usable_samples,
};
#[allow(unused_imports)]
use crate::vulkan::field_force_probe::{
    field_force_command_steps, field_force_refusal, field_force_setup_steps, ResidentField,
    XrGpuF32FieldForceSampleProbeResult, XR_GPU_F32_FIELD_FORCE_SAMPLE_PROBE_SAMPLES,
};
#[allow(unused_imports)]
use crate::vulkan::mesh_sdf_buffers::{derived_buffer_steps, source_buffer_steps};
#[allow(unused_imports)]
use crate::vulkan::mesh_sdf_probe::{
    mesh_sdf_command_steps, mesh_sdf_common_steps, mesh_sdf_setup_steps,
};
#[allow(unused_imports)]
use crate::vulkan::probe_program::{
    built_program, field_force_program_steps, mesh_sdf_program_steps, reused_program, ProbeProgram,
    ProgramUse,
};
#[allow(unused_imports)]
use crate::vulkan::script::{
    after_op, after_steps, no_progress, release_of, Access, Acquired, ComputeProgram, DeviceOp, Slot,
    Stage, Step,
};
#[allow(unused_imports)]
use crate::vulkan::serials::SubmitSerials;
#[allow(unused_imports)]
use crate::vulkan::skinning_probe::{skinning_command_steps, skinning_setup_steps};

verus! {

/// The step needs what is in the slot.
pub open spec fn uses(op: DeviceOp, slot: Slot) -> bool {
    match op {
        DeviceOp::ShaderModule { code } => slot == code,
        DeviceOp::PipelineLayout { set_layout } => slot == set_layout,
        DeviceOp::ComputePipeline { module, layout, .. } => slot == module || slot == layout,
        DeviceOp::DescriptorSet { pool, layout } => slot == pool || slot == layout,
        DeviceOp::QueueStorageWrite { buffer, .. } => slot == buffer || slot == Slot::Descriptors,
        DeviceOp::UpdateSets => slot == Slot::Descriptors,
        DeviceOp::QueueBarrier { buffer, .. } => slot == buffer || slot == Slot::Commands,
        DeviceOp::BindPipeline { pipeline } => slot == pipeline || slot == Slot::Commands,
        DeviceOp::BindSet { layout } => slot == layout || slot == Slot::Descriptors || slot
            == Slot::Commands,
        DeviceOp::FillBuffer { buffer, .. } => slot == buffer || slot == Slot::Commands,
        DeviceOp::CopyBuffer { from, to, .. } => slot == from || slot == to || slot
            == Slot::Commands,
        DeviceOp::BeginCommands | DeviceOp::Barrier { .. } | DeviceOp::Dispatch { .. }
        | DeviceOp::EndCommands => slot == Slot::Commands,
        DeviceOp::Submit { .. } => slot == Slot::Commands || slot == Slot::Fence,
        DeviceOp::WaitFence { .. } => slot == Slot::Fence,
        _ => false,
    }
}

/// The step leaves something in the slot.
pub open spec fn fills(step: Step, slot: Slot) -> bool {
    &&& step.slot == slot
    &&& release_of(step.op) is Some || step.op is CompileShader || step.op is DescriptorSet
}

/// Something is in the slot once the first `n` steps are done.
pub open spec fn is_there(given: Set<Slot>, steps: Seq<Step>, n: int, slot: Slot) -> bool {
    given.contains(slot) || exists|k: int| 0 <= k < n && fills(#[trigger] steps[k], slot)
}

/// Every step finds what it needs: it was given, or an earlier step left it.
pub open spec fn finds_all(given: Set<Slot>, steps: Seq<Step>) -> bool {
    forall|i: int, slot: Slot|
        0 <= i < steps.len() && #[trigger] uses(steps[i].op, slot) ==> is_there(
            given,
            steps,
            i,
            slot,
        )
}

/// How far a script of commands has come with a step: it begins, records, ends, submits
/// and waits.
pub open spec fn phase(op: DeviceOp) -> int {
    match op {
        DeviceOp::BeginCommands => 0,
        DeviceOp::EndCommands => 2,
        DeviceOp::Submit { .. } => 3,
        DeviceOp::WaitFence { .. } => 4,
        DeviceOp::WaitIdle { .. } => 5,
        DeviceOp::CollectRetired => 6,
        _ => 1,
    }
}

/// The commands begin first, end and are submitted once each, and are waited for only
/// after that.
pub open spec fn goes_in_order(steps: Seq<Step>) -> bool {
    &&& steps.len() > 0
    &&& steps[0].op is BeginCommands
    &&& exists|k: int| 0 <= k < steps.len() && (#[trigger] steps[k]).op is Submit
    &&& forall|i: int, j: int|
        0 <= i < j < steps.len() ==> {
            &&& phase((#[trigger] steps[i]).op) <= phase((#[trigger] steps[j]).op)
            &&& phase(steps[i].op) == phase(steps[j].op) ==> phase(steps[i].op) == 1
        }
}

/// The device may write buffers in the step.
pub open spec fn may_write(op: DeviceOp) -> bool {
    op is Dispatch || op is FillBuffer || op is CopyBuffer
}

/// From step `i` on nothing is written any more, there what was written to the buffer is
/// handed to the host, by the barrier in step `j`.
pub open spec fn hands_over(steps: Seq<Step>, slot: Slot, size: u64, i: int, j: int) -> bool {
    &&& 0 <= i < j < steps.len()
    &&& steps[i].op matches DeviceOp::QueueBarrier { buffer, size: bytes, before, after }
    &&& buffer == slot && bytes == size && after == Access::HostRead
    &&& before == Access::ShaderWrite || before == Access::TransferWrite
    &&& steps[j].op matches DeviceOp::Barrier { second, .. }
    &&& second == Stage::Host
    &&& forall|k: int| i < k < steps.len() ==> !may_write((#[trigger] steps[k]).op)
}

/// All that the device writes to the buffer is visible to the host after the commands.
pub open spec fn is_readable(steps: Seq<Step>, slot: Slot, size: u64) -> bool {
    exists|i: int, j: int| hands_over(steps, slot, size, i, j)
}

/// What is there after the first script, or after some steps of the second, is there
/// where both are run.
proof fn lemma_is_there_concat(
    given: Set<Slot>,
    first: Seq<Step>,
    left: Set<Slot>,
    second: Seq<Step>,
    m: int,
    slot: Slot,
)
    requires
        0 <= m <= second.len(),
        forall|slot: Slot| #[trigger]
            left.contains(slot) ==> is_there(given, first, first.len() as int, slot),
        is_there(given, first, first.len() as int, slot) || is_there(left, second, m, slot),
    ensures
        is_there(given, first + second, first.len() + m, slot),
{
    let steps = first + second;
    let n = first.len() as int;
    if is_there(given, first, n, slot) {
        if !given.contains(slot) {
            let k = choose|k: int| 0 <= k < n && fills(#[trigger] first[k], slot);
            assert(steps[k] == first[k]);
        }
    } else {
        let k = choose|k: int| 0 <= k < m && fills(#[trigger] second[k], slot);
        assert(steps[n + k] == second[k]);
    }
}

/// Two scripts one after the other find all they need where the first does, and where
/// the second needs only what was given or what the first left.
proof fn lemma_finds_all_concat(
    given: Set<Slot>,
    first: Seq<Step>,
    left: Set<Slot>,
    second: Seq<Step>,
)
    requires
        finds_all(given, first),
        finds_all(left, second),
        forall|slot: Slot| #[trigger]
            left.contains(slot) ==> is_there(given, first, first.len() as int, slot),
    ensures
        finds_all(given, first + second),
{
    let steps = first + second;
    let n = first.len() as int;
    assert forall|i: int, slot: Slot|
        0 <= i < steps.len() && #[trigger] uses(steps[i].op, slot) implies is_there(
        given,
        steps,
        i,
        slot,
    ) by {
        if i < n {
            assert(uses(first[i].op, slot));
            if !given.contains(slot) {
                let k = choose|k: int| 0 <= k < i && fills(#[trigger] first[k], slot);
                assert(steps[k] == first[k]);
            }
        } else {
            assert(uses(second[i - n].op, slot));
            lemma_is_there_concat(given, first, left, second, i - n, slot);
        }
    }
}

/// What the commands of a probe with one input and one output need.
pub open spec fn compute_slots() -> Set<Slot> {
    set![
        Slot::Input,
        Slot::Output,
        Slot::Pipeline,
        Slot::PipelineLayout,
        Slot::Descriptors,
        Slot::Commands,
        Slot::Fence,
    ]
}

/// A probe that runs a program from an input to an output finds all it needs, goes in
/// order, and leaves its output readable.
pub proof fn law_compute_script_keeps_to_order(
    subject: &'static str,
    program: ComputeProgram,
    input: u64,
    output: u64,
)
    ensures
        ({
            let setup = compute_setup_steps(subject, program, input, output);
            let commands = compute_command_steps(subject, input, output);
            &&& finds_all(Set::empty(), setup + commands)
            &&& goes_in_order(commands)
            &&& is_readable(commands, Slot::Output, output)
        }),
{
    let given = Set::<Slot>::empty();
    let setup = compute_setup_steps(subject, program, input, output);
    let commands = compute_command_steps(subject, input, output);
    assert(fills(setup[0], Slot::Code));
    assert(fills(setup[1], Slot::Input));
    assert(fills(setup[2], Slot::Output));
    assert(fills(setup[3], Slot::Module));
    assert(fills(setup[4], Slot::SetLayout));
    assert(fills(setup[5], Slot::PipelineLayout));
    assert(fills(setup[6], Slot::Pipeline));
    assert(fills(setup[7], Slot::Pool));
    assert(fills(setup[8], Slot::Descriptors));
    assert(fills(setup[12], Slot::Commands));
    assert(fills(setup[13], Slot::Fence));
    assert(finds_all(given, setup));
    assert(finds_all(compute_slots(), commands));
    lemma_finds_all_concat(given, setup, compute_slots(), commands);
    assert(commands[9].op is Submit);
    assert(hands_over(commands, Slot::Output, output, 6, 7));
}

/// A storage probe finds all it needs, goes in order, and leaves its copy readable.
pub proof fn law_storage_script_keeps_to_order(bytes: u64, pattern: u32)
    ensures
        ({
            let setup = storage_setup_steps(bytes);
            let commands = storage_command_steps(bytes, pattern);
            &&& finds_all(Set::empty(), setup + commands)
            &&& goes_in_order(commands)
            &&& is_readable(commands, Slot::Readback, bytes)
        }),
{
    let given = Set::<Slot>::empty();
    let setup = storage_setup_steps(bytes);
    let commands = storage_command_steps(bytes, pattern);
    let left = set![Slot::Storage, Slot::Readback, Slot::Commands, Slot::Fence];
    assert(fills(setup[0], Slot::Storage));
    assert(fills(setup[1], Slot::Readback));
    assert(fills(setup[2], Slot::Commands));
    assert(fills(setup[3], Slot::Fence));
    assert(finds_all(given, setup));
    assert(finds_all(left, commands));
    lemma_finds_all_concat(given, setup, left, commands);
    assert(commands[8].op is Submit);
    assert(hands_over(commands, Slot::Readback, bytes, 5, 6));
}

/// What the programs that are kept leave for the probes that run them.
pub open spec fn program_slots() -> Set<Slot> {
    set![Slot::SetLayout, Slot::PipelineLayout, Slot::Pipeline]
}

/// The program that samples the field finds all it needs, and so does a probe that runs
/// it over a field that is there. The probe goes in order and leaves its output readable.
pub proof fn law_field_force_script_keeps_to_order(field_bytes: u64)
    ensures
        ({
            let program = field_force_program_steps();
            let setup = field_force_setup_steps(field_bytes);
            let commands = field_force_command_steps(field_bytes);
            &&& finds_all(Set::empty(), program)
            &&& forall|slot: Slot| #[trigger]
                program_slots().contains(slot) ==> is_there(
                    Set::empty(),
                    program,
                    program.len() as int,
                    slot,
                )
            &&& finds_all(program_slots().insert(Slot::Distances), setup + commands)
            &&& goes_in_order(commands)
            &&& is_readable(commands, Slot::Output, 64)
        }),
{
    let program = field_force_program_steps();
    assert(fills(program[0], Slot::Code));
    assert(fills(program[1], Slot::Module));
    assert(fills(program[2], Slot::SetLayout));
    assert(fills(program[3], Slot::PipelineLayout));
    assert(fills(program[4], Slot::Pipeline));
    let given = program_slots().insert(Slot::Distances);
    let setup = field_force_setup_steps(field_bytes);
    let commands = field_force_command_steps(field_bytes);
    let left = compute_slots().insert(Slot::Distances).insert(Slot::Params).insert(Slot::Grid);
    assert(fills(setup[0], Slot::Input));
    assert(fills(setup[1], Slot::Output));
    assert(fills(setup[2], Slot::Params));
    assert(fills(setup[3], Slot::Grid));
    assert(fills(setup[4], Slot::Pool));
    assert(fills(setup[5], Slot::Descriptors));
    assert(fills(setup[12], Slot::Commands));
    assert(fills(setup[13], Slot::Fence));
    assert(finds_all(given, setup));
    assert(finds_all(left, commands));
    lemma_finds_all_concat(given, setup, left, commands);
    assert(commands[12].op is Submit);
    assert(hands_over(commands, Slot::Output, 64, 9, 10));
}

/// A probe that skins a mesh finds all it needs, goes in order, and leaves the positions
/// and what was observed of the triangles readable.
pub proof fn law_skinning_script_keeps_to_order(
    vertex_bytes: u64,
    triangle_bytes: u64,
    position_bytes: u64,
    observation_bytes: u64,
    groups: u32,
)
    ensures
        ({
            let setup = skinning_setup_steps(
                vertex_bytes,
                triangle_bytes,
                position_bytes,
                observation_bytes,
            );
            let commands = skinning_command_steps(
                vertex_bytes,
                triangle_bytes,
                position_bytes,
                observation_bytes,
                groups,
            );
            &&& finds_all(Set::empty(), setup + commands)
            &&& goes_in_order(commands)
            &&& is_readable(commands, Slot::Positions, position_bytes)
            &&& is_readable(commands, Slot::Observations, observation_bytes)
        }),
{
    let given = Set::<Slot>::empty();
    let setup = skinning_setup_steps(
        vertex_bytes,
        triangle_bytes,
        position_bytes,
        observation_bytes,
    );
    let commands = skinning_command_steps(
        vertex_bytes,
        triangle_bytes,
        position_bytes,
        observation_bytes,
        groups,
    );
    let left = set![
        Slot::Vertices,
        Slot::Triangles,
        Slot::Positions,
        Slot::Observations,
        Slot::Params,
        Slot::Pipeline,
        Slot::PipelineLayout,
        Slot::Descriptors,
        Slot::Commands,
        Slot::Fence,
    ];
    assert(fills(setup[0], Slot::Code));
    assert(fills(setup[1], Slot::Vertices));
    assert(fills(setup[2], Slot::Triangles));
    assert(fills(setup[3], Slot::Positions));
    assert(fills(setup[4], Slot::Observations));
    assert(fills(setup[5], Slot::Params));
    assert(fills(setup[6], Slot::Module));
    assert(fills(setup[7], Slot::SetLayout));
    assert(fills(setup[8], Slot::PipelineLayout));
    assert(fills(setup[9], Slot::Pipeline));
    assert(fills(setup[10], Slot::Pool));
    assert(fills(setup[11], Slot::Descriptors));
    assert(fills(setup[18], Slot::Commands));
    assert(fills(setup[19], Slot::Fence));
    assert(finds_all(given, setup));
    assert(finds_all(left, commands));
    lemma_finds_all_concat(given, setup, left, commands);
    assert(commands[12].op is Submit);
    assert(hands_over(commands, Slot::Positions, position_bytes, 8, 10));
    assert(hands_over(commands, Slot::Observations, observation_bytes, 9, 10));
}

/// The buffers of a mesh and what is derived from it.
pub open spec fn mesh_slots() -> Set<Slot> {
    set![Slot::Vertices, Slot::Triangles, Slot::Positions, Slot::Distances]
}

/// What a probe that builds a field is given: the programs that are kept, and the
/// buffers of the mesh unless it makes its own.
pub open spec fn mesh_sdf_given(owned: bool) -> Set<Slot> {
    let programs = program_slots().insert(Slot::BuildPipeline);
    if owned {
        programs
    } else {
        programs.union(mesh_slots())
    }
}

/// The programs that build the distance field find all they need.
pub proof fn law_mesh_sdf_programs_keep_to_order()
    ensures
        ({
            let program = mesh_sdf_program_steps();
            &&& finds_all(Set::empty(), program)
            &&& forall|slot: Slot| #[trigger]
                mesh_sdf_given(true).contains(slot) ==> is_there(
                    Set::empty(),
                    program,
                    program.len() as int,
                    slot,
                )
        }),
{
    let program = mesh_sdf_program_steps();
    assert(fills(program[0], Slot::Code));
    assert(fills(program[1], Slot::BuildCode));
    assert(fills(program[2], Slot::Module));
    assert(fills(program[3], Slot::BuildModule));
    assert(fills(program[4], Slot::SetLayout));
    assert(fills(program[5], Slot::PipelineLayout));
    assert(fills(program[6], Slot::Pipeline));
    assert(fills(program[7], Slot::BuildPipeline));
}

/// The steps that every probe of a field makes find all they need once the mesh is
/// there.
proof fn lemma_mesh_sdf_common(
    vertex_bytes: u64,
    triangle_bytes: u64,
    position_bytes: u64,
    distance_bytes: u64,
)
    ensures
        ({
            let common = mesh_sdf_common_steps(
                vertex_bytes,
                triangle_bytes,
                position_bytes,
                distance_bytes,
            );
            &&& finds_all(mesh_sdf_given(false), common)
            &&& forall|slot: Slot| #[trigger]
                mesh_sdf_left().contains(slot) ==> is_there(
                    mesh_sdf_given(false),
                    common,
                    common.len() as int,
                    slot,
                )
        }),
{
    let common = mesh_sdf_common_steps(
        vertex_bytes,
        triangle_bytes,
        position_bytes,
        distance_bytes,
    );
    assert(fills(common[0], Slot::Params));
    assert(fills(common[1], Slot::Grid));
    assert(fills(common[2], Slot::Pool));
    assert(fills(common[3], Slot::Descriptors));
    assert(fills(common[11], Slot::Commands));
    assert(fills(common[12], Slot::Fence));
}

/// What the commands of a probe of a field need.
pub open spec fn mesh_sdf_left() -> Set<Slot> {
    mesh_sdf_given(false).union(
        set![Slot::Params, Slot::Grid, Slot::Descriptors, Slot::Commands, Slot::Fence],
    )
}

/// A probe that builds a distance field finds all it needs, whether it makes the buffers
/// of its mesh or uses those that are there. It goes in order and leaves the distances
/// readable.
pub proof fn law_mesh_sdf_script_keeps_to_order(
    owned: bool,
    vertex_bytes: u64,
    triangle_bytes: u64,
    position_bytes: u64,
    distance_bytes: u64,
    skin_groups: u32,
    field_groups: u32,
)
    ensures
        ({
            let setup = mesh_sdf_setup_steps(
                owned,
                vertex_bytes,
                triangle_bytes,
                position_bytes,
                distance_bytes,
            );
            let commands = mesh_sdf_command_steps(
                vertex_bytes,
                triangle_bytes,
                position_bytes,
                distance_bytes,
                skin_groups,
                field_groups,
            );
            &&& finds_all(mesh_sdf_given(owned), setup + commands)
            &&& goes_in_order(commands)
            &&& is_readable(commands, Slot::Distances, distance_bytes)
        }),
{
    let common = mesh_sdf_common_steps(
        vertex_bytes,
        triangle_bytes,
        position_bytes,
        distance_bytes,
    );
    let commands = mesh_sdf_command_steps(
        vertex_bytes,
        triangle_bytes,
        position_bytes,
        distance_bytes,
        skin_groups,
        field_groups,
    );
    lemma_mesh_sdf_common(vertex_bytes, triangle_bytes, position_bytes, distance_bytes);
    assert(finds_all(mesh_sdf_left(), commands));
    lemma_finds_all_concat(mesh_sdf_given(false), common, mesh_sdf_left(), commands);
    assert(commands[16].op is Submit);
    assert(hands_over(commands, Slot::Distances, distance_bytes, 13, 14));
    if owned {
        let source = source_buffer_steps(vertex_bytes, triangle_bytes);
        let derived = derived_buffer_steps(position_bytes, distance_bytes);
        let buffers = source + derived;
        assert(fills(buffers[0], Slot::Vertices));
        assert(fills(buffers[1], Slot::Triangles));
        assert(fills(buffers[2], Slot::Positions));
        assert(fills(buffers[3], Slot::Distances));
        assert(finds_all(mesh_sdf_given(true), buffers));
        lemma_finds_all_concat(
            mesh_sdf_given(true),
            buffers,
            mesh_sdf_given(false),
            common + commands,
        );
        assert(buffers + (common + commands) =~= (source + derived + common) + commands);
    }
}

/// The commands of a storage probe leave the serials as they are.
pub proof fn law_storage_probe_is_not_counted(serials: SubmitSerials, bytes: u64, pattern: u32)
    ensures
        after_steps(serials, no_progress(), storage_command_steps(bytes, pattern)) == (
            serials,
            no_progress(),
        ),
{
    let steps = storage_command_steps(bytes, pattern);
    lemma_quiet_prefix(serials, steps, 8);
    assert(steps.take(8) =~= steps.take(9).drop_last());
    assert(steps.take(9) =~= steps.drop_last());
    assert(steps.take(9).last() == steps[8]);
    assert(steps.last() == steps[9]);
    let a = after_steps(serials, no_progress(), steps.take(9));
    assert(a == after_op(serials, no_progress(), steps[8].op));
}

/// A probe of the field whose commands have all succeeded was submitted once and waited
/// for, and everything up to its serial counts as completed.
pub proof fn law_field_force_commands_complete(serials: SubmitSerials, field_bytes: u64)
    requires
        serials.wf(),
    ensures
        ({
            let end = after_steps(
                serials,
                no_progress(),
                field_force_command_steps(field_bytes),
            );
            &&& end.1.submit_serial == serials.submitted_one().submitted
            &&& end.1.fence_serial == end.1.submit_serial
            &&& !end.1.idle
            &&& end.0.submitted == end.1.submit_serial
            &&& end.0.completed == end.0.submitted
        }),
{
    let steps = field_force_command_steps(field_bytes);
    lemma_quiet_prefix(serials, steps, 12);
    assert(steps.take(12) =~= steps.take(13).drop_last());
    assert(steps.take(13) =~= steps.take(14).drop_last());
    assert(steps.take(14) =~= steps.drop_last());
    assert(steps.take(13).last() == steps[12]);
    assert(steps.take(14).last() == steps[13]);
    assert(steps.last() == steps[14]);
    let a = after_steps(serials, no_progress(), steps.take(13));
    let b = after_steps(serials, no_progress(), steps.take(14));
    assert(a == after_op(serials, no_progress(), steps[12].op));
    assert(b == after_op(a.0, a.1, steps[13].op));
}

/// What the sampling probes of the field read and change: their program, the serials and
/// how many of them were retained.
pub ghost struct FieldForceState {
    pub program: Option<ProbeProgram>,
    pub serials: SubmitSerials,
    pub retained: nat,
}

/// The program that a probe leaves in its place, and how it came by it: the one that is
/// there, or one that was built out of `built`.
pub open spec fn program_ensured(program: Option<ProbeProgram>, built: Vec<Acquired>) -> (
    Option<ProbeProgram>,
    ProgramUse,
) {
    match program {
        Some(there) => (Some(there), reused_program(there.generation)),
        None => (Some(ProbeProgram { generation: 1, resources: built }), built_program()),
    }
}

/// A sampling probe was not refused, had all its steps succeed from `before` to `after`,
/// and ended with `report`.
pub open spec fn field_force_succeeded(
    before: FieldForceState,
    field: Option<ResidentField>,
    sample_count: usize,
    built: Vec<Acquired>,
    after: FieldForceState,
    report: XrGpuF32FieldForceSampleProbeResult,
) -> bool {
    let ensured = program_ensured(before.program, built);
    let ran = after_steps(
        before.serials,
        no_progress(),
        field_force_command_steps(field->0.sdf_distance_byte_len),
    );
    &&& field_force_refusal(field, sample_count) is None
    &&& after == (FieldForceState {
        program: ensured.0,
        serials: ran.0,
        retained: before.retained + 1,
    })
    &&& report.program == ensured.1
    &&& report.sample_count == usable_samples(sample_count, 4)
    &&& report.queue_submit_serial == ran.1.submit_serial
    &&& report.fence_serial == ran.1.submit_serial
    &&& report.resource_generation == after.retained
}

/// A sampling probe after one that succeeded, with whatever was submitted between them,
/// reuses its program without compiling or creating anything, has a later serial unless
/// the serials have come to their end, is waited for by its own serial, and takes at
/// least one sample and as many as it can of those asked for.
pub proof fn law_field_force_program_is_reused(
    start: FieldForceState,
    first_field: Option<ResidentField>,
    first_count: usize,
    first_built: Vec<Acquired>,
    middle: FieldForceState,
    first: XrGpuF32FieldForceSampleProbeResult,
    later: FieldForceState,
    field: Option<ResidentField>,
    count: usize,
    built: Vec<Acquired>,
    end: FieldForceState,
    second: XrGpuF32FieldForceSampleProbeResult,
)
    requires
        start.serials.wf(),
        later.serials.wf(),
        field_force_succeeded(start, first_field, first_count, first_built, middle, first),
        later.program == middle.program,
        later.serials.submitted >= middle.serials.submitted,
        field_force_succeeded(later, field, count, built, end, second),
    ensures
        second.program.program_reused,
        !second.program.shader_compiled_this_submit,
        !second.program.pipeline_created_this_submit,
        second.program.generation == first.program.generation,
        end.program == middle.program,
        second.queue_submit_serial > first.queue_submit_serial || first.queue_submit_serial
            == u64::MAX,
        second.fence_serial == second.queue_submit_serial,
        end.serials.completed >= second.fence_serial,
        1 <= second.sample_count,
        second.sample_count == if count < XR_GPU_F32_FIELD_FORCE_SAMPLE_PROBE_SAMPLES {
            count
        } else {
            XR_GPU_F32_FIELD_FORCE_SAMPLE_PROBE_SAMPLES
        },
{
    law_field_force_commands_complete(start.serials, first_field->0.sdf_distance_byte_len);
    law_field_force_commands_complete(later.serials, field->0.sdf_distance_byte_len);
}

/// The commands of the probes that are not waited for are submitted once, and nothing
/// counts as completed by them.
pub proof fn law_pending_commands_only_submit(
    serials: SubmitSerials,
    vertex_bytes: u64,
    triangle_bytes: u64,
    position_bytes: u64,
    result_bytes: u64,
    skin_groups: u32,
    field_groups: u32,
)
    ensures
        ({
            let skinning = after_steps(
                serials,
                no_progress(),
                skinning_command_steps(
                    vertex_bytes,
                    triangle_bytes,
                    position_bytes,
                    result_bytes,
                    skin_groups,
                ),
            );
            let field = after_steps(
                serials,
                no_progress(),
                mesh_sdf_command_steps(
                    vertex_bytes,
                    triangle_bytes,
                    position_bytes,
                    result_bytes,
                    skin_groups,
                    field_groups,
                ),
            );
            &&& skinning == field
            &&& field.0 == serials.submitted_one()
            &&& field.0.completed == serials.completed
            &&& field.1.submit_serial == field.0.submitted
            &&& field.1.fence_serial == 0
            &&& !field.1.idle
        }),
{
    let skinning = skinning_command_steps(
        vertex_bytes,
        triangle_bytes,
        position_bytes,
        result_bytes,
        skin_groups,
    );
    let field = mesh_sdf_command_steps(
        vertex_bytes,
        triangle_bytes,
        position_bytes,
        result_bytes,
        skin_groups,
        field_groups,
    );
    lemma_quiet_prefix(serials, skinning, 12);
    lemma_quiet_prefix(serials, field, 16);
    assert(skinning.take(12) =~= skinning.drop_last());
    assert(field.take(16) =~= field.drop_last());
}

/// How large the buffer is that a step makes.
pub open spec fn made_size(op: DeviceOp) -> Option<u64> {
    match op {
        DeviceOp::HostBuffer { size, .. } => Some(size),
        DeviceOp::HostBufferWithData { size, .. } => Some(size),
        _ => None,
    }
}

/// A buffer that is made and bound is bound with all its bytes.
pub open spec fn binds_whole_buffers(setup: Seq<Step>) -> bool {
    forall|i: int, k: int|
        0 <= i < setup.len() && 0 <= k < setup.len() && (
        #[trigger] setup[i]).op is QueueStorageWrite && (#[trigger] setup[k]).slot
            == setup[i].op->QueueStorageWrite_buffer && made_size(setup[k].op) is Some
            ==> made_size(setup[k].op) == Some(setup[i].op->range)
}

/// From step `from` on the buffers are bound one after the other, to the bindings from
/// zero on.
pub open spec fn binds_in_order(setup: Seq<Step>, from: int, buffers: Seq<Slot>) -> bool {
    &&& 0 <= from && from + buffers.len() <= setup.len()
    &&& forall|b: int|
        0 <= b < buffers.len() ==> (#[trigger] setup[from + b]).op is QueueStorageWrite
            && setup[from + b].op->QueueStorageWrite_binding == b
            && setup[from + b].op->QueueStorageWrite_buffer == buffers[b]
}

/// The buffer is handed to the device by a barrier over all its bytes before step `until`.
pub open spec fn is_handed_in(commands: Seq<Step>, slot: Slot, size: u64, until: int) -> bool {
    exists|i: int|
        0 <= i < until && (#[trigger] commands[i]).op is QueueBarrier
            && commands[i].op->QueueBarrier_buffer == slot && commands[i].op->QueueBarrier_size
            == size && commands[i].op->after is ShaderRead
}

/// A probe from an input to an output compiles the program that it then runs, binds its
/// buffers whole, the input first, hands the input to the device, and runs one group.
pub proof fn law_compute_script_runs_its_program(
    subject: &'static str,
    program: ComputeProgram,
    input: u64,
    output: u64,
)
    ensures
        ({
            let setup = compute_setup_steps(subject, program, input, output);
            let commands = compute_command_steps(subject, input, output);
            &&& setup.contains(
                (Step { slot: Slot::Code, op: DeviceOp::CompileShader { program }, subject }),
            )
            &&& exists|i: int|
                0 <= i < setup.len() && (#[trigger] setup[i]).op is ComputePipeline
                    && setup[i].op->ComputePipeline_program == program
            &&& binds_whole_buffers(setup)
            &&& binds_in_order(setup, 9, seq![Slot::Input, Slot::Output])
            &&& setup.contains(
                (Step {
                    slot: Slot::SetLayout,
                    op: DeviceOp::StorageSetLayout { bindings: 2 },
                    subject,
                }),
            )
            &&& is_handed_in(commands, Slot::Input, input, 5)
            &&& commands[5].op == (DeviceOp::Dispatch { groups: 1 })
            &&& forall|i: int|
                0 <= i < commands.len() && i != 5 ==> !((#[trigger] commands[i]).op is Dispatch)
        }),
{
    let setup = compute_setup_steps(subject, program, input, output);
    let commands = compute_command_steps(subject, input, output);
    assert(setup[0].op is CompileShader);
    assert(setup[4].op is StorageSetLayout);
    assert(setup[6].op is ComputePipeline);
    assert(setup[9].op is QueueStorageWrite && setup[10].op is QueueStorageWrite);
    assert(binds_in_order(setup, 9, seq![Slot::Input, Slot::Output]));
    assert(commands[1].op is QueueBarrier);
}

/// A storage probe fills its buffer with the pattern, copies it whole, and reads the copy.
pub proof fn law_storage_script_copies_the_pattern(bytes: u64, pattern: u32)
    ensures
        ({
            let setup = storage_setup_steps(bytes);
            let commands = storage_command_steps(bytes, pattern);
            &&& setup[0].slot is Storage && made_size(setup[0].op) == Some(bytes)
            &&& setup[1].slot is Readback && made_size(setup[1].op) == Some(bytes)
            &&& exists|fill: int, copy: int|
                {
                    &&& 0 <= fill < copy < commands.len()
                    &&& #[trigger] commands[fill].op == (DeviceOp::FillBuffer {
                        buffer: Slot::Storage,
                        size: bytes,
                        word: pattern,
                    })
                    &&& #[trigger] commands[copy].op == (DeviceOp::CopyBuffer {
                        from: Slot::Storage,
                        to: Slot::Readback,
                        size: bytes,
                    })
                }
        }),
{
    let commands = storage_command_steps(bytes, pattern);
    assert(commands[1].op is FillBuffer && commands[4].op is CopyBuffer);
}

/// A probe of the field binds the field, the samples, the accelerations, the parameters and
/// the grid whole and in this order, hands what the host wrote to the device, and runs one
/// group.
pub proof fn law_field_force_script_runs_its_program(field_bytes: u64)
    ensures
        ({
            let setup = field_force_setup_steps(field_bytes);
            let commands = field_force_command_steps(field_bytes);
            let program = field_force_program_steps();
            &&& binds_whole_buffers(setup)
            &&& binds_in_order(
                setup,
                6,
                seq![Slot::Distances, Slot::Input, Slot::Output, Slot::Params, Slot::Grid],
            )
            &&& is_handed_in(commands, Slot::Distances, field_bytes, 8)
            &&& is_handed_in(commands, Slot::Input, 256, 8)
            &&& is_handed_in(commands, Slot::Params, 16, 8)
            &&& is_handed_in(commands, Slot::Grid, 16, 8)
            &&& commands[8].op == (DeviceOp::Dispatch { groups: 1 })
            &&& program[0].op == (DeviceOp::CompileShader {
                program: ComputeProgram::FieldForceSamples,
            })
            &&& program.last().op is ComputePipeline
            &&& program.last().op->ComputePipeline_program is FieldForceSamples
        }),
{
    let setup = field_force_setup_steps(field_bytes);
    let commands = field_force_command_steps(field_bytes);
    assert(setup[6].op is QueueStorageWrite && setup[10].op is QueueStorageWrite);
    assert(binds_in_order(
        setup,
        6,
        seq![Slot::Distances, Slot::Input, Slot::Output, Slot::Params, Slot::Grid],
    ));
    assert(commands[1].op is QueueBarrier && commands[2].op is QueueBarrier);
    assert(commands[3].op is QueueBarrier && commands[4].op is QueueBarrier);
}

/// A probe that skins a mesh binds the vertices, the triangles, the positions, the
/// observations and the parameters whole and in this order, hands what the host wrote to
/// the device, and runs the groups that it is given, once.
pub proof fn law_skinning_script_runs_its_program(
    vertex_bytes: u64,
    triangle_bytes: u64,
    position_bytes: u64,
    observation_bytes: u64,
    groups: u32,
)
    ensures
        ({
            let setup = skinning_setup_steps(
                vertex_bytes,
                triangle_bytes,
                position_bytes,
                observation_bytes,
            );
            let commands = skinning_command_steps(
                vertex_bytes,
                triangle_bytes,
                position_bytes,
                observation_bytes,
                groups,
            );
            &&& binds_whole_buffers(setup)
            &&& binds_in_order(
                setup,
                12,
                seq![
                    Slot::Vertices,
                    Slot::Triangles,
                    Slot::Positions,
                    Slot::Observations,
                    Slot::Params,
                ],
            )
            &&& made_size(setup[1].op) == Some(vertex_bytes) && setup[1].slot is Vertices
            &&& made_size(setup[2].op) == Some(triangle_bytes) && setup[2].slot is Triangles
            &&& made_size(setup[3].op) == Some(position_bytes) && setup[3].slot is Positions
            &&& made_size(setup[4].op) == Some(observation_bytes) && setup[4].slot is Observations
            &&& is_handed_in(commands, Slot::Vertices, vertex_bytes, 7)
            &&& is_handed_in(commands, Slot::Triangles, triangle_bytes, 7)
            &&& is_handed_in(commands, Slot::Params, 16, 7)
            &&& commands[7].op == (DeviceOp::Dispatch { groups })
            &&& forall|i: int|
                0 <= i < commands.len() && i != 7 ==> !((#[trigger] commands[i]).op is Dispatch)
        }),
{
    let setup = skinning_setup_steps(
        vertex_bytes,
        triangle_bytes,
        position_bytes,
        observation_bytes,
    );
    let commands = skinning_command_steps(
        vertex_bytes,
        triangle_bytes,
        position_bytes,
        observation_bytes,
        groups,
    );
    assert(binds_in_order(
        setup,
        12,
        seq![Slot::Vertices, Slot::Triangles, Slot::Positions, Slot::Observations, Slot::Params],
    ));
    assert(commands[1].op is QueueBarrier && commands[2].op is QueueBarrier);
    assert(commands[3].op is QueueBarrier);
}

/// A probe of the distance field binds the vertices, the triangles, the positions, the
/// distances, the parameters and the grid in this order, first skins with its groups and
/// then builds the field with its own, each with its own program, and what was skinned is
/// handed on between them.
pub proof fn law_mesh_sdf_script_skins_then_builds(
    vertex_bytes: u64,
    triangle_bytes: u64,
    position_bytes: u64,
    distance_bytes: u64,
    skin_groups: u32,
    field_groups: u32,
)
    ensures
        ({
            let setup = mesh_sdf_common_steps(
                vertex_bytes,
                triangle_bytes,
                position_bytes,
                distance_bytes,
            );
            let commands = mesh_sdf_command_steps(
                vertex_bytes,
                triangle_bytes,
                position_bytes,
                distance_bytes,
                skin_groups,
                field_groups,
            );
            let program = mesh_sdf_program_steps();
            &&& binds_whole_buffers(setup)
            &&& binds_in_order(
                setup,
                4,
                seq![
                    Slot::Vertices,
                    Slot::Triangles,
                    Slot::Positions,
                    Slot::Distances,
                    Slot::Params,
                    Slot::Grid,
                ],
            )
            &&& setup[4].op->range == vertex_bytes
            &&& setup[5].op->range == triangle_bytes
            &&& setup[6].op->range == position_bytes
            &&& setup[7].op->range == distance_bytes
            &&& is_handed_in(commands, Slot::Vertices, vertex_bytes, 8)
            &&& is_handed_in(commands, Slot::Triangles, triangle_bytes, 8)
            &&& is_handed_in(commands, Slot::Params, 32, 8)
            &&& is_handed_in(commands, Slot::Grid, 16, 8)
            &&& commands[6].op->BindPipeline_pipeline is Pipeline
            &&& commands[8].op == (DeviceOp::Dispatch { groups: skin_groups })
            &&& is_handed_in(commands, Slot::Positions, position_bytes, 12)
            &&& commands[11].op->BindPipeline_pipeline is BuildPipeline
            &&& commands[12].op == (DeviceOp::Dispatch { groups: field_groups })
            &&& program[6].slot is Pipeline && program[6].op->ComputePipeline_program
                is MeshSdfSkinning
            &&& program[7].slot is BuildPipeline && program[7].op->ComputePipeline_program
                is MeshSdfBuild
            &&& program[6].op->ComputePipeline_module is Module
            &&& program[7].op->ComputePipeline_module is BuildModule
            &&& program[0].op->CompileShader_program is MeshSdfSkinning
            &&& program[1].op->CompileShader_program is MeshSdfBuild
            &&& program[2].op->code is Code && program[3].op->code is BuildCode
        }),
{
    let commands = mesh_sdf_command_steps(
        vertex_bytes,
        triangle_bytes,
        position_bytes,
        distance_bytes,
        skin_groups,
        field_groups,
    );
    assert(commands[1].op is QueueBarrier && commands[2].op is QueueBarrier);
    assert(commands[3].op is QueueBarrier && commands[4].op is QueueBarrier);
    assert(commands[9].op is QueueBarrier);
}

/// The buffers of a mesh and of what is derived from it are made with the bytes that are
/// asked for, each in its slot.
pub proof fn law_mesh_buffers_have_their_sizes(first: u64, second: u64)
    ensures
        ({
            let source = source_buffer_steps(first, second);
            let derived = derived_buffer_steps(first, second);
            &&& source.len() == 2 && derived.len() == 2
            &&& source[0].slot is Vertices && source[0].op is HostBufferWithData && made_size(
                source[0].op,
            ) == Some(first)
            &&& source[1].slot is Triangles && source[1].op is HostBufferWithData && made_size(
                source[1].op,
            ) == Some(second)
            &&& derived[0].slot is Positions && made_size(derived[0].op) == Some(first)
            &&& derived[1].slot is Distances && made_size(derived[1].op) == Some(second)
        }),
{
}

} // verus!

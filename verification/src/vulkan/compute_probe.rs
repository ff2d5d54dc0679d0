//! Probes that run one small compute program, or one buffer fill, and read the
//! result back.

use vstd::prelude::*;

use crate::float_bits::{sanitize_tolerance, tally_differences, DifferenceTally};
#[allow(unused_imports)]
use crate::float_bits::{largest_difference, mismatch_count, usable_tolerance};
use crate::vulkan::buffers::align_device_size;
#[allow(unused_imports)]
use crate::vulkan::buffers::aligned;
use crate::vulkan::failure::subject_failed;
#[allow(unused_imports)]
use crate::vulkan::failure::{subject_failed_text, vk_result_debug};
use crate::vulkan::retained::RetainedProbes;
use crate::vulkan::script::{
    Access, Acquired, BufferUse, CommandRun, ComputeProgram, DeviceOp, Progress, Setup, Slot, Stage,
    Step,
};
#[allow(unused_imports)]
use crate::vulkan::script::{after_op, after_steps, no_progress};
#[allow(unused_imports)]
use crate::vulkan::serials::SubmitSerials;

verus! {

/// How many words the integer probe mixes.
pub const XR_GPU_U32_COMPUTE_PROBE_WORDS: usize = 4;

/// How many samples the force probe holds.
pub const XR_GPU_F32_FORCE_PROBE_SAMPLES: usize = 4;

const XR_GPU_U32_COMPUTE_PROBE_XOR_A: u32 = 0xA5A5_5A5A;

const XR_GPU_U32_COMPUTE_PROBE_XOR_B: u32 = 0x5DF0_ADF1;

const XR_GPU_U32_COMPUTE_PROBE_INDEX_STEP: u32 = 17;

/// The bytes of the integer probe's words.
pub const U32_PROBE_BYTES: u64 = 16;

/// The bytes of the force probe's samples, four rows of four numbers each.
pub const FORCE_PROBE_INPUT_BYTES: u64 = 256;

/// The bytes of the force probe's accelerations.
pub const FORCE_PROBE_OUTPUT_BYTES: u64 = 64;

/// The word that the integer probe makes of `word` at `index`.
pub open spec fn probe_word(word: u32, index: int) -> u32 {
    ((((word ^ 0xA5A5_5A5Au32) + index * 17) % 0x1_0000_0000) as u32) ^ 0x5DF0_ADF1u32
}

/// The words that the integer probe should hand back.
pub fn expected_xr_gpu_u32_compute_probe_words(input_words: [u32; 4]) -> (expected: [u32; 4])
    ensures
        forall|i: int| 0 <= i < 4 ==> #[trigger] expected@[i] == probe_word(input_words@[i], i),
{
    let mut expected: [u32; 4] = [0, 0, 0, 0];
    let mut index: usize = 0;
    while index < XR_GPU_U32_COMPUTE_PROBE_WORDS
        invariant
            index <= 4,
            forall|i: int|
                0 <= i < index ==> #[trigger] expected@[i] == probe_word(input_words@[i], i),
        decreases 4 - index,
    {
        let word: u32 = input_words[index];
        let step: u32 = (index as u32).wrapping_mul(XR_GPU_U32_COMPUTE_PROBE_INDEX_STEP);
        let mixed: u32 = (word ^ XR_GPU_U32_COMPUTE_PROBE_XOR_A).wrapping_add(step);
        assert(mixed == ((word ^ 0xA5A5_5A5Au32) + index * 17) % 0x1_0000_0000);
        expected[index] = mixed ^ XR_GPU_U32_COMPUTE_PROBE_XOR_B;
        index = index + 1;
    }
    expected
}

/// The setup of a probe that runs `program` from an input to an output buffer.
pub open spec fn compute_setup_steps(
    subject: &'static str,
    program: ComputeProgram,
    input: u64,
    output: u64,
) -> Seq<Step> {
    seq![
        Step { slot: Slot::Code, op: DeviceOp::CompileShader { program }, subject },
        Step {
            slot: Slot::Input,
            op: DeviceOp::HostBufferWithData { usage: BufferUse::Storage, size: input },
            subject,
        },
        Step {
            slot: Slot::Output,
            op: DeviceOp::HostBuffer { usage: BufferUse::Storage, size: output },
            subject,
        },
        Step { slot: Slot::Module, op: DeviceOp::ShaderModule { code: Slot::Code }, subject },
        Step { slot: Slot::SetLayout, op: DeviceOp::StorageSetLayout { bindings: 2 }, subject },
        Step {
            slot: Slot::PipelineLayout,
            op: DeviceOp::PipelineLayout { set_layout: Slot::SetLayout },
            subject,
        },
        Step {
            slot: Slot::Pipeline,
            op: DeviceOp::ComputePipeline {
                module: Slot::Module,
                layout: Slot::PipelineLayout,
                program,
            },
            subject,
        },
        Step { slot: Slot::Pool, op: DeviceOp::StoragePool { descriptors: 2 }, subject },
        Step {
            slot: Slot::Descriptors,
            op: DeviceOp::DescriptorSet { pool: Slot::Pool, layout: Slot::SetLayout },
            subject,
        },
        Step {
            slot: Slot::Descriptors,
            op: DeviceOp::QueueStorageWrite { binding: 0, buffer: Slot::Input, range: input },
            subject,
        },
        Step {
            slot: Slot::Descriptors,
            op: DeviceOp::QueueStorageWrite { binding: 1, buffer: Slot::Output, range: output },
            subject,
        },
        Step { slot: Slot::Descriptors, op: DeviceOp::UpdateSets, subject },
        Step { slot: Slot::Commands, op: DeviceOp::CommandBuffer, subject },
        Step { slot: Slot::Fence, op: DeviceOp::Fence, subject },
    ]
}

fn compute_setup(
    subject: &'static str,
    program: ComputeProgram,
    input: u64,
    output: u64,
) -> (steps: Vec<Step>)
    ensures
        steps@ == compute_setup_steps(subject, program, input, output),
{
    vec![
        Step { slot: Slot::Code, op: DeviceOp::CompileShader { program }, subject },
        Step {
            slot: Slot::Input,
            op: DeviceOp::HostBufferWithData { usage: BufferUse::Storage, size: input },
            subject,
        },
        Step {
            slot: Slot::Output,
            op: DeviceOp::HostBuffer { usage: BufferUse::Storage, size: output },
            subject,
        },
        Step { slot: Slot::Module, op: DeviceOp::ShaderModule { code: Slot::Code }, subject },
        Step { slot: Slot::SetLayout, op: DeviceOp::StorageSetLayout { bindings: 2 }, subject },
        Step {
            slot: Slot::PipelineLayout,
            op: DeviceOp::PipelineLayout { set_layout: Slot::SetLayout },
            subject,
        },
        Step {
            slot: Slot::Pipeline,
            op: DeviceOp::ComputePipeline {
                module: Slot::Module,
                layout: Slot::PipelineLayout,
                program,
            },
            subject,
        },
        Step { slot: Slot::Pool, op: DeviceOp::StoragePool { descriptors: 2 }, subject },
        Step {
            slot: Slot::Descriptors,
            op: DeviceOp::DescriptorSet { pool: Slot::Pool, layout: Slot::SetLayout },
            subject,
        },
        Step {
            slot: Slot::Descriptors,
            op: DeviceOp::QueueStorageWrite { binding: 0, buffer: Slot::Input, range: input },
            subject,
        },
        Step {
            slot: Slot::Descriptors,
            op: DeviceOp::QueueStorageWrite { binding: 1, buffer: Slot::Output, range: output },
            subject,
        },
        Step { slot: Slot::Descriptors, op: DeviceOp::UpdateSets, subject },
        Step { slot: Slot::Commands, op: DeviceOp::CommandBuffer, subject },
        Step { slot: Slot::Fence, op: DeviceOp::Fence, subject },
    ]
}

/// The commands of such a probe: the host's writes become visible to the program,
/// the program's writes to the host, and the queue is idle at the end.
pub open spec fn compute_command_steps(subject: &'static str, input: u64, output: u64) -> Seq<
    Step,
> {
    seq![
        Step { slot: Slot::Commands, op: DeviceOp::BeginCommands, subject },
        Step {
            slot: Slot::Commands,
            op: DeviceOp::QueueBarrier {
                buffer: Slot::Input,
                size: input,
                before: Access::HostWrite,
                after: Access::ShaderRead,
            },
            subject,
        },
        Step {
            slot: Slot::Commands,
            op: DeviceOp::Barrier { first: Stage::Host, second: Stage::Compute },
            subject,
        },
        Step {
            slot: Slot::Commands,
            op: DeviceOp::BindPipeline { pipeline: Slot::Pipeline },
            subject,
        },
        Step {
            slot: Slot::Commands,
            op: DeviceOp::BindSet { layout: Slot::PipelineLayout },
            subject,
        },
        Step { slot: Slot::Commands, op: DeviceOp::Dispatch { groups: 1 }, subject },
        Step {
            slot: Slot::Commands,
            op: DeviceOp::QueueBarrier {
                buffer: Slot::Output,
                size: output,
                before: Access::ShaderWrite,
                after: Access::HostRead,
            },
            subject,
        },
        Step {
            slot: Slot::Commands,
            op: DeviceOp::Barrier { first: Stage::Compute, second: Stage::Host },
            subject,
        },
        Step { slot: Slot::Commands, op: DeviceOp::EndCommands, subject },
        Step { slot: Slot::Queue, op: DeviceOp::Submit { counted: true }, subject },
        Step { slot: Slot::Fence, op: DeviceOp::WaitFence { completes: false }, subject },
        Step { slot: Slot::Queue, op: DeviceOp::WaitIdle { completes: true }, subject },
        Step { slot: Slot::Queue, op: DeviceOp::CollectRetired, subject },
    ]
}

fn compute_commands(subject: &'static str, input: u64, output: u64) -> (steps: Vec<Step>)
    ensures
        steps@ == compute_command_steps(subject, input, output),
{
    vec![
        Step { slot: Slot::Commands, op: DeviceOp::BeginCommands, subject },
        Step {
            slot: Slot::Commands,
            op: DeviceOp::QueueBarrier {
                buffer: Slot::Input,
                size: input,
                before: Access::HostWrite,
                after: Access::ShaderRead,
            },
            subject,
        },
        Step {
            slot: Slot::Commands,
            op: DeviceOp::Barrier { first: Stage::Host, second: Stage::Compute },
            subject,
        },
        Step {
            slot: Slot::Commands,
            op: DeviceOp::BindPipeline { pipeline: Slot::Pipeline },
            subject,
        },
        Step {
            slot: Slot::Commands,
            op: DeviceOp::BindSet { layout: Slot::PipelineLayout },
            subject,
        },
        Step { slot: Slot::Commands, op: DeviceOp::Dispatch { groups: 1 }, subject },
        Step {
            slot: Slot::Commands,
            op: DeviceOp::QueueBarrier {
                buffer: Slot::Output,
                size: output,
                before: Access::ShaderWrite,
                after: Access::HostRead,
            },
            subject,
        },
        Step {
            slot: Slot::Commands,
            op: DeviceOp::Barrier { first: Stage::Compute, second: Stage::Host },
            subject,
        },
        Step { slot: Slot::Commands, op: DeviceOp::EndCommands, subject },
        Step { slot: Slot::Queue, op: DeviceOp::Submit { counted: true }, subject },
        Step { slot: Slot::Fence, op: DeviceOp::WaitFence { completes: false }, subject },
        Step { slot: Slot::Queue, op: DeviceOp::WaitIdle { completes: true }, subject },
        Step { slot: Slot::Queue, op: DeviceOp::CollectRetired, subject },
    ]
}

/// A probe whose commands have all succeeded was submitted once, its fence has the
/// serial of that submission, the queue was idle, and everything up to that serial
/// counts as completed.
pub proof fn law_compute_commands_complete(
    serials: SubmitSerials,
    subject: &'static str,
    input: u64,
    output: u64,
)
    requires
        serials.wf(),
    ensures
        ({
            let end = after_steps(
                serials,
                no_progress(),
                compute_command_steps(subject, input, output),
            );
            &&& end.1.submit_serial == serials.submitted_one().submitted
            &&& end.1.fence_serial == end.1.submit_serial
            &&& end.1.idle
            &&& end.0.submitted == end.1.submit_serial
            &&& end.0.completed == end.0.submitted
        }),
{
    let steps = compute_command_steps(subject, input, output);
    lemma_quiet_prefix(serials, steps, 9);
    assert(steps.take(9) =~= steps.take(10).drop_last());
    assert(steps.take(10) =~= steps.take(11).drop_last());
    assert(steps.take(11) =~= steps.take(12).drop_last());
    assert(steps.take(12) =~= steps.drop_last());
    assert(steps.take(10).last() == steps[9]);
    assert(steps.take(11).last() == steps[10]);
    assert(steps.take(12).last() == steps[11]);
    assert(steps.last() == steps[12]);
    let a = after_steps(serials, no_progress(), steps.take(10));
    let b = after_steps(serials, no_progress(), steps.take(11));
    let c = after_steps(serials, no_progress(), steps.take(12));
    assert(a == after_op(serials, no_progress(), steps[9].op));
    assert(b == after_op(a.0, a.1, steps[10].op));
    assert(c == after_op(b.0, b.1, steps[11].op));
}

/// Steps that neither submit nor wait change nothing.
pub proof fn lemma_quiet_prefix(serials: SubmitSerials, steps: Seq<Step>, n: int)
    requires
        0 <= n <= steps.len(),
        forall|i: int|
            0 <= i < n ==> !(#[trigger] steps[i].op is Submit) && !(steps[i].op is WaitFence) && !(
            steps[i].op is WaitIdle),
    ensures
        after_steps(serials, no_progress(), steps.take(n)) == (serials, no_progress()),
    decreases n,
{
    if n > 0 {
        lemma_quiet_prefix(serials, steps, n - 1);
        assert(steps.take(n).drop_last() =~= steps.take(n - 1));
        assert(steps.take(n).last() == steps[n - 1]);
    }
}

/// What came of reading a probe's output back.
pub enum Readback<T> {
    /// The output.
    Data(T),
    /// The commands failed before; this is their message.
    CommandsFailed(String),
    /// The output's memory could not be mapped.
    MapFailed(i32),
}

/// The message of a readback that has no data.
pub open spec fn readback_failed_text<T>(readback: Readback<T>, subject: Seq<char>) -> Seq<char> {
    match readback {
        Readback::Data(_) => seq![],
        Readback::CommandsFailed(message) => message@,
        Readback::MapFailed(code) => subject_failed_text("map_memory"@, subject, code),
    }
}

/// What the integer probe reports.
#[derive(Clone, Copy, PartialEq, Eq, Debug)]
pub struct XrGpuU32ComputeProbeResult {
    pub input_words: [u32; 4],
    pub output_words: [u32; 4],
    pub expected_words: [u32; 4],
    pub word_count: usize,
    pub mismatched_words: usize,
    pub queue_submit_serial: u64,
    pub fence_serial: u64,
    pub resource_generation: u64,
    pub pending_retire_count: usize,
    pub retained_resource_count: usize,
    pub retired_after_fence_count: usize,
    pub queue_wait_idle_performed: bool,
}

/// How many words of `output` differ from those of `expected`.
pub open spec fn word_mismatches(output: Seq<u32>, expected: Seq<u32>) -> nat
    decreases output.len(),
{
    if output.len() == 0 {
        0
    } else {
        word_mismatches(output.drop_last(), expected) + if output.last() != expected[output.len()
            - 1] {
            1nat
        } else {
            0nat
        }
    }
}

/// Counts the words of `output` that differ from those of `expected`.
pub fn count_word_mismatches(output: &[u32], expected: &[u32]) -> (count: usize)
    requires
        output@.len() <= expected@.len(),
    ensures
        count == word_mismatches(output@, expected@),
        count <= output@.len(),
{
    let mut count: usize = 0;
    let mut i: usize = 0;
    while i < output.len()
        invariant
            i <= output@.len() <= expected@.len(),
            count <= i,
            count == word_mismatches(output@.take(i as int), expected@),
        decreases output@.len() - i,
    {
        proof {
            assert(output@.take(i + 1).drop_last() =~= output@.take(i as int));
            assert(output@.take(i + 1).last() == output@[i as int]);
        }
        if output[i] != expected[i] {
            count = count + 1;
        }
        i = i + 1;
    }
    assert(output@.take(i as int) =~= output@);
    count
}

/// What the integer probe does: its setup and its commands.
pub fn submit_xr_u32_compute_probe() -> (plan: (Setup, CommandRun))
    ensures
        plan.0.wf(),
        plan.0.steps@ == compute_setup_steps(
            "u32 compute probe",
            ComputeProgram::U32Words,
            U32_PROBE_BYTES,
            U32_PROBE_BYTES,
        ),
        plan.0.done == 0,
        plan.0.acquired@.len() == 0,
        plan.1.wf(),
        plan.1.steps@ == compute_command_steps(
            "u32 compute probe",
            U32_PROBE_BYTES,
            U32_PROBE_BYTES,
        ),
        plan.1.done == 0,
        plan.1.progress == no_progress(),
{
    (
        Setup::new(
            compute_setup(
                "u32 compute probe",
                ComputeProgram::U32Words,
                U32_PROBE_BYTES,
                U32_PROBE_BYTES,
            ),
        ),
        CommandRun::new(compute_commands("u32 compute probe", U32_PROBE_BYTES, U32_PROBE_BYTES)),
    )
}

/// Ends the integer probe. Its resources are retained whether or not it
/// succeeded.
pub fn finish_xr_u32_compute_probe(
    retained: &mut RetainedProbes,
    resources: Vec<Acquired>,
    progress: Progress,
    input_words: [u32; 4],
    readback: Readback<[u32; 4]>,
) -> (result: Result<XrGpuU32ComputeProbeResult, String>)
    requires
        old(retained)@.len() < usize::MAX,
    ensures
        final(retained)@ == old(retained)@.push(resources@),
        match readback {
            Readback::Data(output_words) => {
                &&& result matches Ok(report)
                &&& report.input_words == input_words
                &&& report.output_words == output_words
                &&& forall|i: int|
                    0 <= i < 4 ==> #[trigger] report.expected_words@[i] == probe_word(
                        input_words@[i],
                        i,
                    )
                &&& report.word_count == 4
                &&& report.mismatched_words == word_mismatches(
                    output_words@,
                    report.expected_words@,
                )
                &&& report.queue_submit_serial == progress.submit_serial
                &&& report.fence_serial == progress.fence_serial
                &&& report.resource_generation == old(retained)@.len() + 1
                &&& report.pending_retire_count == old(retained)@.len() + 1
                &&& report.retained_resource_count == old(retained)@.len() + 1
                &&& report.retired_after_fence_count == 0
                &&& report.queue_wait_idle_performed == progress.idle
            },
            _ => result matches Err(message) && message@ == readback_failed_text(
                readback,
                "u32 compute probe readback"@,
            ),
        },
{
    let resource_generation: u64 = retained.retain(resources);
    let count: usize = retained.count();
    match readback {
        Readback::Data(output_words) => {
            let expected_words: [u32; 4] = expected_xr_gpu_u32_compute_probe_words(input_words);
            let mismatched_words: usize = count_word_mismatches(&output_words, &expected_words);
            Ok(
                XrGpuU32ComputeProbeResult {
                    input_words,
                    output_words,
                    expected_words,
                    word_count: XR_GPU_U32_COMPUTE_PROBE_WORDS,
                    mismatched_words,
                    queue_submit_serial: progress.submit_serial,
                    fence_serial: progress.fence_serial,
                    resource_generation,
                    pending_retire_count: count,
                    retained_resource_count: count,
                    retired_after_fence_count: 0,
                    queue_wait_idle_performed: progress.idle,
                },
            )
        },
        Readback::CommandsFailed(message) => Err(message),
        Readback::MapFailed(code) => Err(
            subject_failed("map_memory", "u32 compute probe readback", code),
        ),
    }
}

/// The bytes of a storage probe: at least four, in whole words.
pub open spec fn storage_probe_bytes(requested: int) -> int {
    aligned(
        if requested < 4 {
            4
        } else {
            requested
        },
        4,
    )
}

/// The setup of a storage probe.
pub open spec fn storage_setup_steps(bytes: u64) -> Seq<Step> {
    seq![
        Step {
            slot: Slot::Storage,
            op: DeviceOp::HostBuffer { usage: BufferUse::StorageAndTransfer, size: bytes },
            subject: "storage probe",
        },
        Step {
            slot: Slot::Readback,
            op: DeviceOp::HostBuffer { usage: BufferUse::TransferDestination, size: bytes },
            subject: "storage probe",
        },
        Step { slot: Slot::Commands, op: DeviceOp::CommandBuffer, subject: "storage probe" },
        Step { slot: Slot::Fence, op: DeviceOp::Fence, subject: "storage probe" },
    ]
}

/// The commands of a storage probe: fill one buffer with the pattern, copy it to
/// the other, and let the host read that one.
pub open spec fn storage_command_steps(bytes: u64, pattern: u32) -> Seq<Step> {
    seq![
        Step { slot: Slot::Commands, op: DeviceOp::BeginCommands, subject: "storage probe" },
        Step {
            slot: Slot::Commands,
            op: DeviceOp::FillBuffer { buffer: Slot::Storage, size: bytes, word: pattern },
            subject: "storage probe",
        },
        Step {
            slot: Slot::Commands,
            op: DeviceOp::QueueBarrier {
                buffer: Slot::Storage,
                size: bytes,
                before: Access::TransferWrite,
                after: Access::TransferRead,
            },
            subject: "storage probe",
        },
        Step {
            slot: Slot::Commands,
            op: DeviceOp::Barrier { first: Stage::Transfer, second: Stage::Transfer },
            subject: "storage probe",
        },
        Step {
            slot: Slot::Commands,
            op: DeviceOp::CopyBuffer { from: Slot::Storage, to: Slot::Readback, size: bytes },
            subject: "storage probe",
        },
        Step {
            slot: Slot::Commands,
            op: DeviceOp::QueueBarrier {
                buffer: Slot::Readback,
                size: bytes,
                before: Access::TransferWrite,
                after: Access::HostRead,
            },
            subject: "storage probe",
        },
        Step {
            slot: Slot::Commands,
            op: DeviceOp::Barrier { first: Stage::Transfer, second: Stage::Host },
            subject: "storage probe",
        },
        Step { slot: Slot::Commands, op: DeviceOp::EndCommands, subject: "storage probe" },
        Step { slot: Slot::Queue, op: DeviceOp::Submit { counted: false }, subject: "storage probe" },
        Step {
            slot: Slot::Fence,
            op: DeviceOp::WaitFence { completes: false },
            subject: "storage probe",
        },
    ]
}

/// A storage probe as planned.
pub struct StorageProbe {
    pub setup: Setup,
    pub commands: CommandRun,
    pub requested_bytes: usize,
    pub bytes: u64,
    pub pattern: u32,
}

/// What a storage probe reports.
#[derive(Clone, Copy, PartialEq, Eq, Structural, Debug)]
pub struct XrGpuStorageBufferProbeResult {
    pub requested_bytes: usize,
    pub storage_buffer_bytes: usize,
    pub readback_bytes: usize,
    pub pattern: u32,
    pub first_word: u32,
    pub word_count: usize,
    pub mismatched_words: usize,
}

/// How many words differ from the pattern.
pub open spec fn pattern_mismatches(words: Seq<u32>, pattern: u32) -> nat
    decreases words.len(),
{
    if words.len() == 0 {
        0
    } else {
        pattern_mismatches(words.drop_last(), pattern) + if words.last() != pattern {
            1nat
        } else {
            0nat
        }
    }
}

fn count_pattern_mismatches(words: &[u32], pattern: u32) -> (count: usize)
    ensures
        count == pattern_mismatches(words@, pattern),
{
    let mut count: usize = 0;
    let mut i: usize = 0;
    while i < words.len()
        invariant
            i <= words@.len(),
            count <= i,
            count == pattern_mismatches(words@.take(i as int), pattern),
        decreases words@.len() - i,
    {
        proof {
            assert(words@.take(i + 1).drop_last() =~= words@.take(i as int));
            assert(words@.take(i + 1).last() == words@[i as int]);
        }
        if words[i] != pattern {
            count = count + 1;
        }
        i = i + 1;
    }
    assert(words@.take(i as int) =~= words@);
    count
}

/// Plans a storage probe.
pub fn submit_xr_storage_buffer_probe(requested_bytes: usize, pattern: u32) -> (probe: StorageProbe)
    requires
        storage_probe_bytes(requested_bytes as int) <= usize::MAX,
    ensures
        probe.requested_bytes == requested_bytes,
        probe.pattern == pattern,
        probe.bytes == storage_probe_bytes(requested_bytes as int),
        probe.setup.wf(),
        probe.setup.steps@ == storage_setup_steps(probe.bytes),
        probe.setup.done == 0,
        probe.setup.acquired@.len() == 0,
        probe.commands.wf(),
        probe.commands.steps@ == storage_command_steps(probe.bytes, pattern),
        probe.commands.done == 0,
        probe.commands.progress == no_progress(),
{
    let at_least: usize = if requested_bytes < 4 { 4 } else { requested_bytes };
    let bytes: u64 = align_device_size(at_least as u64, 4);
    let setup: Vec<Step> = vec![
        Step {
            slot: Slot::Storage,
            op: DeviceOp::HostBuffer { usage: BufferUse::StorageAndTransfer, size: bytes },
            subject: "storage probe",
        },
        Step {
            slot: Slot::Readback,
            op: DeviceOp::HostBuffer { usage: BufferUse::TransferDestination, size: bytes },
            subject: "storage probe",
        },
        Step { slot: Slot::Commands, op: DeviceOp::CommandBuffer, subject: "storage probe" },
        Step { slot: Slot::Fence, op: DeviceOp::Fence, subject: "storage probe" },
    ];
    let commands: Vec<Step> = vec![
        Step { slot: Slot::Commands, op: DeviceOp::BeginCommands, subject: "storage probe" },
        Step {
            slot: Slot::Commands,
            op: DeviceOp::FillBuffer { buffer: Slot::Storage, size: bytes, word: pattern },
            subject: "storage probe",
        },
        Step {
            slot: Slot::Commands,
            op: DeviceOp::QueueBarrier {
                buffer: Slot::Storage,
                size: bytes,
                before: Access::TransferWrite,
                after: Access::TransferRead,
            },
            subject: "storage probe",
        },
        Step {
            slot: Slot::Commands,
            op: DeviceOp::Barrier { first: Stage::Transfer, second: Stage::Transfer },
            subject: "storage probe",
        },
        Step {
            slot: Slot::Commands,
            op: DeviceOp::CopyBuffer { from: Slot::Storage, to: Slot::Readback, size: bytes },
            subject: "storage probe",
        },
        Step {
            slot: Slot::Commands,
            op: DeviceOp::QueueBarrier {
                buffer: Slot::Readback,
                size: bytes,
                before: Access::TransferWrite,
                after: Access::HostRead,
            },
            subject: "storage probe",
        },
        Step {
            slot: Slot::Commands,
            op: DeviceOp::Barrier { first: Stage::Transfer, second: Stage::Host },
            subject: "storage probe",
        },
        Step { slot: Slot::Commands, op: DeviceOp::EndCommands, subject: "storage probe" },
        Step { slot: Slot::Queue, op: DeviceOp::Submit { counted: false }, subject: "storage probe" },
        Step {
            slot: Slot::Fence,
            op: DeviceOp::WaitFence { completes: false },
            subject: "storage probe",
        },
    ];
    StorageProbe {
        setup: Setup::new(setup),
        commands: CommandRun::new(commands),
        requested_bytes,
        bytes,
        pattern,
    }
}

/// Ends a storage probe. `words` are all the words of the readback buffer. The
/// probe's resources are retained whether or not it succeeded.
pub fn finish_xr_storage_buffer_probe(
    retained: &mut RetainedProbes,
    resources: Vec<Acquired>,
    requested_bytes: usize,
    bytes: u64,
    pattern: u32,
    readback: Readback<Vec<u32>>,
) -> (result: Result<XrGpuStorageBufferProbeResult, String>)
    requires
        old(retained)@.len() < usize::MAX,
        bytes <= usize::MAX,
        readback matches Readback::Data(words) ==> words@.len() == bytes / 4,
    ensures
        final(retained)@ == old(retained)@.push(resources@),
        match readback {
            Readback::Data(words) => result == Ok::<XrGpuStorageBufferProbeResult, String>(
                XrGpuStorageBufferProbeResult {
                    requested_bytes,
                    storage_buffer_bytes: bytes as usize,
                    readback_bytes: bytes as usize,
                    pattern,
                    first_word: if words@.len() > 0 {
                        words@[0]
                    } else {
                        0
                    },
                    word_count: (bytes / 4) as usize,
                    mismatched_words: pattern_mismatches(words@, pattern) as usize,
                },
            ) && pattern_mismatches(words@, pattern) <= usize::MAX,
            _ => result matches Err(message) && message@ == readback_failed_text(
                readback,
                "storage probe readback"@,
            ),
        },
{
    let _ = retained.retain(resources);
    match readback {
        Readback::Data(words) => {
            let first_word: u32 = if words.len() > 0 { words[0] } else { 0 };
            let mismatched_words: usize = count_pattern_mismatches(words.as_slice(), pattern);
            Ok(
                XrGpuStorageBufferProbeResult {
                    requested_bytes,
                    storage_buffer_bytes: bytes as usize,
                    readback_bytes: bytes as usize,
                    pattern,
                    first_word,
                    word_count: (bytes / 4) as usize,
                    mismatched_words,
                },
            )
        },
        Readback::CommandsFailed(message) => Err(message),
        Readback::MapFailed(code) => Err(subject_failed("map_memory", "storage probe readback", code)),
    }
}

/// A sample of the force probe, its numbers by their bits.
#[derive(Clone, Copy, PartialEq, Eq, Debug)]
pub struct XrGpuF32ForceProbeSample {
    pub position_radius: [u32; 4],
    pub distance_target_strength: [u32; 4],
    pub outward: [u32; 4],
    pub expected_acceleration: [u32; 4],
}

/// The accelerations that the samples expect.
pub fn expected_xr_gpu_f32_force_probe_accelerations(
    samples: [XrGpuF32ForceProbeSample; 4],
) -> (expected: [[u32; 4]; 4])
    ensures
        forall|i: int| 0 <= i < 4 ==> #[trigger] expected@[i] == samples@[i].expected_acceleration,
{
    let expected: [[u32; 4]; 4] = [
        samples[0].expected_acceleration,
        samples[1].expected_acceleration,
        samples[2].expected_acceleration,
        samples[3].expected_acceleration,
    ];
    expected
}

/// The number of samples that are used.
pub open spec fn usable_samples(requested: usize, available: usize) -> usize {
    if requested < available {
        requested
    } else {
        available
    }
}

/// A force probe as planned.
pub struct ForceProbe {
    pub setup: Setup,
    pub commands: CommandRun,
    pub sample_count: usize,
    pub tolerance: u32,
}

/// What a force probe reports, numbers by their bits.
#[derive(Clone, Copy, PartialEq, Eq, Debug)]
pub struct XrGpuF32ForceProbeResult {
    pub samples: [XrGpuF32ForceProbeSample; 4],
    pub output_accelerations: [[u32; 4]; 4],
    pub expected_accelerations: [[u32; 4]; 4],
    pub sample_count: usize,
    pub component_count: usize,
    pub mismatched_components: usize,
    pub max_abs_error: u32,
    pub tolerance: u32,
    pub queue_submit_serial: u64,
    pub fence_serial: u64,
    pub resource_generation: u64,
    pub pending_retire_count: usize,
    pub retained_resource_count: usize,
    pub retired_after_fence_count: usize,
    pub queue_wait_idle_performed: bool,
}

/// The output of a force probe: the accelerations, and the absolute differences of
/// the three components of each used sample from what was expected.
pub struct ForceReadback {
    pub output_accelerations: [[u32; 4]; 4],
    pub differences: Vec<u32>,
}

/// Plans a force probe. `tolerance` is given by its bits.
pub fn submit_xr_f32_force_probe(sample_count: usize, tolerance: u32) -> (probe: ForceProbe)
    ensures
        probe.sample_count == usable_samples(sample_count, 4),
        probe.tolerance == usable_tolerance(tolerance),
        probe.setup.wf(),
        probe.setup.steps@ == compute_setup_steps(
            "f32 force probe",
            ComputeProgram::ForceSamples,
            FORCE_PROBE_INPUT_BYTES,
            FORCE_PROBE_OUTPUT_BYTES,
        ),
        probe.setup.done == 0,
        probe.setup.acquired@.len() == 0,
        probe.commands.wf(),
        probe.commands.steps@ == compute_command_steps(
            "f32 force probe",
            FORCE_PROBE_INPUT_BYTES,
            FORCE_PROBE_OUTPUT_BYTES,
        ),
        probe.commands.done == 0,
        probe.commands.progress == no_progress(),
{
    let setup: Vec<Step> = compute_setup(
        "f32 force probe",
        ComputeProgram::ForceSamples,
        FORCE_PROBE_INPUT_BYTES,
        FORCE_PROBE_OUTPUT_BYTES,
    );
    let commands: Vec<Step> = compute_commands(
        "f32 force probe",
        FORCE_PROBE_INPUT_BYTES,
        FORCE_PROBE_OUTPUT_BYTES,
    );
    ForceProbe {
        setup: Setup::new(setup),
        commands: CommandRun::new(commands),
        sample_count: if sample_count < XR_GPU_F32_FORCE_PROBE_SAMPLES {
            sample_count
        } else {
            XR_GPU_F32_FORCE_PROBE_SAMPLES
        },
        tolerance: sanitize_tolerance(tolerance),
    }
}

/// Ends a force probe. Its resources are retained whether or not it succeeded.
pub fn finish_xr_f32_force_probe(
    retained: &mut RetainedProbes,
    resources: Vec<Acquired>,
    progress: Progress,
    samples: [XrGpuF32ForceProbeSample; 4],
    sample_count: usize,
    tolerance: u32,
    readback: Readback<ForceReadback>,
) -> (result: Result<XrGpuF32ForceProbeResult, String>)
    requires
        old(retained)@.len() < usize::MAX,
        sample_count <= 4,
        readback matches Readback::Data(data) ==> data.differences@.len() == sample_count * 3,
    ensures
        final(retained)@ == old(retained)@.push(resources@),
        match readback {
            Readback::Data(data) => {
                &&& result matches Ok(report)
                &&& report.samples == samples
                &&& report.output_accelerations == data.output_accelerations
                &&& forall|i: int|
                    0 <= i < 4 ==> #[trigger] report.expected_accelerations@[i]
                        == samples@[i].expected_acceleration
                &&& report.sample_count == sample_count
                &&& report.component_count == sample_count * 3
                &&& report.mismatched_components == mismatch_count(data.differences@, tolerance)
                &&& report.max_abs_error == largest_difference(data.differences@)
                &&& report.tolerance == tolerance
                &&& report.queue_submit_serial == progress.submit_serial
                &&& report.fence_serial == progress.fence_serial
                &&& report.resource_generation == old(retained)@.len() + 1
                &&& report.pending_retire_count == old(retained)@.len() + 1
                &&& report.retained_resource_count == old(retained)@.len() + 1
                &&& report.retired_after_fence_count == 0
                &&& report.queue_wait_idle_performed == progress.idle
            },
            _ => result matches Err(message) && message@ == readback_failed_text(
                readback,
                "f32 force probe readback"@,
            ),
        },
{
    let resource_generation: u64 = retained.retain(resources);
    let count: usize = retained.count();
    match readback {
        Readback::Data(data) => {
            let tally: DifferenceTally = tally_differences(data.differences.as_slice(), tolerance);
            Ok(
                XrGpuF32ForceProbeResult {
                    samples,
                    output_accelerations: data.output_accelerations,
                    expected_accelerations: expected_xr_gpu_f32_force_probe_accelerations(samples),
                    sample_count,
                    component_count: sample_count * 3,
                    mismatched_components: tally.mismatched,
                    max_abs_error: tally.max_abs_error,
                    tolerance,
                    queue_submit_serial: progress.submit_serial,
                    fence_serial: progress.fence_serial,
                    resource_generation,
                    pending_retire_count: count,
                    retained_resource_count: count,
                    retired_after_fence_count: 0,
                    queue_wait_idle_performed: progress.idle,
                },
            )
        },
        Readback::CommandsFailed(message) => Err(message),
        Readback::MapFailed(code) => Err(
            subject_failed("map_memory", "f32 force probe readback", code),
        ),
    }
}

/// The integer probe can be undone: what it makes of a word at a place comes from that
/// word alone, and the word at the first place is only turned over bit by bit.
pub proof fn law_probe_words_come_from_one_word(word: u32, other: u32, index: int)
    requires
        0 <= index < 4,
    ensures
        probe_word(word, index) == probe_word(other, index) ==> word == other,
        probe_word(word, 0) == word ^ 0xA5A5_5A5Au32 ^ 0x5DF0_ADF1u32,
        (probe_word(word, index) ^ 0x5DF0_ADF1u32) as int == ((word ^ 0xA5A5_5A5Au32) + index * 17)
            % 0x1_0000_0000,
{
    let a = word ^ 0xA5A5_5A5Au32;
    let b = other ^ 0xA5A5_5A5Au32;
    let x = ((a + index * 17) % 0x1_0000_0000) as u32;
    let y = ((b + index * 17) % 0x1_0000_0000) as u32;
    assert(x ^ 0x5DF0_ADF1u32 == y ^ 0x5DF0_ADF1u32 ==> x == y) by (bit_vector);
    assert((x ^ 0x5DF0_ADF1u32) ^ 0x5DF0_ADF1u32 == x) by (bit_vector);
    assert(word ^ 0xA5A5_5A5Au32 == other ^ 0xA5A5_5A5Au32 ==> word == other) by (bit_vector);
    if probe_word(word, index) == probe_word(other, index) {
        assert(x == y);
        assert(a == b);
    }
    assert(((a + 0 * 17) % 0x1_0000_0000) as u32 == a);
}

/// A readback matches exactly where every word is the one that was expected, and each
/// word that is not counts once.
pub proof fn law_word_mismatches_count_the_differing(output: Seq<u32>, expected: Seq<u32>)
    requires
        output.len() <= expected.len(),
    ensures
        word_mismatches(output, expected) <= output.len(),
        word_mismatches(output, expected) == 0 <==> forall|i: int|
            0 <= i < output.len() ==> #[trigger] output[i] == expected[i],
        word_mismatches(output, expected) == output.len() <==> forall|i: int|
            0 <= i < output.len() ==> #[trigger] output[i] != expected[i],
    decreases output.len(),
{
    if output.len() > 0 {
        let before = output.drop_last();
        law_word_mismatches_count_the_differing(before, expected);
        let n = output.len() - 1;
        assert(forall|i: int| 0 <= i < n ==> before[i] == output[i]);
        assert(output[n] == output.last());
        if word_mismatches(before, expected) != 0 {
            let i = choose|i: int| 0 <= i < n && #[trigger] before[i] != expected[i];
            assert(output[i] != expected[i]);
        }
        if word_mismatches(before, expected) != n {
            let i = choose|i: int| 0 <= i < n && #[trigger] before[i] == expected[i];
            assert(output[i] == expected[i]);
        }
    }
}

/// A buffer holds the pattern exactly where every word is it, and each word that is not
/// counts once.
pub proof fn law_pattern_mismatches_count_the_differing(words: Seq<u32>, pattern: u32)
    ensures
        pattern_mismatches(words, pattern) <= words.len(),
        pattern_mismatches(words, pattern) == 0 <==> forall|i: int|
            0 <= i < words.len() ==> #[trigger] words[i] == pattern,
        pattern_mismatches(words, pattern) == words.len() <==> forall|i: int|
            0 <= i < words.len() ==> #[trigger] words[i] != pattern,
    decreases words.len(),
{
    if words.len() > 0 {
        let before = words.drop_last();
        law_pattern_mismatches_count_the_differing(before, pattern);
        let n = words.len() - 1;
        assert(forall|i: int| 0 <= i < n ==> before[i] == words[i]);
        assert(words[n] == words.last());
        if pattern_mismatches(before, pattern) != 0 {
            let i = choose|i: int| 0 <= i < n && #[trigger] before[i] != pattern;
            assert(words[i] != pattern);
        }
        if pattern_mismatches(before, pattern) != n {
            let i = choose|i: int| 0 <= i < n && #[trigger] before[i] == pattern;
            assert(words[i] == pattern);
        }
    }
}

/// A storage probe has room for what was asked for, in whole words, and for less than a
/// word more unless less than one was asked for.
pub proof fn law_storage_probe_has_room(requested: int)
    requires
        requested >= 0,
    ensures
        storage_probe_bytes(requested) >= requested,
        storage_probe_bytes(requested) % 4 == 0,
        storage_probe_bytes(requested) >= 4,
        requested >= 4 ==> storage_probe_bytes(requested) < requested + 4,
        requested <= 4 ==> storage_probe_bytes(requested) == 4,
{
    let size = if requested < 4 {
        4
    } else {
        requested
    };
    let least = ((size + 3) / 4) * 4;
    assert(least % 4 == 0);
    crate::vulkan::buffers::law_aligned_is_least_multiple(size, 4, least);
}

/// As many samples are used as are asked for and there.
pub proof fn law_usable_samples_are_the_fewer(requested: usize, available: usize)
    ensures
        usable_samples(requested, available) <= requested,
        usable_samples(requested, available) <= available,
        usable_samples(requested, available) == requested || usable_samples(requested, available)
            == available,
{
}

/// What failed while data was read back is said as it came, or with the code of the
/// mapping and with its subject.
pub proof fn law_failed_readbacks_are_told<T>(readback: Readback<T>, subject: Seq<char>)
    ensures
        readback is CommandsFailed ==> readback_failed_text(readback, subject)
            == readback->CommandsFailed_0@,
        readback is MapFailed ==> readback_failed_text(readback, subject) == "map_memory"@ + "("@
            + subject + ")"@ + " failed: "@ + vk_result_debug(readback->MapFailed_0),
{
}

/// The shader sees the whole of both buffers, and each barrier covers all of its buffer.
pub proof fn law_compute_buffers_are_used_whole(
    subject: &'static str,
    program: ComputeProgram,
    input: u64,
    output: u64,
    i: int,
)
    ensures
        ({
            let setup = compute_setup_steps(subject, program, input, output);
            let commands = compute_command_steps(subject, input, output);
            let whole = |slot: Slot|
                if slot is Input {
                    input
                } else {
                    output
                };
            &&& 0 <= i < setup.len() ==> setup[i].subject == subject
            &&& 0 <= i < commands.len() ==> commands[i].subject == subject
            &&& 0 <= i < setup.len() && setup[i].op is QueueStorageWrite ==> whole(
                setup[i].op->QueueStorageWrite_buffer,
            ) == setup[i].op->QueueStorageWrite_range
            &&& 0 <= i < setup.len() && setup[i].op is HostBuffer ==> whole(setup[i].slot)
                == setup[i].op->HostBuffer_size
            &&& 0 <= i < setup.len() && setup[i].op is HostBufferWithData ==> whole(setup[i].slot)
                == setup[i].op->HostBufferWithData_size
            &&& 0 <= i < commands.len() && commands[i].op is QueueBarrier ==> whole(
                commands[i].op->QueueBarrier_buffer,
            ) == commands[i].op->QueueBarrier_size
        }),
{
}

} // verus!

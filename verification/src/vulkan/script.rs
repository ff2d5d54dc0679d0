//! Scripts of device calls: what is asked of the device, in which order, and what
//! is given back when a call fails.

use vstd::prelude::*;

use crate::vulkan::failure::subject_failed;
use crate::vulkan::serials::SubmitSerials;
#[allow(unused_imports)]
use crate::vulkan::failure::subject_failed_text;

verus! {

/// The compute programs that scripts run.
#[derive(Clone, Copy, PartialEq, Eq, Structural, Debug)]
pub enum ComputeProgram {
    U32Words,
    ForceSamples,
    FieldForceSamples,
    SkinningMesh,
    MeshSdfSkinning,
    MeshSdfBuild,
}

/// The places of one script, each holding what one step produced or what the
/// script was handed.
#[derive(Clone, Copy, PartialEq, Eq, Structural, Debug)]
pub enum Slot {
    Code,
    BuildCode,
    Input,
    Output,
    Storage,
    Readback,
    Vertices,
    Triangles,
    Positions,
    Observations,
    Distances,
    Params,
    Grid,
    Module,
    BuildModule,
    SetLayout,
    PipelineLayout,
    Pipeline,
    BuildPipeline,
    Pool,
    Descriptors,
    Commands,
    Fence,
    Queue,
}

/// What a host-visible buffer is made for.
#[derive(Clone, Copy, PartialEq, Eq, Structural, Debug)]
pub enum BufferUse {
    Storage,
    StorageAndTransfer,
    TransferDestination,
}

/// Who touches a buffer on one side of a barrier.
#[derive(Clone, Copy, PartialEq, Eq, Structural, Debug)]
pub enum Access {
    HostWrite,
    HostRead,
    ShaderWrite,
    ShaderRead,
    TransferWrite,
    TransferRead,
}

/// The pipeline stage on one side of a barrier.
#[derive(Clone, Copy, PartialEq, Eq, Structural, Debug)]
pub enum Stage {
    Host,
    Compute,
    Transfer,
}

/// One request to the device.
///
/// A barrier on several buffers is a run of `QueueBarrier` requests followed by
/// the `Barrier` that issues them in one call. A descriptor update is a run of
/// `QueueStorageWrite` requests followed by `UpdateSets`.
#[derive(Clone, Copy, PartialEq, Eq, Structural, Debug)]
pub enum DeviceOp {
    CompileShader { program: ComputeProgram },
    HostBuffer { usage: BufferUse, size: u64 },
    HostBufferWithData { usage: BufferUse, size: u64 },
    ShaderModule { code: Slot },
    StorageSetLayout { bindings: u32 },
    PipelineLayout { set_layout: Slot },
    ComputePipeline { module: Slot, layout: Slot, program: ComputeProgram },
    StoragePool { descriptors: u32 },
    DescriptorSet { pool: Slot, layout: Slot },
    CommandBuffer,
    Fence,
    QueueStorageWrite { binding: u32, buffer: Slot, range: u64 },
    UpdateSets,
    BeginCommands,
    QueueBarrier { buffer: Slot, size: u64, before: Access, after: Access },
    Barrier { first: Stage, second: Stage },
    BindPipeline { pipeline: Slot },
    BindSet { layout: Slot },
    Dispatch { groups: u32 },
    FillBuffer { buffer: Slot, size: u64, word: u32 },
    CopyBuffer { from: Slot, to: Slot, size: u64 },
    EndCommands,
    Submit { counted: bool },
    WaitFence { completes: bool },
    WaitIdle { completes: bool },
    CollectRetired,
}

/// One step of a script. `slot` names what the step produces or works on, and
/// `subject` says in error messages on whose behalf the call was made.
#[derive(Clone, Copy)]
pub struct Step {
    pub slot: Slot,
    pub op: DeviceOp,
    pub subject: &'static str,
}

/// How something that a step produced is given back.
#[derive(Clone, Copy, PartialEq, Eq, Structural, Debug)]
pub enum Release {
    Buffer,
    ShaderModule,
    SetLayout,
    PipelineLayout,
    Pipeline,
    Pool,
    Commands,
    Fence,
}

/// Something that a script holds and has to give back. `memory` is the backing
/// allocation of a buffer, zero for everything else.
#[derive(Clone, Copy, PartialEq, Eq, Structural, Debug)]
pub struct Acquired {
    pub slot: Slot,
    pub release: Release,
    pub handle: u64,
    pub memory: u64,
}

/// Why a step failed: a result code of the device, or a message of the work that
/// the step stands for.
pub enum StepFailure {
    Code(i32),
    Message(String),
}

/// How what `op` produces is given back; nothing where nothing is owed. A
/// descriptor set goes with its pool.
pub open spec fn release_of(op: DeviceOp) -> Option<Release> {
    match op {
        DeviceOp::HostBuffer { .. } => Some(Release::Buffer),
        DeviceOp::HostBufferWithData { .. } => Some(Release::Buffer),
        DeviceOp::ShaderModule { .. } => Some(Release::ShaderModule),
        DeviceOp::StorageSetLayout { .. } => Some(Release::SetLayout),
        DeviceOp::PipelineLayout { .. } => Some(Release::PipelineLayout),
        DeviceOp::ComputePipeline { .. } => Some(Release::Pipeline),
        DeviceOp::StoragePool { .. } => Some(Release::Pool),
        DeviceOp::CommandBuffer => Some(Release::Commands),
        DeviceOp::Fence => Some(Release::Fence),
        _ => None,
    }
}

fn find_release(op: DeviceOp) -> (release: Option<Release>)
    ensures
        release == release_of(op),
{
    match op {
        DeviceOp::HostBuffer { .. } => Some(Release::Buffer),
        DeviceOp::HostBufferWithData { .. } => Some(Release::Buffer),
        DeviceOp::ShaderModule { .. } => Some(Release::ShaderModule),
        DeviceOp::StorageSetLayout { .. } => Some(Release::SetLayout),
        DeviceOp::PipelineLayout { .. } => Some(Release::PipelineLayout),
        DeviceOp::ComputePipeline { .. } => Some(Release::Pipeline),
        DeviceOp::StoragePool { .. } => Some(Release::Pool),
        DeviceOp::CommandBuffer => Some(Release::Commands),
        DeviceOp::Fence => Some(Release::Fence),
        _ => None,
    }
}

/// What the steps of `steps`, all done, leave to be given back, in the order in
/// which it was produced.
pub open spec fn owed(steps: Seq<Step>) -> Seq<(Slot, Release)>
    decreases steps.len(),
{
    if steps.len() == 0 {
        seq![]
    } else {
        let before = owed(steps.drop_last());
        match release_of(steps.last().op) {
            Some(release) => before.push((steps.last().slot, release)),
            None => before,
        }
    }
}

/// The slots and kinds of what is held.
pub open spec fn held(acquired: Seq<Acquired>) -> Seq<(Slot, Release)> {
    acquired.map_values(|a: Acquired| (a.slot, a.release))
}

/// The name of the device call that `op` makes. Empty for a step that makes none
/// itself: such a step cannot fail, or fails with a message of its own.
pub open spec fn call_name_text(op: DeviceOp) -> Seq<char> {
    match op {
        DeviceOp::ShaderModule { .. } => "create_shader_module"@,
        DeviceOp::StorageSetLayout { .. } => "create_descriptor_set_layout"@,
        DeviceOp::PipelineLayout { .. } => "create_pipeline_layout"@,
        DeviceOp::ComputePipeline { .. } => "create_compute_pipelines"@,
        DeviceOp::StoragePool { .. } => "create_descriptor_pool"@,
        DeviceOp::DescriptorSet { .. } => "allocate_descriptor_sets"@,
        DeviceOp::CommandBuffer => "allocate_command_buffers"@,
        DeviceOp::Fence => "create_fence"@,
        DeviceOp::BeginCommands => "begin_command_buffer"@,
        DeviceOp::EndCommands => "end_command_buffer"@,
        DeviceOp::Submit { .. } => "queue_submit"@,
        DeviceOp::WaitFence { .. } => "wait_for_fences"@,
        DeviceOp::WaitIdle { .. } => "queue_wait_idle"@,
        _ => ""@,
    }
}

fn call_name(op: DeviceOp) -> (name: &'static str)
    ensures
        name@ == call_name_text(op),
{
    match op {
        DeviceOp::ShaderModule { .. } => "create_shader_module",
        DeviceOp::StorageSetLayout { .. } => "create_descriptor_set_layout",
        DeviceOp::PipelineLayout { .. } => "create_pipeline_layout",
        DeviceOp::ComputePipeline { .. } => "create_compute_pipelines",
        DeviceOp::StoragePool { .. } => "create_descriptor_pool",
        DeviceOp::DescriptorSet { .. } => "allocate_descriptor_sets",
        DeviceOp::CommandBuffer => "allocate_command_buffers",
        DeviceOp::Fence => "create_fence",
        DeviceOp::BeginCommands => "begin_command_buffer",
        DeviceOp::EndCommands => "end_command_buffer",
        DeviceOp::Submit { .. } => "queue_submit",
        DeviceOp::WaitFence { .. } => "wait_for_fences",
        DeviceOp::WaitIdle { .. } => "queue_wait_idle",
        _ => "",
    }
}

/// The message for a step that failed: the call, its subject and the device's
/// result code, or the message that came with the failure.
pub open spec fn failure_text(step: Step, failure: StepFailure) -> Seq<char> {
    match failure {
        StepFailure::Code(code) => subject_failed_text(
            call_name_text(step.op),
            step.subject@,
            code,
        ),
        StepFailure::Message(message) => message@,
    }
}

/// Builds the message for a step that failed.
pub fn failure_message(step: Step, failure: StepFailure) -> (message: String)
    ensures
        message@ == failure_text(step, failure),
{
    match failure {
        StepFailure::Code(code) => subject_failed(call_name(step.op), step.subject, code),
        StepFailure::Message(message) => message,
    }
}

/// A script that acquires what later work needs. A failed step gives back all
/// that the steps before it produced.
pub struct Setup {
    pub steps: Vec<Step>,
    pub done: usize,
    pub acquired: Vec<Acquired>,
}

/// What is left of a script that failed: what to give back, in order, and the
/// message.
pub struct SetupFailure {
    pub releases: Vec<Acquired>,
    pub message: String,
}

impl Setup {
    /// The steps done so far have left exactly what is held.
    pub open spec fn wf(&self) -> bool {
        &&& self.done <= self.steps@.len()
        &&& held(self.acquired@) == owed(self.steps@.take(self.done as int))
    }

    /// Starts a script.
    pub fn new(steps: Vec<Step>) -> (setup: Setup)
        ensures
            setup.wf(),
            setup.steps@ == steps@,
            setup.done == 0,
            setup.acquired@ == Seq::<Acquired>::empty(),
    {
        let setup = Setup { steps, done: 0, acquired: Vec::new() };
        assert(setup.steps@.take(0) =~= Seq::<Step>::empty());
        assert(held(setup.acquired@) =~= Seq::<(Slot, Release)>::empty());
        setup
    }

    /// The step to perform, or nothing where the script is done.
    pub fn next(&self) -> (step: Option<Step>)
        requires
            self.wf(),
        ensures
            step == (if self.done < self.steps@.len() {
                Some(self.steps@[self.done as int])
            } else {
                None
            }),
    {
        if self.done < self.steps.len() {
            Some(self.steps[self.done])
        } else {
            None
        }
    }

    /// Records that the current step succeeded. `handle` and `memory` are what it
    /// produced; they are kept where something has to be given back.
    pub fn succeed(&mut self, handle: u64, memory: u64)
        requires
            old(self).wf(),
            old(self).done < old(self).steps@.len(),
        ensures
            final(self).wf(),
            final(self).steps@ == old(self).steps@,
            final(self).done == old(self).done + 1,
            ({
                let step = old(self).steps@[old(self).done as int];
                final(self).acquired@ == (match release_of(step.op) {
                    Some(release) => old(self).acquired@.push(
                        (Acquired { slot: step.slot, release, handle, memory }),
                    ),
                    None => old(self).acquired@,
                })
            }),
    {
        let count: usize = self.steps.len();
        assert(self.done < count);
        let step = self.steps[self.done];
        let ghost before = self.acquired@;
        match find_release(step.op) {
            Some(release) => {
                self.acquired.push(Acquired { slot: step.slot, release, handle, memory });
            },
            None => {},
        }
        self.done = self.done + 1;
        proof {
            let now = self.steps@.take(self.done as int);
            assert(now.drop_last() =~= self.steps@.take(self.done - 1));
            assert(now.last() == step);
            assert(held(self.acquired@) =~= owed(now));
        }
    }

    /// Ends the script at a failed step: everything that it holds is given back,
    /// the latest first.
    pub fn fail(self, failure: StepFailure) -> (left: SetupFailure)
        requires
            self.wf(),
            self.done < self.steps@.len(),
        ensures
            left.releases@ == self.acquired@.reverse(),
            left.message@ == failure_text(self.steps@[self.done as int], failure),
    {
        let step = self.steps[self.done];
        SetupFailure { releases: reversed(&self.acquired), message: failure_message(step, failure) }
    }
}

/// How far the commands of a script have come: the submissions as a whole, and
/// what this script's own submission has reached.
#[derive(Clone, Copy, PartialEq, Eq, Structural, Debug)]
pub struct Progress {
    pub submit_serial: u64,
    pub fence_serial: u64,
    pub idle: bool,
}

/// What the success of `op` changes.
pub open spec fn after_op(serials: SubmitSerials, progress: Progress, op: DeviceOp) -> (
    SubmitSerials,
    Progress,
) {
    match op {
        DeviceOp::Submit { counted: true } => (
            serials.submitted_one(),
            Progress { submit_serial: serials.submitted_one().submitted, ..progress },
        ),
        DeviceOp::WaitFence { completes } => (
            if completes {
                serials.completed_through(progress.submit_serial)
            } else {
                serials
            },
            Progress { fence_serial: progress.submit_serial, ..progress },
        ),
        DeviceOp::WaitIdle { completes } => (
            if completes {
                serials.completed_through(progress.submit_serial)
            } else {
                serials
            },
            Progress { idle: true, ..progress },
        ),
        _ => (serials, progress),
    }
}

/// What the success of all of `steps`, in order, changes.
pub open spec fn after_steps(serials: SubmitSerials, progress: Progress, steps: Seq<Step>) -> (
    SubmitSerials,
    Progress,
)
    decreases steps.len(),
{
    if steps.len() == 0 {
        (serials, progress)
    } else {
        let before = after_steps(serials, progress, steps.drop_last());
        after_op(before.0, before.1, steps.last().op)
    }
}

/// The progress of a script none of whose commands has run.
pub open spec fn no_progress() -> Progress {
    Progress { submit_serial: 0, fence_serial: 0, idle: false }
}

/// The commands of a script: recorded, submitted and waited for.
pub struct CommandRun {
    pub steps: Vec<Step>,
    pub done: usize,
    pub progress: Progress,
}

impl CommandRun {
    /// No more steps are done than there are.
    pub open spec fn wf(&self) -> bool {
        self.done <= self.steps@.len()
    }

    /// Starts the commands.
    pub fn new(steps: Vec<Step>) -> (run: CommandRun)
        ensures
            run.wf(),
            run.steps@ == steps@,
            run.done == 0,
            run.progress == no_progress(),
    {
        CommandRun {
            steps,
            done: 0,
            progress: Progress { submit_serial: 0, fence_serial: 0, idle: false },
        }
    }

    /// The step to perform, or nothing where all are done.
    pub fn next(&self) -> (step: Option<Step>)
        requires
            self.wf(),
        ensures
            step == (if self.done < self.steps@.len() {
                Some(self.steps@[self.done as int])
            } else {
                None
            }),
    {
        if self.done < self.steps.len() {
            Some(self.steps[self.done])
        } else {
            None
        }
    }

    /// Records that the current step succeeded.
    pub fn succeed(&mut self, serials: &mut SubmitSerials)
        requires
            old(self).wf(),
            old(self).done < old(self).steps@.len(),
        ensures
            final(self).wf(),
            final(self).steps@ == old(self).steps@,
            final(self).done == old(self).done + 1,
            (*final(serials), final(self).progress) == after_op(
                *old(serials),
                old(self).progress,
                old(self).steps@[old(self).done as int].op,
            ),
    {
        let count: usize = self.steps.len();
        assert(self.done < count);
        let step = self.steps[self.done];
        match step.op {
            DeviceOp::Submit { counted } => {
                if counted {
                    let serial: u64 = serials.record_submit();
                    self.progress.submit_serial = serial;
                }
            },
            DeviceOp::WaitFence { completes } => {
                if completes {
                    serials.record_completion(self.progress.submit_serial);
                }
                self.progress.fence_serial = self.progress.submit_serial;
            },
            DeviceOp::WaitIdle { completes } => {
                if completes {
                    serials.record_completion(self.progress.submit_serial);
                }
                self.progress.idle = true;
            },
            _ => {},
        }
        self.done = self.done + 1;
    }

    /// The message for a failure of the current step.
    pub fn fail(&self, failure: StepFailure) -> (message: String)
        requires
            self.wf(),
            self.done < self.steps@.len(),
        ensures
            message@ == failure_text(self.steps@[self.done as int], failure),
    {
        failure_message(self.steps[self.done], failure)
    }
}

/// The items of `items`, the last one first.
pub fn reversed(items: &Vec<Acquired>) -> (result: Vec<Acquired>)
    ensures
        result@ == items@.reverse(),
{
    let mut result: Vec<Acquired> = Vec::new();
    let mut i: usize = items.len();
    while i > 0
        invariant
            i <= items@.len(),
            result@ == items@.skip(i as int).reverse(),
        decreases i,
    {
        i = i - 1;
        result.push(items[i]);
        assert(result@ =~= items@.skip(i as int).reverse());
    }
    assert(items@.skip(0) =~= items@);
    result
}

/// What two scripts one after the other owe is what the first owes, then what the
/// second owes.
pub proof fn law_owed_concat(first: Seq<Step>, second: Seq<Step>)
    ensures
        owed(first + second) == owed(first) + owed(second),
    decreases second.len(),
{
    if second.len() == 0 {
        assert(first + second =~= first);
        assert(owed(first) + owed(second) =~= owed(first));
    } else {
        law_owed_concat(first, second.drop_last());
        assert((first + second).drop_last() =~= first + second.drop_last());
        assert((first + second).last() == second.last());
        assert(owed(first + second) =~= owed(first) + owed(second));
    }
}

/// A script that fails gives back exactly what it acquired, each thing once, and
/// what was acquired later is given back earlier.
pub proof fn law_failure_gives_back_all(setup: Setup, releases: Seq<Acquired>)
    requires
        setup.wf(),
        releases == setup.acquired@.reverse(),
    ensures
        held(releases) == owed(setup.steps@.take(setup.done as int)).reverse(),
        releases.len() == setup.acquired@.len(),
        forall|i: int|
            0 <= i < releases.len() ==> releases[i] == setup.acquired@[releases.len() - 1 - i],
{
    assert(held(releases) =~= held(setup.acquired@).reverse());
}

/// A step that makes something leaves it to be given back, as what it made; a step that
/// makes nothing leaves nothing.
pub proof fn law_made_objects_are_given_back(op: DeviceOp)
    ensures
        release_of(op) is Some <==> {
            ||| op is HostBuffer
            ||| op is HostBufferWithData
            ||| op is ShaderModule
            ||| op is StorageSetLayout
            ||| op is PipelineLayout
            ||| op is ComputePipeline
            ||| op is StoragePool
            ||| op is CommandBuffer
            ||| op is Fence
        },
        op is HostBuffer || op is HostBufferWithData ==> release_of(op) == Some(Release::Buffer),
        op is ShaderModule ==> release_of(op) == Some(Release::ShaderModule),
        op is StorageSetLayout ==> release_of(op) == Some(Release::SetLayout),
        op is PipelineLayout ==> release_of(op) == Some(Release::PipelineLayout),
        op is ComputePipeline ==> release_of(op) == Some(Release::Pipeline),
        op is StoragePool ==> release_of(op) == Some(Release::Pool),
        op is CommandBuffer ==> release_of(op) == Some(Release::Commands),
        op is Fence ==> release_of(op) == Some(Release::Fence),
{
}

/// Only a submission that is counted takes a serial, only a wait that completes completes
/// one, and it completes the script's own.
pub proof fn law_steps_move_the_serials(
    serials: SubmitSerials,
    progress: Progress,
    op: DeviceOp,
)
    ensures
        ({
            let after = after_op(serials, progress, op);
            &&& after.0.submitted != serials.submitted ==> op is Submit && op->counted
            &&& op is Submit && op->counted ==> after.1.submit_serial == after.0.submitted && (
            serials.submitted < u64::MAX ==> after.0.submitted == serials.submitted + 1)
            &&& after.0.completed != serials.completed ==> {
                &&& op is WaitFence && op->WaitFence_completes || op is WaitIdle
                    && op->WaitIdle_completes
                &&& after.0.completed == progress.submit_serial
            }
            &&& (op is WaitFence && op->WaitFence_completes || op is WaitIdle
                && op->WaitIdle_completes) ==> after.0.completed >= progress.submit_serial
            &&& op is WaitFence ==> after.1.fence_serial == progress.submit_serial
            &&& after.1.idle <==> progress.idle || op is WaitIdle
        }),
{
}

/// A failed step names its call, unless it has a message of its own, which is handed on.
pub proof fn law_failed_steps_are_named(step: Step, code: i32, message: String)
    ensures
        failure_text(step, StepFailure::Message(message)) == message@,
        step.op is Submit ==> failure_text(step, StepFailure::Code(code)) == subject_failed_text(
            "queue_submit"@,
            step.subject@,
            code,
        ),
        step.op is WaitFence ==> failure_text(step, StepFailure::Code(code))
            == subject_failed_text("wait_for_fences"@, step.subject@, code),
        step.op is ComputePipeline ==> failure_text(step, StepFailure::Code(code))
            == subject_failed_text("create_compute_pipelines"@, step.subject@, code),
{
}

} // verus!

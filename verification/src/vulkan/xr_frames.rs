//! The frames of an OpenXR session that are in flight.

use vstd::prelude::*;

use crate::vulkan::buffers::VulkanBuffer;
use crate::vulkan::codes::RESULT_NOT_READY;
use crate::vulkan::failure::subject_failed;
#[allow(unused_imports)]
use crate::vulkan::failure::subject_failed_text;
#[allow(unused_imports)]
use crate::vulkan::frame_resources::SliceBuffer;
use crate::vulkan::frame_resources::FrameResources;
use crate::vulkan::init::VulkanInit;
use crate::vulkan::serials::SubmitSerials;

verus! {

/// How many frames a session starts with.
pub const XR_MAX_FRAMES_IN_FLIGHT: u32 = 3;

/// How many frames there are at most.
pub const XR_MAX_FRAMES_IN_FLIGHT_LIMIT: u32 = 8;

/// What a frame needs while the device works on it. A query pool of zero is none, and
/// so is a fence.
pub struct VulkanXrInFlightFrame {
    pub frame_resources: FrameResources,
    pub command_buffer: u64,
    pub fence: u64,
    pub timestamp_query_pool: u64,
    pub pending_timestamp_query: bool,
    pub submit_serial: u64,
}

impl VulkanXrInFlightFrame {
    /// What the frame borrows is in order.
    pub open spec fn wf(&self) -> bool {
        self.frame_resources.wf()
    }
}

/// Something of a frame that goes back to the device.
#[derive(Clone, Copy, PartialEq, Eq, Structural, Debug)]
pub enum FrameRelease {
    DescriptorPool(u64),
    Buffer(VulkanBuffer),
    QueryPool(u64),
    Fence(u64),
}

/// What a frame holds besides what it borrows: its query pool, if any, and its fence.
pub open spec fn own_objects(frame: VulkanXrInFlightFrame) -> Seq<FrameRelease> {
    (if frame.timestamp_query_pool != 0 {
        seq![FrameRelease::QueryPool(frame.timestamp_query_pool)]
    } else {
        seq![]
    }) + (if frame.fence != 0 {
        seq![FrameRelease::Fence(frame.fence)]
    } else {
        seq![]
    })
}

/// What the first `n` frames hold besides what they borrow, frame by frame.
pub open spec fn frame_objects(frames: Seq<VulkanXrInFlightFrame>, n: int) -> Seq<FrameRelease>
    decreases n,
{
    if n <= 0 {
        seq![]
    } else {
        frame_objects(frames, n - 1) + own_objects(frames[n - 1])
    }
}

/// What a frame gives back, in order: the descriptor pools and the buffers that it
/// borrows, and then its own objects.
pub open spec fn frame_releases(frame: VulkanXrInFlightFrame) -> Seq<FrameRelease> {
    frame.frame_resources.descriptor_pools@.map_values(
        |pool: u64| FrameRelease::DescriptorPool(pool),
    ) + borrowed_buffers(frame.frame_resources).map_values(
        |buffer: VulkanBuffer| FrameRelease::Buffer(buffer),
    ) + own_objects(frame)
}

/// What the first `n` frames give back, frame by frame.
pub open spec fn all_frame_releases(frames: Seq<VulkanXrInFlightFrame>, n: int) -> Seq<FrameRelease>
    decreases n,
{
    if n <= 0 {
        seq![]
    } else {
        all_frame_releases(frames, n - 1) + frame_releases(frames[n - 1])
    }
}

fn append_buffers(releases: &mut Vec<FrameRelease>, buffers: &Vec<VulkanBuffer>)
    ensures
        final(releases)@ == old(releases)@ + buffers@.map_values(
            |buffer: VulkanBuffer| FrameRelease::Buffer(buffer),
        ),
{
    let ghost wanted = buffers@.map_values(|buffer: VulkanBuffer| FrameRelease::Buffer(buffer));
    let ghost start = releases@;
    let mut i: usize = 0;
    assert(releases@ =~= start + wanted.take(0));
    while i < buffers.len()
        invariant
            i <= buffers@.len(),
            wanted == buffers@.map_values(|buffer: VulkanBuffer| FrameRelease::Buffer(buffer)),
            releases@ == start + wanted.take(i as int),
        decreases buffers@.len() - i,
    {
        releases.push(FrameRelease::Buffer(buffers[i]));
        i = i + 1;
        assert(releases@ =~= start + wanted.take(i as int));
    }
    assert(wanted.take(i as int) =~= wanted);
}

impl VulkanXrInFlightFrame {
    fn append_own_objects(&self, releases: &mut Vec<FrameRelease>)
        ensures
            final(releases)@ == old(releases)@ + own_objects(*self),
    {
        if self.timestamp_query_pool != 0 {
            releases.push(FrameRelease::QueryPool(self.timestamp_query_pool));
        }
        if self.fence != 0 {
            releases.push(FrameRelease::Fence(self.fence));
        }
        assert(releases@ =~= old(releases)@ + own_objects(*self));
    }

    /// Lists what the frame gives back: what it borrows, and then its own objects.
    pub fn list_releases(&self) -> (releases: Vec<FrameRelease>)
        ensures
            releases@ == frame_releases(*self),
    {
        let mut releases: Vec<FrameRelease> = Vec::new();
        let pools: &Vec<u64> = &self.frame_resources.descriptor_pools;
        let ghost wanted = pools@.map_values(|pool: u64| FrameRelease::DescriptorPool(pool));
        let mut i: usize = 0;
        while i < pools.len()
            invariant
                i <= pools@.len(),
                wanted == pools@.map_values(|pool: u64| FrameRelease::DescriptorPool(pool)),
                releases@ == wanted.take(i as int),
            decreases pools@.len() - i,
        {
            releases.push(FrameRelease::DescriptorPool(pools[i]));
            i = i + 1;
            assert(releases@ =~= wanted.take(i as int));
        }
        assert(wanted.take(i as int) =~= wanted);
        append_buffers(&mut releases, &self.frame_resources.buffers);
        match self.frame_resources.packets.buffer {
            Some(buffer) => {
                releases.push(FrameRelease::Buffer(buffer));
            },
            None => {},
        }
        match self.frame_resources.uploads.buffer {
            Some(buffer) => {
                releases.push(FrameRelease::Buffer(buffer));
            },
            None => {},
        }
        assert(releases@ =~= wanted + borrowed_buffers(self.frame_resources).map_values(
            |buffer: VulkanBuffer| FrameRelease::Buffer(buffer),
        ));
        self.append_own_objects(&mut releases);
        releases
    }
}

fn list_frame_objects(frames: &Vec<VulkanXrInFlightFrame>) -> (releases: Vec<FrameRelease>)
    ensures
        releases@ == frame_objects(frames@, frames@.len() as int),
{
    let mut releases: Vec<FrameRelease> = Vec::new();
    let mut i: usize = 0;
    while i < frames.len()
        invariant
            i <= frames@.len(),
            releases@ == frame_objects(frames@, i as int),
        decreases frames@.len() - i,
    {
        frames[i].append_own_objects(&mut releases);
        i = i + 1;
    }
    releases
}

/// The query pool of a frame: none where the device does not time its work or where
/// the pool could not be made.
pub fn create_xr_timestamp_query_pool(supported: bool, created: Result<u64, i32>) -> (pool: u64)
    ensures
        pool == (match created {
            Ok(handle) => if supported {
                handle
            } else {
                0
            },
            Err(_) => 0,
        }),
{
    if !supported {
        return 0;
    }
    match created {
        Ok(handle) => handle,
        Err(_) => 0,
    }
}

/// Frames that are being made, one for each command buffer.
pub struct XrFramesBuild {
    pub command_buffers: Vec<u64>,
    pub frames: Vec<VulkanXrInFlightFrame>,
}

/// How the making of frames ended that failed: what is given back, then all command
/// buffers, and the error.
pub struct XrFramesFailure {
    pub releases: Vec<FrameRelease>,
    pub command_buffers: Vec<u64>,
    pub message: String,
}

/// A frame that was just made.
pub open spec fn is_new_frame(
    frame: VulkanXrInFlightFrame,
    command_buffer: u64,
    fence: u64,
    timestamp_query_pool: u64,
) -> bool {
    &&& frame.wf()
    &&& frame.frame_resources.buffers@.len() == 0
    &&& frame.frame_resources.descriptor_pools@.len() == 0
    &&& frame.frame_resources.packets == (SliceBuffer { buffer: None, used: 0 })
    &&& frame.frame_resources.uploads == (SliceBuffer { buffer: None, used: 0 })
    &&& frame.command_buffer == command_buffer
    &&& frame.fence == fence
    &&& frame.timestamp_query_pool == timestamp_query_pool
    &&& !frame.pending_timestamp_query
    &&& frame.submit_serial == 0
}

impl XrFramesBuild {
    /// The frames that were made have the first command buffers.
    pub open spec fn wf(&self) -> bool {
        &&& self.frames@.len() <= self.command_buffers@.len()
        &&& forall|i: int|
            0 <= i < self.frames@.len() ==> (#[trigger] self.frames@[i]).wf()
                && self.frames@[i].command_buffer == self.command_buffers@[i]
                && self.frames@[i].submit_serial == 0
    }

    /// Begins with the command buffers that were asked for.
    pub fn create_xr_in_flight_frames(command_buffers: Result<Vec<u64>, i32>) -> (build: Result<
        XrFramesBuild,
        String,
    >)
        ensures
            match command_buffers {
                Ok(list) => build matches Ok(build) && build.wf() && build.command_buffers@
                    == list@ && build.frames@.len() == 0,
                Err(code) => build matches Err(message) && message@ == subject_failed_text(
                    "allocate_command_buffers"@,
                    "openxr inflight"@,
                    code,
                ),
            },
    {
        match command_buffers {
            Ok(list) => Ok(XrFramesBuild { command_buffers: list, frames: Vec::new() }),
            Err(code) => Err(subject_failed("allocate_command_buffers", "openxr inflight", code)),
        }
    }

    /// Makes the next frame with its fence and its query pool.
    pub fn fence_created(&mut self, fence: u64, timestamp_query_pool: u64)
        requires
            old(self).wf(),
            old(self).frames@.len() < old(self).command_buffers@.len(),
        ensures
            final(self).wf(),
            final(self).command_buffers@ == old(self).command_buffers@,
            final(self).frames@.len() == old(self).frames@.len() + 1,
            final(self).frames@.drop_last() == old(self).frames@,
            is_new_frame(
                final(self).frames@.last(),
                old(self).command_buffers@[old(self).frames@.len() as int],
                fence,
                timestamp_query_pool,
            ),
    {
        let command_buffer: u64 = self.command_buffers[self.frames.len()];
        self.frames.push(
            VulkanXrInFlightFrame {
                frame_resources: FrameResources::new(),
                command_buffer,
                fence,
                timestamp_query_pool,
                pending_timestamp_query: false,
                submit_serial: 0,
            },
        );
        assert(self.frames@.drop_last() =~= old(self).frames@);
    }

    /// Ends after a fence could not be made.
    pub fn fence_failed(self, code: i32) -> (failure: XrFramesFailure)
        ensures
            failure.releases@ == frame_objects(self.frames@, self.frames@.len() as int),
            failure.command_buffers@ == self.command_buffers@,
            failure.message@ == subject_failed_text("create_fence"@, "openxr inflight"@, code),
    {
        let releases: Vec<FrameRelease> = list_frame_objects(&self.frames);
        XrFramesFailure {
            releases,
            command_buffers: self.command_buffers,
            message: subject_failed("create_fence", "openxr inflight", code),
        }
    }
}

/// The frames in flight. `index` is the frame that is preferred next.
pub struct XrFrames {
    pub frames: Vec<VulkanXrInFlightFrame>,
    pub index: usize,
}

/// Which frame is used next.
pub enum FrameChoice {
    /// There are no frames: the backend's own command buffer is used.
    Own,
    /// It has to be asked first whether this frame is done.
    Ask(usize),
    Use(usize),
    /// One more frame has to be made, and used.
    Append,
}

/// Whether a frame is done, from its fence's status; nothing where the status is an
/// error.
pub open spec fn status_ready(status: Result<bool, i32>) -> Option<bool> {
    match status {
        Ok(ready) => Some(ready),
        Err(code) => if code == RESULT_NOT_READY {
            Some(false)
        } else {
            None
        },
    }
}

/// Whether a frame is done. One without a fence is, and its fence is not asked.
pub fn xr_in_flight_frame_is_ready(fence: u64, status: Result<bool, i32>) -> (ready: Result<
    bool,
    String,
>)
    ensures
        if fence == 0 {
            ready == Ok::<bool, String>(true)
        } else {
            match status_ready(status) {
                Some(answer) => ready == Ok::<bool, String>(answer),
                None => ready matches Err(message) && message@ == subject_failed_text(
                    "get_fence_status"@,
                    "openxr inflight"@,
                    status->Err_0,
                ),
            }
        },
{
    if fence == 0 {
        return Ok(true);
    }
    match status {
        Ok(answer) => Ok(answer),
        Err(code) => {
            if code == RESULT_NOT_READY {
                Ok(false)
            } else {
                Err(subject_failed("get_fence_status", "openxr inflight", code))
            }
        },
    }
}

/// The frame that is asked after `asked` others.
pub open spec fn asked_frame(index: int, len: int, asked: int) -> int {
    (index % len + asked) % len
}

/// The choice after the answers for the first frames that were asked. Each answer but
/// the last one is that a frame is not done.
pub open spec fn chosen_frame(frames: XrFrames, answers: Seq<bool>) -> FrameChoice {
    let len = frames.frames@.len() as int;
    if len == 0 {
        FrameChoice::Own
    } else if answers.len() > 0 && answers.last() {
        FrameChoice::Use(asked_frame(frames.index as int, len, answers.len() - 1) as usize)
    } else if answers.len() < len {
        FrameChoice::Ask(asked_frame(frames.index as int, len, answers.len() as int) as usize)
    } else if len < XR_MAX_FRAMES_IN_FLIGHT_LIMIT {
        FrameChoice::Append
    } else {
        FrameChoice::Use((frames.index as int % len) as usize)
    }
}

/// Where a frame stands that is made ready to be used again: the work that is next.
#[derive(Clone, Copy, PartialEq, Eq, Structural, Debug)]
pub enum RecycleStage {
    WaitFence,
    CollectRetired,
    ReadTimestamps,
    ReplaceQueryPool,
    ResetPools,
    ResetFence,
    ResetCommands,
    Done,
}

/// The call of a stage that can fail.
pub open spec fn recycle_call(stage: RecycleStage) -> Seq<char> {
    match stage {
        RecycleStage::WaitFence => "wait_for_fences"@,
        RecycleStage::ResetPools => "reset_descriptor_pool"@,
        RecycleStage::ResetFence => "reset_fences"@,
        _ => "reset_command_buffer"@,
    }
}

/// A stage whose call can fail.
pub open spec fn recycle_can_fail(stage: RecycleStage) -> bool {
    stage == RecycleStage::WaitFence || stage == RecycleStage::ResetPools || stage
        == RecycleStage::ResetFence || stage == RecycleStage::ResetCommands
}

/// The message for a stage whose call failed.
pub fn recycle_failed(stage: RecycleStage, code: i32) -> (message: String)
    requires
        recycle_can_fail(stage),
    ensures
        message@ == subject_failed_text(recycle_call(stage), "openxr inflight"@, code),
{
    match stage {
        RecycleStage::WaitFence => subject_failed("wait_for_fences", "openxr inflight", code),
        RecycleStage::ResetPools => subject_failed("reset_descriptor_pool", "openxr inflight", code),
        RecycleStage::ResetFence => subject_failed("reset_fences", "openxr inflight", code),
        _ => subject_failed("reset_command_buffer", "openxr inflight", code),
    }
}

/// The stage that follows once the work of a stage is done. Timestamps are read only
/// where they are pending, and a query pool is replaced only where there is one.
pub open spec fn stage_after(frame: VulkanXrInFlightFrame, stage: RecycleStage) -> RecycleStage {
    match stage {
        RecycleStage::WaitFence => RecycleStage::CollectRetired,
        RecycleStage::CollectRetired => if frame.timestamp_query_pool == 0 {
            RecycleStage::ResetPools
        } else if frame.pending_timestamp_query {
            RecycleStage::ReadTimestamps
        } else {
            RecycleStage::ReplaceQueryPool
        },
        RecycleStage::ReadTimestamps => RecycleStage::ReplaceQueryPool,
        RecycleStage::ReplaceQueryPool => RecycleStage::ResetPools,
        RecycleStage::ResetPools => RecycleStage::ResetFence,
        RecycleStage::ResetFence => RecycleStage::ResetCommands,
        RecycleStage::ResetCommands => RecycleStage::Done,
        RecycleStage::Done => RecycleStage::Done,
    }
}

/// How many stages are left at most, with the one that is next.
pub open spec fn stages_left(stage: RecycleStage) -> nat {
    match stage {
        RecycleStage::WaitFence => 7,
        RecycleStage::CollectRetired => 6,
        RecycleStage::ReadTimestamps => 5,
        RecycleStage::ReplaceQueryPool => 4,
        RecycleStage::ResetPools => 3,
        RecycleStage::ResetFence => 2,
        RecycleStage::ResetCommands => 1,
        RecycleStage::Done => 0,
    }
}

impl VulkanXrInFlightFrame {
    /// What follows once the work of a stage is done. The stages come to an end.
    pub fn next_stage(&self, stage: RecycleStage) -> (next: RecycleStage)
        ensures
            next == stage_after(*self, stage),
            stage != RecycleStage::Done ==> stages_left(next) < stages_left(stage),
    {
        match stage {
            RecycleStage::WaitFence => RecycleStage::CollectRetired,
            RecycleStage::CollectRetired => {
                if self.timestamp_query_pool == 0 {
                    RecycleStage::ResetPools
                } else if self.pending_timestamp_query {
                    RecycleStage::ReadTimestamps
                } else {
                    RecycleStage::ReplaceQueryPool
                }
            },
            RecycleStage::ReadTimestamps => RecycleStage::ReplaceQueryPool,
            RecycleStage::ReplaceQueryPool => RecycleStage::ResetPools,
            RecycleStage::ResetPools => RecycleStage::ResetFence,
            RecycleStage::ResetFence => RecycleStage::ResetCommands,
            RecycleStage::ResetCommands | RecycleStage::Done => RecycleStage::Done,
        }
    }

    /// Notes that the device is done with the frame, and with all that was submitted
    /// before it.
    pub fn fence_waited(&mut self, serials: &mut SubmitSerials)
        ensures
            *final(serials) == old(serials).completed_through(old(self).submit_serial),
            *final(self) == (VulkanXrInFlightFrame { submit_serial: 0, ..*old(self) }),
    {
        serials.record_completion(self.submit_serial);
        self.submit_serial = 0;
    }

    /// Takes the two timestamps of the frame, and gives how far apart they are. They
    /// say nothing where they could not be read or run backwards.
    pub fn timestamps_read(&mut self, timestamps: Result<(u64, u64), i32>) -> (ticks: Option<u64>)
        ensures
            *final(self) == (VulkanXrInFlightFrame {
                pending_timestamp_query: false,
                ..*old(self)
            }),
            ticks == (match timestamps {
                Ok(pair) => if pair.1 >= pair.0 {
                    Some((pair.1 - pair.0) as u64)
                } else {
                    None
                },
                Err(_) => None,
            }),
    {
        self.pending_timestamp_query = false;
        match timestamps {
            Ok(pair) => {
                if pair.1 >= pair.0 {
                    Some(pair.1 - pair.0)
                } else {
                    None
                }
            },
            Err(_) => None,
        }
    }

    /// Takes a new query pool, and gives the old one back.
    pub fn query_pool_replaced(&mut self, pool: u64) -> (replaced: u64)
        ensures
            *final(self) == (VulkanXrInFlightFrame { timestamp_query_pool: pool, ..*old(self) }),
            replaced == old(self).timestamp_query_pool,
    {
        let replaced: u64 = self.timestamp_query_pool;
        self.timestamp_query_pool = pool;
        replaced
    }

    /// Makes what the frame borrows ready once its pools were reset, and gives its
    /// buffers back.
    pub fn pools_reset(&mut self) -> (releases: Vec<VulkanBuffer>)
        requires
            old(self).wf(),
        ensures
            final(self).wf(),
            releases@ == old(self).frame_resources.buffers@,
            final(self).frame_resources.buffers@.len() == 0,
            final(self).frame_resources.packets == (SliceBuffer {
                used: 0,
                ..old(self).frame_resources.packets
            }),
            final(self).frame_resources.uploads == (SliceBuffer {
                used: 0,
                ..old(self).frame_resources.uploads
            }),
            final(self).frame_resources.descriptor_pools@
                == old(self).frame_resources.descriptor_pools@,
            *final(self) == (VulkanXrInFlightFrame {
                frame_resources: final(self).frame_resources,
                ..*old(self)
            }),
    {
        self.frame_resources.recycle_owned_frame_resources()
    }
}

/// What a backend works with while it records a frame.
pub struct CurrentFrame {
    pub frame_resources: FrameResources,
    pub command_buffer: u64,
    pub in_flight_fence: u64,
}

/// How `swap_frame` leaves the two.
pub open spec fn frames_swapped(
    current: CurrentFrame,
    frame: VulkanXrInFlightFrame,
    current_after: CurrentFrame,
    frame_after: VulkanXrInFlightFrame,
) -> bool {
    &&& current_after == (CurrentFrame {
        frame_resources: frame.frame_resources,
        command_buffer: frame.command_buffer,
        in_flight_fence: frame.fence,
    })
    &&& frame_after == (VulkanXrInFlightFrame {
        frame_resources: current.frame_resources,
        command_buffer: current.command_buffer,
        fence: current.in_flight_fence,
        ..frame
    })
}

/// Exchanges what the backend works with and what a frame in flight holds.
pub fn swap_frame(current: &mut CurrentFrame, frame: &mut VulkanXrInFlightFrame)
    ensures
        frames_swapped(*old(current), *old(frame), *final(current), *final(frame)),
{
    std::mem::swap(&mut current.frame_resources, &mut frame.frame_resources);
    let command_buffer: u64 = current.command_buffer;
    current.command_buffer = frame.command_buffer;
    frame.command_buffer = command_buffer;
    let fence: u64 = current.in_flight_fence;
    current.in_flight_fence = frame.fence;
    frame.fence = fence;
}

impl XrFrames {
    /// The preferred frame is one of the frames, unless there is none, and there are
    /// not too many.
    pub open spec fn wf(&self) -> bool {
        &&& self.frames@.len() <= XR_MAX_FRAMES_IN_FLIGHT_LIMIT
        &&& self.index < self.frames@.len() || self.index == 0
        &&& forall|i: int| 0 <= i < self.frames@.len() ==> (#[trigger] self.frames@[i]).wf()
    }

    /// What the serials promise: no frame waits for a submission that was not made.
    pub open spec fn serials_wf(&self, serials: SubmitSerials) -> bool {
        forall|i: int|
            0 <= i < self.frames@.len() ==> (#[trigger] self.frames@[i]).submit_serial
                <= serials.submitted
    }

    /// Starts without frames.
    pub fn new() -> (frames: XrFrames)
        ensures
            frames.wf(),
            frames.frames@.len() == 0,
            frames.index == 0,
    {
        XrFrames { frames: Vec::new(), index: 0 }
    }

    /// Starts with the first frames of a backend that was started for an OpenXR session.
    pub fn started(init: &VulkanInit, build: XrFramesBuild) -> (frames: XrFrames)
        requires
            init.kind is OpenXr,
            build.wf(),
            build.command_buffers@.len() == XR_MAX_FRAMES_IN_FLIGHT,
            build.frames@.len() == build.command_buffers@.len(),
        ensures
            frames.wf(),
            frames.frames@ == build.frames@,
            frames.frames@.len() == XR_MAX_FRAMES_IN_FLIGHT,
            frames.index == 0,
            forall|serials: SubmitSerials| #[trigger] frames.serials_wf(serials),
    {
        XrFrames { frames: build.frames, index: 0 }
    }

    /// Takes over frames that were made.
    pub fn append_xr_in_flight_frames(&mut self, build: XrFramesBuild)
        requires
            old(self).wf(),
            build.wf(),
            old(self).frames@.len() + build.frames@.len() <= XR_MAX_FRAMES_IN_FLIGHT_LIMIT,
        ensures
            final(self).wf(),
            final(self).frames@ == old(self).frames@ + build.frames@,
            final(self).index == old(self).index,
    {
        let mut frames: Vec<VulkanXrInFlightFrame> = build.frames;
        self.frames.append(&mut frames);
        assert forall|i: int| 0 <= i < self.frames@.len() implies (
        #[trigger] self.frames@[i]).wf() by {
            if i >= old(self).frames@.len() {
                assert(self.frames@[i] == build.frames@[i - old(self).frames@.len()]);
            }
        }
    }

    /// Chooses the next frame: the first one that is done, from the preferred one on. If
    /// none is, one more is made as long as there are not too many; else the preferred
    /// one is waited for.
    pub fn select_frame(&self, answers: &Vec<bool>) -> (choice: FrameChoice)
        requires
            self.wf(),
            answers@.len() <= self.frames@.len(),
        ensures
            choice == chosen_frame(*self, answers@),
    {
        let len: usize = self.frames.len();
        if len == 0 {
            return FrameChoice::Own;
        }
        let preferred: usize = self.index % len;
        let asked: usize = answers.len();
        if asked > 0 && answers[asked - 1] {
            FrameChoice::Use((preferred + (asked - 1)) % len)
        } else if asked < len {
            FrameChoice::Ask((preferred + asked) % len)
        } else if len < XR_MAX_FRAMES_IN_FLIGHT_LIMIT as usize {
            FrameChoice::Append
        } else {
            FrameChoice::Use(preferred)
        }
    }

    /// The next frame from `from` on that has a fence to wait for, when all frames are
    /// waited for.
    pub fn wait_for_openxr_idle(&self, from: usize) -> (next: Option<usize>)
        ensures
            match next {
                Some(index) => {
                    &&& from <= index < self.frames@.len()
                    &&& self.frames@[index as int].fence != 0
                    &&& forall|i: int|
                        from <= i < index ==> (#[trigger] self.frames@[i]).fence == 0
                },
                None => forall|i: int|
                    from <= i < self.frames@.len() ==> (#[trigger] self.frames@[i]).fence == 0,
            },
    {
        let mut i: usize = from;
        while i < self.frames.len()
            invariant
                from <= i,
                forall|j: int| from <= j < i ==> (#[trigger] self.frames@[j]).fence == 0,
            decreases self.frames@.len() - i,
        {
            if self.frames[i].fence != 0 {
                return Some(i);
            }
            i = i + 1;
        }
        None
    }

    /// Notes what became of a frame that was recorded. One that was submitted gets the
    /// serial of its submission, and the frame after it is preferred next.
    pub fn frame_recorded(&mut self, frame_index: usize, submitted: bool, serials: &mut SubmitSerials)
        requires
            old(self).wf(),
            old(self).serials_wf(*old(serials)),
            frame_index < old(self).frames@.len(),
        ensures
            final(self).wf(),
            final(self).serials_wf(*final(serials)),
            final(self).frames@.len() == old(self).frames@.len(),
            if submitted {
                &&& *final(serials) == old(serials).submitted_one()
                &&& final(self).index == (frame_index + 1) % (old(self).frames@.len() as int)
                &&& final(self).frames@ == old(self).frames@.update(
                    frame_index as int,
                    VulkanXrInFlightFrame {
                        submit_serial: old(serials).submitted_one().submitted,
                        pending_timestamp_query: old(
                            self,
                        ).frames@[frame_index as int].timestamp_query_pool != 0,
                        ..old(self).frames@[frame_index as int]
                    },
                )
            } else {
                *final(self) == *old(self) && *final(serials) == *old(serials)
            },
    {
        if submitted {
            let serial: u64 = serials.record_submit();
            let pending: bool = self.frames[frame_index].timestamp_query_pool != 0;
            self.frames[frame_index].submit_serial = serial;
            self.frames[frame_index].pending_timestamp_query = pending;
            self.index = (frame_index + 1) % self.frames.len();
        }
    }

    /// Gives all frames up, and says what goes back, frame by frame. Command buffers go
    /// with their pool.
    pub fn destroy_xr_in_flight_frames(&mut self) -> (releases: Vec<FrameRelease>)
        requires
            old(self).wf(),
        ensures
            final(self).wf(),
            final(self).frames@.len() == 0,
            final(self).index == 0,
            releases@ == all_frame_releases(old(self).frames@, old(self).frames@.len() as int),
    {
        let mut releases: Vec<FrameRelease> = Vec::new();
        let mut i: usize = 0;
        while i < self.frames.len()
            invariant
                i <= self.frames@.len(),
                *self == *old(self),
                releases@ == all_frame_releases(self.frames@, i as int),
            decreases self.frames@.len() - i,
        {
            let mut listed: Vec<FrameRelease> = self.frames[i].list_releases();
            releases.append(&mut listed);
            i = i + 1;
        }
        self.frames = Vec::new();
        self.index = 0;
        releases
    }
}

/// The buffers that a frame borrows.
pub open spec fn borrowed_buffers(resources: FrameResources) -> Seq<VulkanBuffer> {
    resources.buffers@ + crate::vulkan::frame_resources::optional_buffer(resources.packets.buffer)
        + crate::vulkan::frame_resources::optional_buffer(resources.uploads.buffer)
}

/// Asking goes round all frames once: within as many answers as there are frames, each
/// frame is asked exactly once.
pub proof fn law_every_frame_is_asked(index: int, len: int, frame: int)
    requires
        0 <= index,
        0 <= frame < len,
    ensures
        exists|asked: int| 0 <= asked < len && #[trigger] asked_frame(index, len, asked) == frame,
        forall|a: int, b: int|
            0 <= a < len && 0 <= b < len && #[trigger] asked_frame(index, len, a)
                == #[trigger] asked_frame(index, len, b) ==> a == b,
{
    let preferred = index % len;
    let asked = if frame >= preferred {
        frame - preferred
    } else {
        frame - preferred + len
    };
    assert(asked_frame(index, len, asked) == frame) by {
        if frame >= preferred {
            vstd::arithmetic::div_mod::lemma_small_mod(frame as nat, len as nat);
        } else {
            vstd::arithmetic::div_mod::lemma_mod_add_multiples_vanish(frame, len);
            vstd::arithmetic::div_mod::lemma_small_mod(frame as nat, len as nat);
        }
    }
    assert forall|a: int, b: int|
        0 <= a < len && 0 <= b < len && #[trigger] asked_frame(index, len, a)
            == #[trigger] asked_frame(index, len, b) implies a == b by {
        lemma_wrapped(preferred, a, len);
        lemma_wrapped(preferred, b, len);
    }
}

proof fn lemma_wrapped(preferred: int, asked: int, len: int)
    requires
        0 <= preferred < len,
        0 <= asked < len,
    ensures
        (preferred + asked) % len == (if preferred + asked < len {
            preferred + asked
        } else {
            preferred + asked - len
        }),
{
    if preferred + asked < len {
        vstd::arithmetic::div_mod::lemma_small_mod((preferred + asked) as nat, len as nat);
    } else {
        vstd::arithmetic::div_mod::lemma_mod_add_multiples_vanish(preferred + asked - len, len);
        vstd::arithmetic::div_mod::lemma_small_mod((preferred + asked - len) as nat, len as nat);
    }
}

/// A frame that is chosen is one of the frames, and its answer was that it is done,
/// unless all frames were asked and no more may be made.
pub proof fn law_chosen_frame_is_done(frames: XrFrames, answers: Seq<bool>)
    requires
        frames.wf(),
        answers.len() <= frames.frames@.len(),
    ensures
        chosen_frame(frames, answers) matches FrameChoice::Use(index) ==> {
            &&& index < frames.frames@.len()
            &&& (answers.len() > 0 && answers.last() && index == asked_frame(
                frames.index as int,
                frames.frames@.len() as int,
                answers.len() - 1,
            )) || (answers.len() == frames.frames@.len() && frames.frames@.len()
                == XR_MAX_FRAMES_IN_FLIGHT_LIMIT)
        },
        chosen_frame(frames, answers) is Append ==> frames.frames@.len()
            < XR_MAX_FRAMES_IN_FLIGHT_LIMIT,
{
    let len = frames.frames@.len() as int;
    if len > 0 && answers.len() > 0 {
        lemma_wrapped(frames.index as int % len, answers.len() - 1, len);
    }
}

/// Waiting for a frame completes its submission and all before it, but nothing that was
/// not submitted.
pub proof fn law_waiting_completes_the_frame(frames: XrFrames, serials: SubmitSerials, i: int)
    requires
        serials.wf(),
        frames.serials_wf(serials),
        0 <= i < frames.frames@.len(),
    ensures
        ({
            let after = serials.completed_through(frames.frames@[i].submit_serial);
            &&& after.wf()
            &&& frames.serials_wf(after)
            &&& frames.frames@[i].submit_serial <= after.completed
            &&& serials.completed <= after.completed
        }),
{
}

/// Exchanging twice puts everything back in place.
pub proof fn law_swap_frame_is_an_involution(
    current: CurrentFrame,
    frame: VulkanXrInFlightFrame,
    current_1: CurrentFrame,
    frame_1: VulkanXrInFlightFrame,
    current_2: CurrentFrame,
    frame_2: VulkanXrInFlightFrame,
)
    requires
        frames_swapped(current, frame, current_1, frame_1),
        frames_swapped(current_1, frame_1, current_2, frame_2),
    ensures
        current_2 == current,
        frame_2 == frame,
{
}

/// A frame gives back all that it has and is not null: its pools, its buffers, and behind
/// them its query pool and its fence.
pub proof fn law_frame_gives_back_all(frame: VulkanXrInFlightFrame, i: int, j: int)
    ensures
        ({
            let releases = frame_releases(frame);
            let pools = frame.frame_resources.descriptor_pools@;
            let buffers = frame.frame_resources.buffers@;
            &&& 0 <= i < pools.len() ==> releases.contains(FrameRelease::DescriptorPool(pools[i]))
            &&& 0 <= j < buffers.len() ==> releases.contains(FrameRelease::Buffer(buffers[j]))
            &&& frame.frame_resources.packets.buffer is Some ==> releases.contains(
                FrameRelease::Buffer(frame.frame_resources.packets.buffer->0),
            )
            &&& frame.frame_resources.uploads.buffer is Some ==> releases.contains(
                FrameRelease::Buffer(frame.frame_resources.uploads.buffer->0),
            )
            &&& frame.timestamp_query_pool != 0 ==> releases.contains(
                FrameRelease::QueryPool(frame.timestamp_query_pool),
            )
            &&& frame.fence != 0 ==> releases.len() > 0 && releases.last() == FrameRelease::Fence(
                frame.fence,
            )
            &&& releases.len() == pools.len() + borrowed_buffers(frame.frame_resources).len()
                + own_objects(frame).len()
            &&& own_objects(frame).len() == (if frame.timestamp_query_pool != 0 {
                1int
            } else {
                0
            }) + (if frame.fence != 0 {
                1int
            } else {
                0
            })
        }),
{
    let releases = frame_releases(frame);
    let pools = frame.frame_resources.descriptor_pools@;
    let borrowed = borrowed_buffers(frame.frame_resources);
    let buffers = frame.frame_resources.buffers@;
    let p = pools.len() as int;
    let b = borrowed.len() as int;
    if 0 <= i < p {
        assert(releases[i] == FrameRelease::DescriptorPool(pools[i]));
    }
    if 0 <= j < buffers.len() {
        assert(borrowed[j] == buffers[j]);
        assert(releases[p + j] == FrameRelease::Buffer(buffers[j]));
    }
    if frame.frame_resources.packets.buffer is Some {
        let n = buffers.len() as int;
        assert(borrowed[n] == frame.frame_resources.packets.buffer->0);
        assert(releases[p + n] == FrameRelease::Buffer(borrowed[n]));
    }
    if frame.frame_resources.uploads.buffer is Some {
        assert(borrowed[b - 1] == frame.frame_resources.uploads.buffer->0);
        assert(releases[p + b - 1] == FrameRelease::Buffer(borrowed[b - 1]));
    }
    if frame.timestamp_query_pool != 0 {
        assert(releases[p + b] == FrameRelease::QueryPool(frame.timestamp_query_pool));
    }
}

/// All frames give back all they have, frame by frame.
pub proof fn law_all_frames_give_back_all(frames: Seq<VulkanXrInFlightFrame>, n: int, i: int)
    requires
        0 <= i < n <= frames.len(),
    ensures
        forall|release: FrameRelease| #[trigger]
            frame_releases(frames[i]).contains(release) ==> all_frame_releases(frames, n).contains(
                release,
            ),
        forall|release: FrameRelease| #[trigger]
            own_objects(frames[i]).contains(release) ==> frame_objects(frames, n).contains(release),
    decreases n,
{
    let all = all_frame_releases(frames, n);
    let before = all_frame_releases(frames, n - 1);
    let objects = frame_objects(frames, n);
    let objects_before = frame_objects(frames, n - 1);
    if i < n - 1 {
        law_all_frames_give_back_all(frames, n - 1, i);
    }
    assert forall|release: FrameRelease| #[trigger]
        frame_releases(frames[i]).contains(release) implies all.contains(release) by {
        if i < n - 1 {
            assert(before.contains(release));
            let k = choose|k: int| 0 <= k < before.len() && before[k] == release;
            assert(all[k] == release);
        } else {
            let last = frame_releases(frames[i]);
            let k = choose|k: int| 0 <= k < last.len() && last[k] == release;
            assert(all[before.len() + k] == release);
        }
    }
    assert forall|release: FrameRelease| #[trigger]
        own_objects(frames[i]).contains(release) implies objects.contains(release) by {
        if i < n - 1 {
            assert(objects_before.contains(release));
            let k = choose|k: int| 0 <= k < objects_before.len() && objects_before[k] == release;
            assert(objects[k] == release);
        } else {
            let last = own_objects(frames[i]);
            let k = choose|k: int| 0 <= k < last.len() && last[k] == release;
            assert(objects[objects_before.len() + k] == release);
        }
    }
}

/// A frame is asked until one answers that it is done, which is then used; where none does
/// another is made while there may be more, else the next in turn is waited for.
pub proof fn law_frames_are_chosen_in_turn(frames: XrFrames, answers: Seq<bool>)
    requires
        frames.wf(),
        answers.len() <= frames.frames@.len(),
        forall|i: int| 0 <= i < answers.len() - 1 ==> !#[trigger] answers[i],
    ensures
        ({
            let len = frames.frames@.len() as int;
            let choice = chosen_frame(frames, answers);
            &&& choice is Own <==> len == 0
            &&& len > 0 && answers.len() == 0 ==> choice == FrameChoice::Ask(frames.index)
            &&& answers.len() > 0 && answers.last() ==> choice is Use
            &&& answers.len() == 1 && answers[0] ==> choice == FrameChoice::Use(frames.index)
            &&& len > 0 && answers.len() == len && !answers.last() ==> (choice is Append <==> len
                < 8)
            &&& len == 8 && answers.len() == len && !answers.last() ==> choice == FrameChoice::Use(
                frames.index,
            )
            &&& choice is Ask ==> choice->Ask_0 < len
            &&& choice is Use ==> choice->Use_0 < len
        }),
{
    let len = frames.frames@.len() as int;
    if len > 0 {
        vstd::arithmetic::div_mod::lemma_small_mod(frames.index as nat, len as nat);
        if answers.len() > 0 {
            vstd::arithmetic::div_mod::lemma_mod_bound(
                frames.index as int % len + (answers.len() - 1),
                len,
            );
        }
        vstd::arithmetic::div_mod::lemma_mod_bound(
            frames.index as int % len + answers.len(),
            len,
        );
        vstd::arithmetic::div_mod::lemma_small_mod((frames.index as int % len) as nat, len as nat);
    }
}

/// A frame is done exactly where its fence says so; not yet is no failure.
pub proof fn law_not_ready_is_no_failure(code: i32, ready: bool)
    ensures
        status_ready(Ok(ready)) == Some(ready),
        status_ready(Err(code)) == if code == 1 {
            Some(false)
        } else {
            None
        },
{
}

/// A frame is made ready in order and no stage is left out but those of timestamps that
/// there are not: its fence is waited for first, and its pools, its fence and its commands
/// are reset at the end.
pub proof fn law_recycling_leaves_no_stage_out(frame: VulkanXrInFlightFrame)
    ensures
        stage_after(frame, RecycleStage::WaitFence) is CollectRetired,
        frame.timestamp_query_pool != 0 && frame.pending_timestamp_query ==> stage_after(
            frame,
            RecycleStage::CollectRetired,
        ) is ReadTimestamps,
        frame.timestamp_query_pool != 0 && !frame.pending_timestamp_query ==> stage_after(
            frame,
            RecycleStage::CollectRetired,
        ) is ReplaceQueryPool,
        frame.timestamp_query_pool == 0 ==> stage_after(
            frame,
            RecycleStage::CollectRetired,
        ) is ResetPools,
        stage_after(frame, RecycleStage::ReadTimestamps) is ReplaceQueryPool,
        stage_after(frame, RecycleStage::ReplaceQueryPool) is ResetPools,
        stage_after(frame, RecycleStage::ResetPools) is ResetFence,
        stage_after(frame, RecycleStage::ResetFence) is ResetCommands,
        stage_after(frame, RecycleStage::ResetCommands) is Done,
        stage_after(frame, RecycleStage::Done) is Done,
{
}

/// A frame that is new holds its own command buffer, fence and query pool, was never
/// submitted, and has used nothing.
pub proof fn law_new_frames_have_used_nothing(
    frame: VulkanXrInFlightFrame,
    command_buffer: u64,
    fence: u64,
    timestamp_query_pool: u64,
)
    requires
        is_new_frame(frame, command_buffer, fence, timestamp_query_pool),
    ensures
        frame.command_buffer == command_buffer && frame.fence == fence,
        frame.timestamp_query_pool == timestamp_query_pool && !frame.pending_timestamp_query,
        frame.submit_serial == 0,
        frame.frame_resources.buffers@.len() == 0,
        frame.frame_resources.descriptor_pools@.len() == 0,
        frame.frame_resources.packets.buffer is None && frame.frame_resources.packets.used == 0,
        frame.frame_resources.uploads.buffer is None && frame.frame_resources.uploads.used == 0,
{
}

/// A failure names the call of its stage, and each stage brings the end nearer.
pub proof fn law_failed_recycling_names_its_call(
    frame: VulkanXrInFlightFrame,
    stage: RecycleStage,
)
    ensures
        stage is WaitFence ==> recycle_call(stage) == "wait_for_fences"@,
        stage is ResetPools ==> recycle_call(stage) == "reset_descriptor_pool"@,
        stage is ResetFence ==> recycle_call(stage) == "reset_fences"@,
        stage is ResetCommands ==> recycle_call(stage) == "reset_command_buffer"@,
        stages_left(stage) == 0 <==> stage is Done,
        !(stage is Done) ==> stages_left(stage_after(frame, stage)) < stages_left(stage),
{
}

} // verus!

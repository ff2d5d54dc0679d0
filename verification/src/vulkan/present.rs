//! One frame from the draw list to the window.

use vstd::prelude::*;

use crate::text::decimal;
#[allow(unused_imports)]
use crate::text::decimal_text;
use crate::vulkan::codes::{RESULT_OUT_OF_DATE, RESULT_SURFACE_LOST};
use crate::vulkan::cx_vulkan::{CxVulkan, SurfaceRelease};
use crate::vulkan::failure::call_failed;
#[allow(unused_imports)]
use crate::vulkan::failure::call_failed_text;
use crate::vulkan::pass_state::{PassRect, PassState};
#[allow(unused_imports)]
use crate::vulkan::pass_state::{painted, pass_is_drawn};
#[allow(unused_imports)]
use crate::vulkan::serials::SubmitSerials;

verus! {

/// Where a frame stands: the work that is to be done next.
#[derive(Clone, Copy, PartialEq, Eq, Structural, Debug)]
pub enum FrameStage {
    WaitFence,
    CollectRetired,
    ResetFence,
    ReleaseFrameResources,
    Acquire,
    /// Ask whether the frame is to be captured.
    AskCapture,
    ResetCommands,
    BeginCommands,
    PrepareTextures,
    /// Record the render pass with the draw list.
    Record,
    CopyCapture,
    EndCommands,
    Submit,
    WaitCapture,
    CollectCaptured,
    ReadCapture,
    Present,
    /// Wait for the frame before the swapchain is made anew; `drawn` is what the
    /// frame then reports.
    WaitRecreate { drawn: bool },
    RecreateSwapchain { drawn: bool },
    Ended,
}

/// What came of the work.
pub enum FrameEvent {
    Done,
    Acquired { image_index: u32, suboptimal: bool },
    Capture(bool),
    Presented { suboptimal: bool },
    Failed(i32),
    FailedWith(String),
}

/// What follows.
pub enum FrameOutcome {
    /// Do the work of the run's new stage.
    Continue,
    /// The frame is over; whether it was drawn.
    Finished(bool),
    /// The surface is lost: wait for the device, give this back, and report that
    /// nothing was drawn.
    SurfaceLost(SurfaceRelease),
    Failed(String),
    /// The event does not belong to the stage.
    Unexpected,
}

/// A frame under way.
#[derive(Clone, Copy, PartialEq, Eq, Structural, Debug)]
pub struct FrameRun {
    pub stage: FrameStage,
    pub image_index: u32,
    pub acquire_suboptimal: bool,
    pub capture: bool,
    pub framebuffer_count: usize,
    pub fence: u64,
}

/// How a message names the call of a stage; a stage without one reports for itself.
pub open spec fn stage_call_text(stage: FrameStage) -> Seq<char> {
    match stage {
        FrameStage::WaitFence => "wait_for_fences"@,
        FrameStage::ResetFence => "reset_fences"@,
        FrameStage::Acquire => "acquire_next_image"@,
        FrameStage::ResetCommands => "reset_command_buffer"@,
        FrameStage::BeginCommands => "begin_command_buffer"@,
        FrameStage::EndCommands => "end_command_buffer"@,
        FrameStage::Submit => "queue_submit"@,
        FrameStage::WaitCapture => "wait_for_fences(swapchain capture)"@,
        FrameStage::Present => "queue_present"@,
        FrameStage::WaitRecreate { drawn: false } =>
            "wait_for_fences(out-of-date swapchain recreate)"@,
        FrameStage::WaitRecreate { drawn: true } =>
            "wait_for_fences(suboptimal swapchain recreate)"@,
        _ => ""@,
    }
}

fn stage_call(stage: FrameStage) -> (text: &'static str)
    ensures
        text@ == stage_call_text(stage),
{
    match stage {
        FrameStage::WaitFence => "wait_for_fences",
        FrameStage::ResetFence => "reset_fences",
        FrameStage::Acquire => "acquire_next_image",
        FrameStage::ResetCommands => "reset_command_buffer",
        FrameStage::BeginCommands => "begin_command_buffer",
        FrameStage::EndCommands => "end_command_buffer",
        FrameStage::Submit => "queue_submit",
        FrameStage::WaitCapture => "wait_for_fences(swapchain capture)",
        FrameStage::Present => "queue_present",
        FrameStage::WaitRecreate { drawn } => {
            if drawn {
                "wait_for_fences(suboptimal swapchain recreate)"
            } else {
                "wait_for_fences(out-of-date swapchain recreate)"
            }
        },
        _ => "",
    }
}

/// The stage after one that succeeded, where that decides nothing else.
pub open spec fn following_stage(stage: FrameStage, capture: bool) -> FrameStage {
    match stage {
        FrameStage::WaitFence => FrameStage::CollectRetired,
        FrameStage::CollectRetired => FrameStage::ResetFence,
        FrameStage::ResetFence => FrameStage::ReleaseFrameResources,
        FrameStage::ReleaseFrameResources => FrameStage::Acquire,
        FrameStage::ResetCommands => FrameStage::BeginCommands,
        FrameStage::BeginCommands => FrameStage::PrepareTextures,
        FrameStage::PrepareTextures => FrameStage::Record,
        FrameStage::Record => if capture {
            FrameStage::CopyCapture
        } else {
            FrameStage::EndCommands
        },
        FrameStage::CopyCapture => FrameStage::EndCommands,
        FrameStage::EndCommands => FrameStage::Submit,
        FrameStage::Submit => if capture {
            FrameStage::WaitCapture
        } else {
            FrameStage::Present
        },
        FrameStage::WaitCapture => FrameStage::CollectCaptured,
        FrameStage::CollectCaptured => FrameStage::ReadCapture,
        FrameStage::ReadCapture => FrameStage::Present,
        FrameStage::WaitRecreate { drawn } => FrameStage::RecreateSwapchain { drawn },
        _ => FrameStage::Ended,
    }
}

fn find_following_stage(stage: FrameStage, capture: bool) -> (next: FrameStage)
    ensures
        next == following_stage(stage, capture),
{
    match stage {
        FrameStage::WaitFence => FrameStage::CollectRetired,
        FrameStage::CollectRetired => FrameStage::ResetFence,
        FrameStage::ResetFence => FrameStage::ReleaseFrameResources,
        FrameStage::ReleaseFrameResources => FrameStage::Acquire,
        FrameStage::ResetCommands => FrameStage::BeginCommands,
        FrameStage::BeginCommands => FrameStage::PrepareTextures,
        FrameStage::PrepareTextures => FrameStage::Record,
        FrameStage::Record => {
            if capture {
                FrameStage::CopyCapture
            } else {
                FrameStage::EndCommands
            }
        },
        FrameStage::CopyCapture => FrameStage::EndCommands,
        FrameStage::EndCommands => FrameStage::Submit,
        FrameStage::Submit => {
            if capture {
                FrameStage::WaitCapture
            } else {
                FrameStage::Present
            }
        },
        FrameStage::WaitCapture => FrameStage::CollectCaptured,
        FrameStage::CollectCaptured => FrameStage::ReadCapture,
        FrameStage::ReadCapture => FrameStage::Present,
        FrameStage::WaitRecreate { drawn } => FrameStage::RecreateSwapchain { drawn },
        _ => FrameStage::Ended,
    }
}

/// Stages that end with `Done` and nothing else.
pub open spec fn is_plain_stage(stage: FrameStage) -> bool {
    !(stage is Acquire) && !(stage is AskCapture) && !(stage is Present) && !(stage is Ended)
}

/// The stage from which the swapchain is made anew: without a fence there is nothing
/// to wait for.
pub open spec fn recreate_stage(fence: u64, drawn: bool) -> FrameStage {
    if fence == 0 {
        FrameStage::RecreateSwapchain { drawn }
    } else {
        FrameStage::WaitRecreate { drawn }
    }
}

fn find_recreate_stage(fence: u64, drawn: bool) -> (stage: FrameStage)
    ensures
        stage == recreate_stage(fence, drawn),
{
    if fence == 0 {
        FrameStage::RecreateSwapchain { drawn }
    } else {
        FrameStage::WaitRecreate { drawn }
    }
}

/// What the success of a stage's work changes in the backend: a waited-for fence
/// completes the frame in flight, a submission puts a frame in flight.
pub open spec fn after_stage(vulkan: CxVulkan, stage: FrameStage) -> CxVulkan {
    match stage {
        FrameStage::WaitFence | FrameStage::WaitCapture => CxVulkan {
            serials: vulkan.serials.completed_through(vulkan.window_in_flight_submit_serial),
            window_in_flight_submit_serial: 0,
            ..vulkan
        },
        FrameStage::Submit => CxVulkan {
            serials: vulkan.serials.submitted_one(),
            window_in_flight_submit_serial: vulkan.serials.submitted_one().submitted,
            ..vulkan
        },
        _ => vulkan,
    }
}

impl CxVulkan {
    /// Begins a frame, or nothing where there is nothing to draw or nothing to draw to.
    /// The pass is painted exactly where a frame begins.
    pub fn draw_pass_and_present(
        &self,
        pass: &mut PassState,
        has_draw_list: bool,
        rect: Option<PassRect>,
        framebuffer_count: usize,
        fence: u64,
    ) -> (run: Option<FrameRun>)
        ensures
            run == (if self.surface != 0 && self.swapchain != 0 && pass_is_drawn(
                has_draw_list,
                rect,
            ) {
                Some(
                    FrameRun {
                        stage: FrameStage::WaitFence,
                        image_index: 0,
                        acquire_suboptimal: false,
                        capture: false,
                        framebuffer_count,
                        fence,
                    },
                )
            } else {
                None
            }),
            *final(pass) == (if run is Some {
                painted(*old(pass), rect->0)
            } else {
                *old(pass)
            }),
    {
        if self.surface == 0 || self.swapchain == 0 || !pass.begin(has_draw_list, rect) {
            return None;
        }
        Some(
            FrameRun {
                stage: FrameStage::WaitFence,
                image_index: 0,
                acquire_suboptimal: false,
                capture: false,
                framebuffer_count,
                fence,
            },
        )
    }
}

fn index_message(start: &str, index: u32) -> (message: String)
    ensures
        message@ == start@ + decimal_text(index as nat),
{
    let mut message: String = start.to_owned();
    let text: String = decimal(index as u64);
    message.append(text.as_str());
    message
}

/// The frame fails with the text.
pub open spec fn frame_failed(outcome: FrameOutcome, text: Seq<char>) -> bool {
    outcome matches FrameOutcome::Failed(message) && message@ =~= text
}

/// What the work of a stage comes to: where the frame and the backend stand after
/// `event`, and what follows.
pub open spec fn frame_advanced(
    before: FrameRun,
    vulkan: CxVulkan,
    event: FrameEvent,
    after: FrameRun,
    vulkan_after: CxVulkan,
    outcome: FrameOutcome,
) -> bool {
    match (before.stage, event) {
        (FrameStage::Acquire, FrameEvent::Acquired { image_index, suboptimal }) => {
            &&& vulkan_after == vulkan
            &&& if image_index >= vulkan.swapchain_image_count {
                &&& frame_failed(
                    outcome,
                    "invalid swapchain image index "@ + decimal_text(image_index as nat),
                )
                &&& after == (FrameRun { stage: FrameStage::Ended, ..before })
            } else {
                &&& outcome is Continue
                &&& after == (FrameRun {
                    stage: FrameStage::AskCapture,
                    image_index,
                    acquire_suboptimal: suboptimal,
                    ..before
                })
            }
        },
        (FrameStage::Acquire, FrameEvent::Failed(code)) => {
            if code == RESULT_OUT_OF_DATE {
                &&& outcome is Continue
                &&& vulkan_after == vulkan
                &&& after == (FrameRun {
                    stage: FrameStage::RecreateSwapchain { drawn: false },
                    ..before
                })
            } else if code == RESULT_SURFACE_LOST {
                &&& outcome == FrameOutcome::SurfaceLost(
                    SurfaceRelease {
                        swapchain: vulkan.swapchain_parts(),
                        surface: vulkan.surface,
                        window: vulkan.window,
                    },
                )
                &&& vulkan_after == (CxVulkan {
                    window: 0,
                    ..vulkan.without_surface()
                })
                &&& after == (FrameRun { stage: FrameStage::Ended, ..before })
            } else {
                &&& frame_failed(outcome, call_failed_text("acquire_next_image"@, code))
                &&& vulkan_after == vulkan
                &&& after == (FrameRun { stage: FrameStage::Ended, ..before })
            }
        },
        (FrameStage::AskCapture, FrameEvent::Capture(capture)) => {
            &&& vulkan_after == vulkan
            &&& if capture && !vulkan.has_readback_buffer {
                &&& frame_failed(
                    outcome,
                    "swapchain capture requested but readback buffer is unavailable"@,
                )
                &&& after == (FrameRun { stage: FrameStage::Ended, ..before })
            } else {
                &&& outcome is Continue
                &&& after == (FrameRun {
                    stage: FrameStage::ResetCommands,
                    capture,
                    ..before
                })
            }
        },
        (FrameStage::Present, FrameEvent::Presented { suboptimal }) => {
            &&& vulkan_after == vulkan
            &&& if before.acquire_suboptimal || suboptimal {
                &&& outcome is Continue
                &&& after == (FrameRun {
                    stage: recreate_stage(before.fence, true),
                    ..before
                })
            } else {
                &&& outcome == FrameOutcome::Finished(true)
                &&& after == (FrameRun { stage: FrameStage::Ended, ..before })
            }
        },
        (FrameStage::Present, FrameEvent::Failed(code)) => {
            if code == RESULT_OUT_OF_DATE {
                &&& outcome is Continue
                &&& vulkan_after == vulkan
                &&& after == (FrameRun {
                    stage: recreate_stage(before.fence, false),
                    ..before
                })
            } else if code == RESULT_SURFACE_LOST {
                &&& outcome == FrameOutcome::SurfaceLost(
                    SurfaceRelease {
                        swapchain: vulkan.swapchain_parts(),
                        surface: vulkan.surface,
                        window: vulkan.window,
                    },
                )
                &&& vulkan_after == (CxVulkan {
                    window: 0,
                    ..vulkan.without_surface()
                })
                &&& after == (FrameRun { stage: FrameStage::Ended, ..before })
            } else {
                &&& frame_failed(outcome, call_failed_text("queue_present"@, code))
                &&& vulkan_after == vulkan
                &&& after == (FrameRun { stage: FrameStage::Ended, ..before })
            }
        },
        (stage, FrameEvent::Done) => if !is_plain_stage(stage) {
            &&& outcome is Unexpected
            &&& vulkan_after == vulkan
            &&& after == before
        } else if stage is PrepareTextures && before.image_index
            >= before.framebuffer_count {
            &&& frame_failed(
                outcome,
                "invalid framebuffer index "@ + decimal_text(before.image_index as nat),
            )
            &&& vulkan_after == vulkan
            &&& after == (FrameRun { stage: FrameStage::Ended, ..before })
        } else {
            &&& vulkan_after == after_stage(vulkan, stage)
            &&& after == (FrameRun {
                stage: following_stage(stage, before.capture),
                ..before
            })
            &&& match stage {
                FrameStage::RecreateSwapchain { drawn } => outcome
                    == FrameOutcome::Finished(drawn),
                _ => outcome is Continue,
            }
        },
        (stage, FrameEvent::Failed(code)) => {
            &&& frame_failed(outcome, call_failed_text(stage_call_text(stage), code))
            &&& vulkan_after == vulkan
            &&& after == (FrameRun { stage: FrameStage::Ended, ..before })
        },
        (_, FrameEvent::FailedWith(text)) => {
            &&& frame_failed(outcome, text@)
            &&& vulkan_after == vulkan
            &&& after == (FrameRun { stage: FrameStage::Ended, ..before })
        },
        _ => {
            &&& outcome is Unexpected
            &&& vulkan_after == vulkan
            &&& after == before
        },
    }
}

impl FrameRun {
    /// Takes what came of the current stage's work.
    pub fn advance(&mut self, vulkan: &mut CxVulkan, event: FrameEvent) -> (outcome: FrameOutcome)
        requires
            old(vulkan).wf(),
        ensures
            final(vulkan).wf(),
            frame_advanced(
                *old(self),
                *old(vulkan),
                event,
                *final(self),
                *final(vulkan),
                outcome,
            ),
    {
        let stage: FrameStage = self.stage;
        match event {
            FrameEvent::Acquired { image_index, suboptimal } => {
                if stage != FrameStage::Acquire {
                    return FrameOutcome::Unexpected;
                }
                if image_index as u64 >= vulkan.swapchain_image_count as u64 {
                    self.stage = FrameStage::Ended;
                    return FrameOutcome::Failed(
                        index_message("invalid swapchain image index ", image_index),
                    );
                }
                self.stage = FrameStage::AskCapture;
                self.image_index = image_index;
                self.acquire_suboptimal = suboptimal;
                FrameOutcome::Continue
            },
            FrameEvent::Capture(capture) => {
                if stage != FrameStage::AskCapture {
                    return FrameOutcome::Unexpected;
                }
                if capture && !vulkan.has_readback_buffer {
                    self.stage = FrameStage::Ended;
                    return FrameOutcome::Failed(
                        "swapchain capture requested but readback buffer is unavailable".to_owned(),
                    );
                }
                self.stage = FrameStage::ResetCommands;
                self.capture = capture;
                FrameOutcome::Continue
            },
            FrameEvent::Presented { suboptimal } => {
                if stage != FrameStage::Present {
                    return FrameOutcome::Unexpected;
                }
                if self.acquire_suboptimal || suboptimal {
                    self.stage = find_recreate_stage(self.fence, true);
                    FrameOutcome::Continue
                } else {
                    self.stage = FrameStage::Ended;
                    FrameOutcome::Finished(true)
                }
            },
            FrameEvent::Failed(code) => {
                if stage == FrameStage::Acquire && code == RESULT_OUT_OF_DATE {
                    self.stage = FrameStage::RecreateSwapchain { drawn: false };
                    return FrameOutcome::Continue;
                }
                if stage == FrameStage::Present && code == RESULT_OUT_OF_DATE {
                    self.stage = find_recreate_stage(self.fence, false);
                    return FrameOutcome::Continue;
                }
                self.stage = FrameStage::Ended;
                if (stage == FrameStage::Acquire || stage == FrameStage::Present) && code
                    == RESULT_SURFACE_LOST {
                    return FrameOutcome::SurfaceLost(vulkan.suspend_surface());
                }
                FrameOutcome::Failed(call_failed(stage_call(stage), code))
            },
            FrameEvent::FailedWith(text) => {
                self.stage = FrameStage::Ended;
                FrameOutcome::Failed(text)
            },
            FrameEvent::Done => {
                match stage {
                    FrameStage::Acquire | FrameStage::AskCapture | FrameStage::Present
                    | FrameStage::Ended => {
                        return FrameOutcome::Unexpected;
                    },
                    FrameStage::WaitFence | FrameStage::WaitCapture => {
                        vulkan.serials.record_completion(vulkan.window_in_flight_submit_serial);
                        vulkan.window_in_flight_submit_serial = 0;
                    },
                    FrameStage::Submit => {
                        let serial: u64 = vulkan.serials.record_submit();
                        vulkan.window_in_flight_submit_serial = serial;
                    },
                    FrameStage::PrepareTextures => {
                        if self.image_index as u64 >= self.framebuffer_count as u64 {
                            self.stage = FrameStage::Ended;
                            return FrameOutcome::Failed(
                                index_message("invalid framebuffer index ", self.image_index),
                            );
                        }
                    },
                    _ => {},
                }
                self.stage = find_following_stage(stage, self.capture);
                match stage {
                    FrameStage::RecreateSwapchain { drawn } => FrameOutcome::Finished(drawn),
                    _ => FrameOutcome::Continue,
                }
            },
        }
    }
}

/// How far a frame is at a stage.
pub open spec fn stage_rank(stage: FrameStage) -> int {
    match stage {
        FrameStage::WaitFence => 0,
        FrameStage::CollectRetired => 1,
        FrameStage::ResetFence => 2,
        FrameStage::ReleaseFrameResources => 3,
        FrameStage::Acquire => 4,
        FrameStage::AskCapture => 5,
        FrameStage::ResetCommands => 6,
        FrameStage::BeginCommands => 7,
        FrameStage::PrepareTextures => 8,
        FrameStage::Record => 9,
        FrameStage::CopyCapture => 10,
        FrameStage::EndCommands => 11,
        FrameStage::Submit => 12,
        FrameStage::WaitCapture => 13,
        FrameStage::CollectCaptured => 14,
        FrameStage::ReadCapture => 15,
        FrameStage::Present => 16,
        FrameStage::WaitRecreate { .. } => 17,
        FrameStage::RecreateSwapchain { .. } => 18,
        FrameStage::Ended => 19,
    }
}

/// A frame only goes forward: every stage that succeeds is followed by a later one, and
/// so is an image that was acquired, a capture that was decided and a frame that was
/// presented or found out of date. So no stage comes twice, and every frame ends.
pub proof fn law_frame_goes_forward(stage: FrameStage, capture: bool, fence: u64, drawn: bool)
    ensures
        is_plain_stage(stage) ==> stage_rank(following_stage(stage, capture)) > stage_rank(stage),
        stage_rank(FrameStage::AskCapture) > stage_rank(FrameStage::Acquire),
        stage_rank(FrameStage::ResetCommands) > stage_rank(FrameStage::AskCapture),
        stage_rank(recreate_stage(fence, drawn)) > stage_rank(FrameStage::Present),
        stage_rank(stage) <= stage_rank(FrameStage::Ended),
{
}

/// One advance of a frame.
pub ghost struct FrameAdvance {
    pub before: FrameRun,
    pub vulkan: CxVulkan,
    pub event: FrameEvent,
    pub after: FrameRun,
    pub vulkan_after: CxVulkan,
    pub outcome: FrameOutcome,
}

impl FrameAdvance {
    /// The frame advanced as it does.
    #[verifier::opaque]
    pub open spec fn holds(self) -> bool {
        frame_advanced(
            self.before,
            self.vulkan,
            self.event,
            self.after,
            self.vulkan_after,
            self.outcome,
        )
    }
}

/// The advances are those of one frame from its beginning: each goes on where the one
/// before it ended, and what is done between them submits no frame.
pub open spec fn is_frame(advances: Seq<FrameAdvance>) -> bool {
    &&& advances.len() > 0
    &&& advances[0].before.stage is WaitFence
    &&& forall|i: int|
        0 <= i < advances.len() ==> (#[trigger] advances[i]).holds()
    &&& forall|i: int|
        0 < i < advances.len() ==> {
            &&& (#[trigger] advances[i]).before == advances[i - 1].after
            &&& advances[i].vulkan.serials.submitted == advances[i
                - 1].vulkan_after.serials.submitted
        }
}

/// The serial at a stage of a frame that began with `serials`: one more than then once the
/// frame was submitted. A swapchain may be made anew, and a frame may end, before or after.
pub open spec fn serial_at(stage: FrameStage, serials: SubmitSerials, submitted: u64) -> bool {
    let one_more = serials.submitted_one().submitted;
    if stage_rank(stage) <= stage_rank(FrameStage::Submit) {
        submitted == serials.submitted
    } else if stage is Ended || stage == (FrameStage::RecreateSwapchain { drawn: false }) {
        submitted == serials.submitted || submitted == one_more
    } else {
        submitted == one_more
    }
}

proof fn lemma_one_advance(advance: FrameAdvance, serials: SubmitSerials)
    requires
        advance.holds(),
        serial_at(advance.before.stage, serials, advance.vulkan.serials.submitted),
    ensures
        serial_at(advance.after.stage, serials, advance.vulkan_after.serials.submitted),
        advance.outcome == FrameOutcome::Finished(true)
            ==> advance.vulkan_after.serials.submitted == serials.submitted_one().submitted,
{
    reveal(FrameAdvance::holds);
}

proof fn lemma_serial_at(advances: Seq<FrameAdvance>, n: int)
    requires
        is_frame(advances),
        0 <= n < advances.len(),
    ensures
        serial_at(
            advances[n].before.stage,
            advances[0].vulkan.serials,
            advances[n].vulkan.serials.submitted,
        ),
        serial_at(
            advances[n].after.stage,
            advances[0].vulkan.serials,
            advances[n].vulkan_after.serials.submitted,
        ),
    decreases n,
{
    if n > 0 {
        lemma_serial_at(advances, n - 1);
        assert(advances[n].before == advances[n - 1].after);
    }
    lemma_one_advance(advances[n], advances[0].vulkan.serials);
}

/// A frame that ends as drawn was submitted exactly once: its serial is the one after
/// that with which the frame began. No frame is submitted more than once, whatever
/// becomes of it.
pub proof fn law_drawn_frame_is_submitted_once(advances: Seq<FrameAdvance>)
    requires
        is_frame(advances),
    ensures
        ({
            let began = advances[0].vulkan.serials;
            let ended = advances.last().vulkan_after.serials;
            &&& advances.last().outcome == FrameOutcome::Finished(true) ==> ended.submitted
                == began.submitted_one().submitted
            &&& ended.submitted == began.submitted || ended.submitted
                == began.submitted_one().submitted
        }),
{
    let n = advances.len() - 1;
    lemma_serial_at(advances, n);
    lemma_one_advance(advances[n], advances[0].vulkan.serials);
}

/// A frame that waits for its fence and then submits leaves exactly itself in
/// flight, and everything before it completed.
pub proof fn law_one_frame_in_flight(vulkan: CxVulkan)
    requires
        vulkan.wf(),
    ensures
        ({
            let waited = after_stage(vulkan, FrameStage::WaitFence);
            let submitted = after_stage(waited, FrameStage::Submit);
            &&& waited.wf()
            &&& submitted.wf()
            &&& waited.serials.completed >= vulkan.window_in_flight_submit_serial
            &&& waited.window_in_flight_submit_serial == 0
            &&& submitted.window_in_flight_submit_serial == submitted.serials.submitted
            &&& submitted.serials.completed == waited.serials.completed
        }),
{
}

/// A frame leaves no stage out: each that succeeds is followed by the next, only a capture
/// that is not asked for is passed over, and what follows the presentation is its end or a
/// new swapchain.
pub proof fn law_frame_leaves_no_stage_out(stage: FrameStage, capture: bool)
    ensures
        ({
            let next = stage_rank(following_stage(stage, capture));
            let here = stage_rank(stage);
            &&& stage is Record && !capture ==> following_stage(stage, capture) is EndCommands
            &&& stage is Submit && !capture ==> following_stage(stage, capture) is Present
            &&& is_plain_stage(stage) && !(stage is Record && !capture) && !(stage is Submit
                && !capture) ==> next == here + 1
            &&& stage is WaitRecreate ==> following_stage(stage, capture)
                == (FrameStage::RecreateSwapchain { drawn: stage->WaitRecreate_drawn })
        }),
{
}

/// A frame that cannot be acquired or presented because the swapchain is stale ends
/// undrawn with a new swapchain; one whose surface is lost lets it go; one that is
/// presented is drawn, with a new swapchain where the old one fits badly.
pub proof fn law_stale_and_lost_frames(advance: FrameAdvance)
    requires
        advance.holds(),
    ensures
        ({
            let before = advance.before;
            let stale = advance.event matches FrameEvent::Failed(code) && code
                == -1_000_001_004;
            let lost = advance.event matches FrameEvent::Failed(code) && code
                == -1_000_000_000;
            &&& before.stage is Acquire && stale ==> advance.outcome is Continue
                && advance.after.stage == (FrameStage::RecreateSwapchain { drawn: false })
            &&& before.stage is Present && stale ==> advance.outcome is Continue && (
            advance.after.stage == (FrameStage::RecreateSwapchain { drawn: false })
                || advance.after.stage == (FrameStage::WaitRecreate { drawn: false }))
            &&& (before.stage is Acquire || before.stage is Present) && lost
                ==> advance.outcome is SurfaceLost && advance.vulkan_after.surface == 0
                && advance.vulkan_after.window == 0 && advance.after.stage is Ended
            &&& before.stage is Present && (advance.event matches FrameEvent::Presented {
                suboptimal,
            } && !suboptimal) && !before.acquire_suboptimal ==> advance.outcome
                == FrameOutcome::Finished(true)
            &&& before.stage is Present && (advance.event matches FrameEvent::Presented {
                suboptimal,
            } && (suboptimal || before.acquire_suboptimal)) ==> advance.outcome is Continue && (
            advance.after.stage == (FrameStage::RecreateSwapchain { drawn: true })
                || advance.after.stage == (FrameStage::WaitRecreate { drawn: true }))
            &&& before.stage is Acquire && (advance.event matches FrameEvent::Acquired {
                image_index,
                suboptimal,
            } && image_index < advance.vulkan.swapchain_image_count) ==> advance.after.image_index
                == advance.event->image_index && advance.after.stage is AskCapture
            &&& before.stage is AskCapture && advance.event == FrameEvent::Capture(true)
                && !advance.vulkan.has_readback_buffer ==> advance.outcome is Failed
            &&& before.stage is PrepareTextures && advance.event is Done && before.image_index
                >= before.framebuffer_count ==> advance.outcome is Failed
            &&& before.stage is WaitFence && advance.event is Done
                ==> advance.vulkan_after.serials.completed
                >= advance.vulkan.window_in_flight_submit_serial
            &&& advance.event is FailedWith ==> advance.outcome is Failed && advance.after.stage
                is Ended
        }),
{
    reveal(FrameAdvance::holds);
}

/// A swapchain is made anew at once where nothing has to be waited for, and whether the
/// frame was drawn is kept.
pub proof fn law_only_a_fence_is_waited_for(fence: u64, drawn: bool)
    ensures
        recreate_stage(fence, drawn) is WaitRecreate <==> fence != 0,
        recreate_stage(fence, drawn) is RecreateSwapchain <==> fence == 0,
        fence != 0 ==> recreate_stage(fence, drawn)->WaitRecreate_drawn == drawn,
        fence == 0 ==> recreate_stage(fence, drawn)->RecreateSwapchain_drawn == drawn,
{
}

} // verus!

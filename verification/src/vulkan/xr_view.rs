//! Drawing a view of an OpenXR session.

use vstd::prelude::*;

use crate::text::decimal;
#[allow(unused_imports)]
use crate::text::decimal_text;
use crate::vulkan::draw_list::VulkanDrawStats;
use crate::vulkan::failure::subject_failed;
#[allow(unused_imports)]
use crate::vulkan::failure::subject_failed_text;
use crate::vulkan::serials::SubmitSerials;
use crate::vulkan::xr_frames::XrFrames;
#[allow(unused_imports)]
use crate::vulkan::xr_frames::VulkanXrInFlightFrame;
use crate::vulkan::xr_session::CxVulkanOpenXrSessionData;

verus! {

/// What was sent to the device while a frame was recorded.
#[derive(Clone, Copy, PartialEq, Eq, Structural, Debug)]
pub struct FrameCounters {
    pub texture_upload_count: u32,
    pub texture_upload_bytes: u64,
    pub packet_buffer_count: u32,
    pub packet_buffer_bytes: u64,
    pub geometry_upload_bytes: u64,
    pub descriptor_set_count: u32,
}

impl FrameCounters {
    /// Starts with nothing sent.
    pub fn new() -> (counters: FrameCounters)
        ensures
            counters == (FrameCounters {
                texture_upload_count: 0,
                texture_upload_bytes: 0,
                packet_buffer_count: 0,
                packet_buffer_bytes: 0,
                geometry_upload_bytes: 0,
                descriptor_set_count: 0,
            }),
    {
        FrameCounters {
            texture_upload_count: 0,
            texture_upload_bytes: 0,
            packet_buffer_count: 0,
            packet_buffer_bytes: 0,
            geometry_upload_bytes: 0,
            descriptor_set_count: 0,
        }
    }

    /// Starts the texture uploads of a frame anew.
    pub fn textures_started(&mut self)
        ensures
            *final(self) == (FrameCounters {
                texture_upload_count: 0,
                texture_upload_bytes: 0,
                ..*old(self)
            }),
    {
        self.texture_upload_count = 0;
        self.texture_upload_bytes = 0;
    }

    /// Counts a packet of `span` bytes.
    pub fn packet_written(&mut self, span: u64)
        requires
            old(self).packet_buffer_count < u32::MAX,
            old(self).packet_buffer_bytes + span <= u64::MAX,
        ensures
            *final(self) == (FrameCounters {
                packet_buffer_count: (old(self).packet_buffer_count + 1) as u32,
                packet_buffer_bytes: (old(self).packet_buffer_bytes + span) as u64,
                ..*old(self)
            }),
    {
        self.packet_buffer_count = self.packet_buffer_count + 1;
        self.packet_buffer_bytes = self.packet_buffer_bytes + span;
    }

    /// Counts the `size` bytes of a buffer of a geometry.
    pub fn geometry_uploaded(&mut self, size: u64)
        requires
            old(self).geometry_upload_bytes + size <= u64::MAX,
        ensures
            *final(self) == (FrameCounters {
                geometry_upload_bytes: (old(self).geometry_upload_bytes + size) as u64,
                ..*old(self)
            }),
    {
        self.geometry_upload_bytes = self.geometry_upload_bytes + size;
    }

    /// Counts a descriptor set.
    pub fn descriptor_set_allocated(&mut self)
        requires
            old(self).descriptor_set_count < u32::MAX,
        ensures
            *final(self) == (FrameCounters {
                descriptor_set_count: (old(self).descriptor_set_count + 1) as u32,
                ..*old(self)
            }),
    {
        self.descriptor_set_count = self.descriptor_set_count + 1;
    }
}

/// The work of one frame of a session, in numbers.
#[derive(Clone, Copy, PartialEq, Eq, Structural, Debug)]
pub struct XrRepaintCounts {
    pub sent: FrameCounters,
    pub draw_items: u64,
    pub draw_calls: u64,
    pub packets: u64,
    pub instances: u64,
    pub indices: u64,
}

/// Collects the numbers of a frame that was submitted.
pub fn repaint_counts(sent: FrameCounters, drawn: &VulkanDrawStats) -> (counts: XrRepaintCounts)
    ensures
        counts == (XrRepaintCounts {
            sent,
            draw_items: drawn.draw_items,
            draw_calls: drawn.draw_calls,
            packets: drawn.packets_recorded,
            instances: drawn.instances,
            indices: drawn.indices,
        }),
{
    XrRepaintCounts {
        sent,
        draw_items: drawn.draw_items,
        draw_calls: drawn.draw_calls,
        packets: drawn.packets_recorded,
        instances: drawn.instances,
        indices: drawn.indices,
    }
}

/// Where the drawing of a view stands: the work that is next.
#[derive(Clone, Copy, PartialEq, Eq, Structural, Debug)]
pub enum ViewStage {
    BeginCommands,
    /// Start the counters anew and drop the geometries that are gone.
    Prune,
    PrepareTextures,
    /// Write the first timestamp, if any, and begin the pass.
    BeginRenderPass,
    Record,
    /// End the pass and write the second timestamp, if any.
    EndRenderPass,
    EndCommands,
    Submit,
    Submitted,
}

/// The stage after one that succeeded.
pub open spec fn view_following(stage: ViewStage) -> ViewStage {
    match stage {
        ViewStage::BeginCommands => ViewStage::Prune,
        ViewStage::Prune => ViewStage::PrepareTextures,
        ViewStage::PrepareTextures => ViewStage::BeginRenderPass,
        ViewStage::BeginRenderPass => ViewStage::Record,
        ViewStage::Record => ViewStage::EndRenderPass,
        ViewStage::EndRenderPass => ViewStage::EndCommands,
        ViewStage::EndCommands => ViewStage::Submit,
        ViewStage::Submit => ViewStage::Submitted,
        ViewStage::Submitted => ViewStage::Submitted,
    }
}

/// A stage whose call can return an error of its own.
pub open spec fn view_call_can_fail(stage: ViewStage) -> bool {
    stage == ViewStage::BeginCommands || stage == ViewStage::EndCommands || stage
        == ViewStage::Submit
}

/// How a message names the call of a stage.
pub open spec fn view_call(stage: ViewStage) -> Seq<char> {
    match stage {
        ViewStage::BeginCommands => "begin_command_buffer"@,
        ViewStage::EndCommands => "end_command_buffer"@,
        _ => "queue_submit"@,
    }
}

/// A view that is being drawn. `frame` is the frame in flight that it is drawn with;
/// without one it is drawn with the backend's own command buffer.
#[derive(Clone, Copy, PartialEq, Eq, Structural, Debug)]
pub struct ViewRun {
    pub stage: ViewStage,
    pub framebuffer: u64,
    pub depth_view: u64,
    pub width: u32,
    pub height: u32,
    /// How many attachments are cleared: the density map counts as one.
    pub clear_values: u32,
    pub frame: Option<usize>,
}

/// The view of the real world's depth: that of the image, else the one without depth.
pub open spec fn view_depth(
    session: CxVulkanOpenXrSessionData,
    depth_image_index: Option<usize>,
    dummy: u64,
) -> u64 {
    match depth_image_index {
        Some(index) => if index < session.depth_images@.len() {
            session.depth_images@[index as int].multiview_view
        } else {
            dummy
        },
        None => dummy,
    }
}

/// Begins to draw a view. `dummy` is the depth view for an image without depth.
pub fn draw_openxr_view(
    session: &CxVulkanOpenXrSessionData,
    color_image_index: usize,
    depth_image_index: Option<usize>,
    dummy: u64,
    uses_density_map: bool,
    frame: Option<usize>,
) -> (result: Result<ViewRun, String>)
    ensures
        if color_image_index >= session.color_images@.len() {
            result matches Err(message) && message@ == "invalid OpenXR color image index "@
                + decimal_text(color_image_index as nat)
        } else {
            result == Ok::<ViewRun, String>(
                ViewRun {
                    stage: ViewStage::BeginCommands,
                    framebuffer: session.color_images@[color_image_index as int].target.framebuffer,
                    depth_view: view_depth(*session, depth_image_index, dummy),
                    width: session.width,
                    height: session.height,
                    clear_values: if uses_density_map {
                        3
                    } else {
                        2
                    },
                    frame,
                },
            )
        },
{
    if color_image_index >= session.color_images.len() {
        let mut message: String = "invalid OpenXR color image index ".to_owned();
        let index: String = decimal(color_image_index as u64);
        message.append(index.as_str());
        return Err(message);
    }
    let depth_view: u64 = match depth_image_index {
        Some(index) => {
            if index < session.depth_images.len() {
                session.depth_images[index].multiview_view
            } else {
                dummy
            }
        },
        None => dummy,
    };
    Ok(
        ViewRun {
            stage: ViewStage::BeginCommands,
            framebuffer: session.color_images[color_image_index].target.framebuffer,
            depth_view,
            width: session.width,
            height: session.height,
            clear_values: if uses_density_map {
                3
            } else {
                2
            },
            frame,
        },
    )
}

impl ViewRun {
    /// Goes on to the next stage after the current one succeeded.
    pub fn advance(&mut self)
        ensures
            *final(self) == (ViewRun { stage: view_following(old(self).stage), ..*old(self) }),
    {
        self.stage = match self.stage {
            ViewStage::BeginCommands => ViewStage::Prune,
            ViewStage::Prune => ViewStage::PrepareTextures,
            ViewStage::PrepareTextures => ViewStage::BeginRenderPass,
            ViewStage::BeginRenderPass => ViewStage::Record,
            ViewStage::Record => ViewStage::EndRenderPass,
            ViewStage::EndRenderPass => ViewStage::EndCommands,
            ViewStage::EndCommands => ViewStage::Submit,
            ViewStage::Submit => ViewStage::Submitted,
            ViewStage::Submitted => ViewStage::Submitted,
        };
    }

    /// The message for the current stage whose call returned an error.
    pub fn failed(&self, code: i32) -> (message: String)
        requires
            view_call_can_fail(self.stage),
        ensures
            message@ == subject_failed_text(view_call(self.stage), "openxr"@, code),
    {
        match self.stage {
            ViewStage::BeginCommands => subject_failed("begin_command_buffer", "openxr", code),
            ViewStage::EndCommands => subject_failed("end_command_buffer", "openxr", code),
            _ => subject_failed("queue_submit", "openxr", code),
        }
    }

    /// Ends the drawing: the frame in flight goes back to the others. It counts as
    /// submitted only where every stage succeeded.
    pub fn finish(&self, frames: &mut XrFrames, serials: &mut SubmitSerials)
        requires
            old(frames).wf(),
            old(frames).serials_wf(*old(serials)),
            self.frame matches Some(index) ==> index < old(frames).frames@.len(),
        ensures
            final(frames).wf(),
            final(frames).serials_wf(*final(serials)),
            final(frames).frames@.len() == old(frames).frames@.len(),
            if self.stage == ViewStage::Submitted && self.frame is Some {
                let index = self.frame->0 as int;
                &&& *final(serials) == old(serials).submitted_one()
                &&& final(frames).index == (index + 1) % (old(frames).frames@.len() as int)
                &&& final(frames).frames@ == old(frames).frames@.update(
                    index,
                    VulkanXrInFlightFrame {
                        submit_serial: old(serials).submitted_one().submitted,
                        pending_timestamp_query: old(frames).frames@[index].timestamp_query_pool
                            != 0,
                        ..old(frames).frames@[index]
                    },
                )
            } else {
                *final(frames) == *old(frames) && *final(serials) == *old(serials)
            },
    {
        match self.frame {
            Some(index) => {
                frames.frame_recorded(index, self.stage == ViewStage::Submitted, serials);
            },
            None => {},
        }
    }
}

/// How far the drawing of a view is at a stage.
pub open spec fn view_rank(stage: ViewStage) -> int {
    match stage {
        ViewStage::BeginCommands => 0,
        ViewStage::Prune => 1,
        ViewStage::PrepareTextures => 2,
        ViewStage::BeginRenderPass => 3,
        ViewStage::Record => 4,
        ViewStage::EndRenderPass => 5,
        ViewStage::EndCommands => 6,
        ViewStage::Submit => 7,
        ViewStage::Submitted => 8,
    }
}

/// The drawing of a view leaves no stage out, and ends once it is submitted.
pub proof fn law_view_leaves_no_stage_out(stage: ViewStage)
    ensures
        !(stage is Submitted) ==> view_rank(view_following(stage)) == view_rank(stage) + 1,
        stage is Submitted ==> view_following(stage) is Submitted,
{
}

/// A view is drawn with the depth of the real world where there is an image of it, else
/// with the stand-in.
pub proof fn law_view_has_its_depth(
    session: CxVulkanOpenXrSessionData,
    index: usize,
    dummy: u64,
)
    ensures
        view_depth(session, None, dummy) == dummy,
        index < session.depth_images@.len() ==> view_depth(session, Some(index), dummy)
            == session.depth_images@[index as int].multiview_view,
        index >= session.depth_images@.len() ==> view_depth(session, Some(index), dummy) == dummy,
{
}

/// A failure names the call of its stage.
pub proof fn law_failed_views_name_their_call(stage: ViewStage)
    ensures
        stage is BeginCommands ==> view_call(stage) == "begin_command_buffer"@,
        stage is EndCommands ==> view_call(stage) == "end_command_buffer"@,
        stage is Submit ==> view_call(stage) == "queue_submit"@,
{
}

} // verus!

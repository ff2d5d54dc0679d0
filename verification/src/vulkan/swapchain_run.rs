//! Making a swapchain anew, with all that is drawn to.

use vstd::prelude::*;

use crate::vulkan::codes::{
    LAYOUT_COLOR_ATTACHMENT, LAYOUT_DEPTH_ATTACHMENT, LAYOUT_PRESENT, LAYOUT_UNDEFINED,
};
use crate::vulkan::cx_vulkan::{CxVulkan, SwapchainParts};
use crate::vulkan::failure::call_failed;
#[allow(unused_imports)]
use crate::vulkan::failure::call_failed_text;
use crate::vulkan::swapchain::{
    choose_swapchain, plan_targets, target_failed, SurfaceCapabilities, SurfaceFormat,
    SwapchainChoice, TargetStep,
};
#[allow(unused_imports)]
use crate::vulkan::swapchain::{
    frame_bytes, swapchain_choice, swapchain_refusal, target_call_text, target_steps, Extent,
};
use crate::vulkan::xr_session::XrAttachment;

verus! {

/// The attachments of the pass that draws to the window; the pass for OpenXR leaves its
/// color ready to be drawn to again.
pub open spec fn window_attachments(color_format: i32, depth_format: i32, xr: bool) -> Seq<
    XrAttachment,
> {
    seq![
        XrAttachment {
            format: color_format,
            clear: true,
            store: true,
            initial_layout: LAYOUT_UNDEFINED,
            final_layout: if xr {
                LAYOUT_COLOR_ATTACHMENT
            } else {
                LAYOUT_PRESENT
            },
        },
        XrAttachment {
            format: depth_format,
            clear: true,
            store: false,
            initial_layout: LAYOUT_UNDEFINED,
            final_layout: LAYOUT_DEPTH_ATTACHMENT,
        },
    ]
}

/// Lists the attachments of a pass that draws to the window.
pub fn plan_window_attachments(vulkan: &CxVulkan, xr: bool) -> (attachments: Vec<XrAttachment>)
    ensures
        attachments@ == window_attachments(vulkan.swapchain_format, vulkan.depth_format, xr),
{
    let attachments: Vec<XrAttachment> = vec![
        XrAttachment {
            format: vulkan.swapchain_format,
            clear: true,
            store: true,
            initial_layout: LAYOUT_UNDEFINED,
            final_layout: if xr {
                LAYOUT_COLOR_ATTACHMENT
            } else {
                LAYOUT_PRESENT
            },
        },
        XrAttachment {
            format: vulkan.depth_format,
            clear: true,
            store: false,
            initial_layout: LAYOUT_UNDEFINED,
            final_layout: LAYOUT_DEPTH_ATTACHMENT,
        },
    ];
    assert(attachments@ =~= window_attachments(vulkan.swapchain_format, vulkan.depth_format, xr));
    attachments
}

/// Where the making of a swapchain stands: what is next.
#[derive(Clone, Copy, PartialEq, Eq, Structural, Debug)]
pub enum SwapchainStage {
    /// Ask the surface what it can do.
    Query,
    /// Create the swapchain, after the targets and the pipelines were given back.
    Create,
    ListImages,
    /// Give the swapchain before back, unless null, and pick a depth format.
    PickDepthFormat,
    /// Make the targets, one step after the other.
    Targets,
}

/// A swapchain that is being made.
pub struct SwapchainRun {
    pub stage: SwapchainStage,
    pub choice: Option<SwapchainChoice>,
    pub swapchain: u64,
    pub steps: Vec<TargetStep>,
    pub done: usize,
}

impl SwapchainRun {
    /// The choice is there once it was made, and the steps are those for it.
    pub open spec fn wf(&self, vulkan: CxVulkan) -> bool {
        &&& vulkan.wf()
        &&& vulkan.surface != 0
        &&& self.stage != SwapchainStage::Query ==> self.choice is Some
        &&& self.stage == SwapchainStage::ListImages || self.stage
            == SwapchainStage::PickDepthFormat || self.stage == SwapchainStage::Targets
            ==> self.swapchain != 0
        &&& self.stage == SwapchainStage::PickDepthFormat || self.stage == SwapchainStage::Targets
            ==> vulkan.swapchain == self.swapchain && vulkan.swapchain_format
            == self.choice->0.format.format
        &&& self.stage == SwapchainStage::Targets ==> {
            &&& vulkan.swapchain_extent == self.choice->0.extent
            &&& self.steps@ == target_steps(
                vulkan.swapchain_image_count as nat,
                vulkan.swapchain_format,
                vulkan.swapchain_extent,
            )
            &&& self.done <= self.steps@.len()
        }
    }

    /// Begins to make a swapchain anew; without a surface there is nothing to do.
    pub fn recreate_swapchain(vulkan: &CxVulkan) -> (run: Option<SwapchainRun>)
        requires
            vulkan.wf(),
        ensures
            match run {
                Some(run) => vulkan.surface != 0 && run.wf(*vulkan) && run.stage
                    == SwapchainStage::Query,
                None => vulkan.surface == 0,
            },
    {
        if vulkan.surface == 0 {
            return None;
        }
        Some(
            SwapchainRun {
                stage: SwapchainStage::Query,
                choice: None,
                swapchain: 0,
                steps: Vec::new(),
                done: 0,
            },
        )
    }

    /// Chooses from what the surface answered. The targets that are there are given up
    /// only where there is something to choose: what is returned then is given back, as
    /// for a renewal, before the swapchain is made.
    pub fn answered(
        &mut self,
        vulkan: &mut CxVulkan,
        capabilities: Result<SurfaceCapabilities, i32>,
        formats: Result<Vec<SurfaceFormat>, i32>,
        present_modes: Result<Vec<i32>, i32>,
    ) -> (result: Result<SwapchainParts, String>)
        requires
            old(self).wf(*old(vulkan)),
            old(self).stage == SwapchainStage::Query,
            capabilities matches Ok(capabilities) ==> capabilities.wf(),
        ensures
            final(self).wf(*final(vulkan)),
            match swapchain_refusal(capabilities, formats, present_modes) {
                Some(text) => {
                    &&& result matches Err(message) && message@ == text
                    &&& *final(self) == *old(self)
                    &&& *final(vulkan) == *old(vulkan)
                },
                None => {
                    &&& result == Ok::<SwapchainParts, String>(old(vulkan).swapchain_parts())
                    &&& final(self).stage == SwapchainStage::Create
                    &&& final(self).choice == Some(
                        swapchain_choice(
                            capabilities->Ok_0,
                            formats->Ok_0@,
                            present_modes->Ok_0@,
                            old(vulkan).requested,
                        ),
                    )
                    &&& *final(vulkan) == old(vulkan).without_targets()
                },
            },
    {
        match choose_swapchain(capabilities, formats, present_modes, vulkan.requested) {
            Ok(choice) => {
                self.choice = Some(choice);
                self.stage = SwapchainStage::Create;
                Ok(vulkan.destroy_swapchain_targets())
            },
            Err(message) => Err(message),
        }
    }

    /// Takes what came of the creation.
    pub fn created(&mut self, vulkan: &CxVulkan, swapchain: Result<u64, i32>) -> (result: Result<
        (),
        String,
    >)
        requires
            old(self).wf(*vulkan),
            old(self).stage == SwapchainStage::Create,
            swapchain matches Ok(handle) ==> handle != 0,
        ensures
            final(self).wf(*vulkan),
            final(self).choice == old(self).choice,
            match swapchain {
                Ok(handle) => {
                    &&& result == Ok::<(), String>(())
                    &&& final(self).stage == SwapchainStage::ListImages
                    &&& final(self).swapchain == handle
                },
                Err(code) => {
                    &&& result matches Err(message)
                    &&& message@ == call_failed_text("create_swapchain"@, code)
                    &&& *final(self) == *old(self)
                },
            },
    {
        match swapchain {
            Ok(handle) => {
                self.swapchain = handle;
                self.stage = SwapchainStage::ListImages;
                Ok(())
            },
            Err(code) => Err(call_failed("create_swapchain", code)),
        }
    }

    /// Takes over the swapchain with its images, and returns the one before, to be given
    /// back unless null.
    pub fn images_listed(&mut self, vulkan: &mut CxVulkan, images: Result<usize, i32>) -> (previous:
        Result<u64, String>)
        requires
            old(self).wf(*old(vulkan)),
            old(self).stage == SwapchainStage::ListImages,
        ensures
            final(self).wf(*final(vulkan)),
            final(self).choice == old(self).choice,
            final(self).swapchain == old(self).swapchain,
            match images {
                Ok(count) => {
                    &&& previous == Ok::<u64, String>(old(vulkan).swapchain)
                    &&& final(self).stage == SwapchainStage::PickDepthFormat
                    &&& *final(vulkan) == (CxVulkan {
                        swapchain: old(self).swapchain,
                        swapchain_image_count: count,
                        swapchain_format: old(self).choice->0.format.format,
                        ..*old(vulkan)
                    })
                },
                Err(code) => {
                    &&& previous matches Err(message)
                    &&& message@ == call_failed_text("get_swapchain_images"@, code)
                    &&& *final(self) == *old(self)
                    &&& *final(vulkan) == *old(vulkan)
                },
            },
    {
        match images {
            Err(code) => Err(call_failed("get_swapchain_images", code)),
            Ok(count) => {
                match self.choice {
                    Some(choice) => {
                        let previous: u64 = vulkan.install_swapchain(self.swapchain, count, choice);
                        self.stage = SwapchainStage::PickDepthFormat;
                        Ok(previous)
                    },
                    None => Ok(vulkan.swapchain),
                }
            },
        }
    }

    /// Takes over the depth format, and plans the targets.
    pub fn depth_format_picked(&mut self, vulkan: &mut CxVulkan, depth_format: i32)
        requires
            old(self).wf(*old(vulkan)),
            old(self).stage == SwapchainStage::PickDepthFormat,
            frame_bytes(old(self).choice->0.extent) <= u64::MAX,
        ensures
            final(self).wf(*final(vulkan)),
            final(self).stage == SwapchainStage::Targets,
            final(self).choice == old(self).choice,
            final(self).swapchain == old(self).swapchain,
            final(self).done == 0,
            *final(vulkan) == (CxVulkan {
                depth_format,
                swapchain_extent: old(self).choice->0.extent,
                ..*old(vulkan)
            }),
    {
        match self.choice {
            Some(choice) => {
                vulkan.install_depth_format(depth_format, choice);
                self.steps = plan_targets(
                    vulkan.swapchain_image_count,
                    vulkan.swapchain_format,
                    vulkan.swapchain_extent,
                );
                self.done = 0;
                self.stage = SwapchainStage::Targets;
            },
            None => {},
        }
    }

    /// The next step, or nothing when all targets are made.
    pub fn next(&self) -> (step: Option<TargetStep>)
        requires
            self.stage == SwapchainStage::Targets,
            self.done <= self.steps@.len(),
        ensures
            step == (if self.done < self.steps@.len() {
                Some(self.steps@[self.done as int])
            } else {
                None
            }),
    {
        if self.done < self.steps.len() {
            Some(self.steps[self.done])
        } else {
            None
        }
    }

    /// Takes over what a step made.
    pub fn step_done(&mut self, vulkan: &mut CxVulkan, handle: u64)
        requires
            old(self).wf(*old(vulkan)),
            old(self).stage == SwapchainStage::Targets,
            old(self).done < old(self).steps@.len(),
        ensures
            final(self).wf(*final(vulkan)),
            final(self).stage == SwapchainStage::Targets,
            final(self).steps@ == old(self).steps@,
            final(self).choice == old(self).choice,
            final(self).swapchain == old(self).swapchain,
            final(self).done == old(self).done + 1,
            *final(vulkan) == after_step(
                *old(vulkan),
                old(self).steps@[old(self).done as int],
                handle,
            ),
    {
        let count: usize = self.steps.len();
        assert(self.done < count);
        match self.steps[self.done] {
            TargetStep::RenderPass => {
                vulkan.render_pass = handle;
            },
            TargetStep::XrRenderPass => {
                vulkan.xr_render_pass = handle;
                vulkan.xr_render_pass_uses_fragment_density_map = false;
            },
            TargetStep::ReadbackBuffer { bytes: _ } => {
                vulkan.has_readback_buffer = true;
            },
            _ => {},
        }
        self.done = self.done + 1;
    }

    /// The message for the next step, whose call returned an error.
    pub fn step_failed(&self, code: i32) -> (message: String)
        requires
            self.stage == SwapchainStage::Targets,
            self.done < self.steps@.len(),
        ensures
            message@ == call_failed_text(target_call_text(self.steps@[self.done as int]), code),
    {
        target_failed(self.steps[self.done], code)
    }
}

/// What is known after a step.
pub open spec fn after_step(vulkan: CxVulkan, step: TargetStep, handle: u64) -> CxVulkan {
    match step {
        TargetStep::RenderPass => CxVulkan { render_pass: handle, ..vulkan },
        TargetStep::XrRenderPass => CxVulkan {
            xr_render_pass: handle,
            xr_render_pass_uses_fragment_density_map: false,
            ..vulkan
        },
        TargetStep::ReadbackBuffer { .. } => CxVulkan { has_readback_buffer: true, ..vulkan },
        _ => vulkan,
    }
}

/// What is known after the first `n` steps, whose handles are given.
pub open spec fn after_steps(
    vulkan: CxVulkan,
    steps: Seq<TargetStep>,
    handles: Seq<u64>,
    n: int,
) -> CxVulkan
    decreases n,
{
    if n <= 0 {
        vulkan
    } else {
        after_step(after_steps(vulkan, steps, handles, n - 1), steps[n - 1], handles[n - 1])
    }
}

proof fn lemma_after_steps(
    vulkan: CxVulkan,
    images: nat,
    format: i32,
    extent: Extent,
    handles: Seq<u64>,
    n: int,
)
    requires
        0 <= n <= target_steps(images, format, extent).len(),
        handles.len() == target_steps(images, format, extent).len(),
        !vulkan.has_readback_buffer,
    ensures
        ({
            let steps = target_steps(images, format, extent);
            let after = after_steps(vulkan, steps, handles, n);
            &&& after.render_pass == (if n > 0 {
                handles[0]
            } else {
                vulkan.render_pass
            })
            &&& after.xr_render_pass == (if n > 1 {
                handles[1]
            } else {
                vulkan.xr_render_pass
            })
            &&& after.has_readback_buffer == exists|i: int|
                0 <= i < n && (#[trigger] steps[i]) is ReadbackBuffer
            &&& after == (CxVulkan {
                render_pass: after.render_pass,
                xr_render_pass: after.xr_render_pass,
                xr_render_pass_uses_fragment_density_map:
                    after.xr_render_pass_uses_fragment_density_map,
                has_readback_buffer: after.has_readback_buffer,
                ..vulkan
            })
        }),
    decreases n,
{
    let steps = target_steps(images, format, extent);
    if n > 0 {
        lemma_after_steps(vulkan, images, format, extent, handles, n - 1);
        assert(steps[0] == TargetStep::RenderPass);
        assert(steps[1] == TargetStep::XrRenderPass);
        assert(n > 2 ==> !(steps[n - 1] is RenderPass) && !(steps[n - 1] is XrRenderPass));
    }
}

/// A swapchain that was made to the end has both passes, and it can be read back exactly
/// where its format can and it has pixels. What does not belong to the swapchain stays.
pub proof fn law_made_swapchain_is_complete(
    vulkan: CxVulkan,
    images: nat,
    format: i32,
    extent: Extent,
    handles: Seq<u64>,
)
    requires
        handles.len() == target_steps(images, format, extent).len(),
        !vulkan.has_readback_buffer,
    ensures
        ({
            let steps = target_steps(images, format, extent);
            let after = after_steps(vulkan, steps, handles, steps.len() as int);
            &&& after.render_pass == handles[0]
            &&& after.xr_render_pass == handles[1]
            &&& after.has_readback_buffer == (crate::vulkan::swapchain::readback_format(format)
                && extent.width > 0 && extent.height > 0)
            &&& after.window == vulkan.window
            &&& after.surface == vulkan.surface
            &&& after.swapchain == vulkan.swapchain
            &&& after.serials == vulkan.serials
        }),
{
    let steps = target_steps(images, format, extent);
    lemma_after_steps(vulkan, images, format, extent, handles, steps.len() as int);
    if crate::vulkan::swapchain::readback_format(format) && extent.width > 0 && extent.height > 0 {
        let place = 2 + images as int + images as int;
        assert(steps[place] is ReadbackBuffer);
    } else {
        assert forall|i: int| 0 <= i < steps.len() implies !((
        #[trigger] steps[i]) is ReadbackBuffer) by {}
    }
}

/// A pass to the window clears both attachments, keeps only the color, and leaves it ready
/// to be presented, or to be handed to an OpenXR session.
pub proof fn law_window_pass_keeps_the_color(color_format: i32, depth_format: i32, xr: bool)
    ensures
        ({
            let attachments = window_attachments(color_format, depth_format, xr);
            &&& attachments.len() == 2
            &&& attachments[0].format == color_format && attachments[1].format == depth_format
            &&& attachments[0].clear && attachments[1].clear
            &&& attachments[0].store && !attachments[1].store
            &&& attachments[0].initial_layout == 0 && attachments[1].initial_layout == 0
            &&& attachments[0].final_layout == if xr {
                2
            } else {
                1_000_001_002i32
            }
            &&& attachments[1].final_layout == 3
        }),
{
}

/// Each step notes what it made, and nothing else.
pub proof fn law_steps_note_what_they_make(vulkan: CxVulkan, step: TargetStep, handle: u64)
    ensures
        ({
            let after = after_step(vulkan, step, handle);
            &&& step is RenderPass ==> after.render_pass == handle && after.xr_render_pass
                == vulkan.xr_render_pass
            &&& step is XrRenderPass ==> after.xr_render_pass == handle && after.render_pass
                == vulkan.render_pass
            &&& step is ReadbackBuffer ==> after.has_readback_buffer
            &&& !(step is ReadbackBuffer) ==> after.has_readback_buffer
                == vulkan.has_readback_buffer
            &&& step is ImageView || step is DepthTarget || step is Framebuffer ==> after == vulkan
            &&& after.swapchain == vulkan.swapchain && after.surface == vulkan.surface
            &&& after.serials == vulkan.serials
        }),
{
}

/// A step keeps the handle that it made, a pass for a session starts without a density map,
/// and no step touches the surface, the swapchain or the serials.
pub proof fn law_steps_keep_what_they_made(vulkan: CxVulkan, step: TargetStep, handle: u64)
    ensures
        ({
            let after = after_step(vulkan, step, handle);
            &&& step is RenderPass ==> after.render_pass == handle
            &&& !(step is RenderPass) ==> after.render_pass == vulkan.render_pass
            &&& step is XrRenderPass ==> after.xr_render_pass == handle
                && !after.xr_render_pass_uses_fragment_density_map
            &&& !(step is XrRenderPass) ==> after.xr_render_pass == vulkan.xr_render_pass
                && after.xr_render_pass_uses_fragment_density_map
                == vulkan.xr_render_pass_uses_fragment_density_map
            &&& after.has_readback_buffer <==> step is ReadbackBuffer || vulkan.has_readback_buffer
            &&& after.surface == vulkan.surface && after.window == vulkan.window
            &&& after.swapchain == vulkan.swapchain && after.serials == vulkan.serials
            &&& after.swapchain_image_count == vulkan.swapchain_image_count
        }),
{
}

} // verus!

//! The state of the backend's window, surface and swapchain.

use vstd::prelude::*;

use crate::vulkan::codes::FORMAT_UNDEFINED;
#[allow(unused_imports)]
use crate::vulkan::codes::QUEUE_GRAPHICS;
use crate::vulkan::device_pick::supports_gpu_timestamps;
#[allow(unused_imports)]
use crate::vulkan::device_pick::{has_timestamps, law_picked_family_draws};
use crate::vulkan::failure::call_failed;
#[allow(unused_imports)]
use crate::vulkan::failure::call_failed_text;
#[allow(unused_imports)]
use crate::vulkan::flags::has_flags;
use crate::vulkan::init::{InitKind, VulkanInit};
#[allow(unused_imports)]
use crate::vulkan::init::init_prefix;
use crate::vulkan::serials::SubmitSerials;
use crate::vulkan::swapchain::{Extent, SwapchainChoice};

verus! {

/// What is known of the device and its instance besides what decided the start.
#[derive(Clone, Copy, PartialEq, Eq, Structural, Debug)]
pub struct DeviceFacts {
    pub min_uniform_buffer_offset_alignment: u64,
    pub debug_utils: bool,
    pub fragment_density_map: bool,
}

/// The backend's own state. Handles are raw; zero is null.
#[derive(Clone, Copy, PartialEq, Eq, Structural, Debug)]
pub struct CxVulkan {
    pub window: u64,
    pub surface: u64,
    pub swapchain: u64,
    pub swapchain_image_count: usize,
    pub swapchain_format: i32,
    pub depth_format: i32,
    pub swapchain_extent: Extent,
    pub has_readback_buffer: bool,
    pub render_pass: u64,
    pub xr_render_pass: u64,
    pub requested: Extent,
    pub queue_family_index: u32,
    pub min_uniform_buffer_offset_alignment: u64,
    pub serials: SubmitSerials,
    pub window_in_flight_submit_serial: u64,
    pub debug_utils_enabled: bool,
    pub xr_multiview_enabled: bool,
    pub xr_fragment_density_map_enabled: bool,
    pub xr_render_pass_uses_fragment_density_map: bool,
    pub xr_gpu_timestamps_supported: bool,
}

/// What a swapchain leaves behind, to be given back.
#[derive(Clone, Copy, PartialEq, Eq, Structural, Debug)]
pub struct SwapchainParts {
    pub render_pass: u64,
    pub xr_render_pass: u64,
    pub has_readback_buffer: bool,
    pub swapchain: u64,
}

/// Something that is given back with a swapchain.
#[derive(Clone, Copy, PartialEq, Eq, Structural, Debug)]
pub enum SwapchainRelease {
    /// What the frame under way borrowed.
    FrameResources,
    /// All pipelines, and the passes that were made for them.
    Pipelines,
    Framebuffers,
    DepthTargets,
    ImageViews,
    RenderPass(u64),
    ReadbackBuffer,
    Swapchain(u64),
    /// The images go with their swapchain and are only forgotten.
    Images,
}

/// A render pass, unless null.
pub open spec fn render_pass_release(render_pass: u64) -> Seq<SwapchainRelease> {
    if render_pass != 0 {
        seq![SwapchainRelease::RenderPass(render_pass)]
    } else {
        seq![]
    }
}

/// What the targets of a swapchain give back, in order.
pub open spec fn target_parts_releases(parts: SwapchainParts) -> Seq<SwapchainRelease> {
    seq![
        SwapchainRelease::Framebuffers,
        SwapchainRelease::DepthTargets,
        SwapchainRelease::ImageViews,
    ] + render_pass_release(parts.render_pass) + render_pass_release(parts.xr_render_pass) + (
    if parts.has_readback_buffer {
        seq![SwapchainRelease::ReadbackBuffer]
    } else {
        seq![]
    })
}

/// What is given back before a swapchain is made anew, in order: the targets and then
/// the pipelines. The swapchain itself goes once there is another one.
pub open spec fn renewal_releases(parts: SwapchainParts) -> Seq<SwapchainRelease> {
    target_parts_releases(parts) + seq![SwapchainRelease::Pipelines]
}

/// What a swapchain that is given up gives back, in order: what draws with its targets,
/// the targets, and then itself.
pub open spec fn swapchain_releases(parts: SwapchainParts) -> Seq<SwapchainRelease> {
    seq![SwapchainRelease::FrameResources, SwapchainRelease::Pipelines]
        + target_parts_releases(parts) + (if parts.swapchain != 0 {
        seq![SwapchainRelease::Swapchain(parts.swapchain)]
    } else {
        seq![]
    }) + seq![SwapchainRelease::Images]
}

impl SwapchainParts {
    fn append_targets(&self, releases: &mut Vec<SwapchainRelease>)
        ensures
            final(releases)@ == old(releases)@ + target_parts_releases(*self),
    {
        releases.push(SwapchainRelease::Framebuffers);
        releases.push(SwapchainRelease::DepthTargets);
        releases.push(SwapchainRelease::ImageViews);
        if self.render_pass != 0 {
            releases.push(SwapchainRelease::RenderPass(self.render_pass));
        }
        if self.xr_render_pass != 0 {
            releases.push(SwapchainRelease::RenderPass(self.xr_render_pass));
        }
        if self.has_readback_buffer {
            releases.push(SwapchainRelease::ReadbackBuffer);
        }
        assert(releases@ =~= old(releases)@ + target_parts_releases(*self));
    }

    /// Lists what is given back before the swapchain is made anew.
    pub fn plan_renewal(&self) -> (releases: Vec<SwapchainRelease>)
        ensures
            releases@ == renewal_releases(*self),
    {
        let mut releases: Vec<SwapchainRelease> = Vec::new();
        self.append_targets(&mut releases);
        releases.push(SwapchainRelease::Pipelines);
        assert(releases@ =~= renewal_releases(*self));
        releases
    }

    /// Lists what the swapchain gives back that was given up.
    pub fn plan_release(&self) -> (releases: Vec<SwapchainRelease>)
        ensures
            releases@ == swapchain_releases(*self),
    {
        let mut releases: Vec<SwapchainRelease> = Vec::new();
        releases.push(SwapchainRelease::FrameResources);
        releases.push(SwapchainRelease::Pipelines);
        self.append_targets(&mut releases);
        if self.swapchain != 0 {
            releases.push(SwapchainRelease::Swapchain(self.swapchain));
        }
        releases.push(SwapchainRelease::Images);
        assert(releases@ =~= swapchain_releases(*self));
        releases
    }
}

/// What has to be done before a surface can be used.
#[derive(Clone, Copy, PartialEq, Eq, Structural, Debug)]
pub enum SurfaceUpdate {
    /// The surface stays; only the swapchain is made anew.
    Keep,
    /// In this order: acquire the new window, wait for the device, give back the
    /// swapchain and the surface unless null, release the old window, and make a
    /// surface for the new one.
    Replace { acquire: u64, swapchain: SwapchainParts, surface: u64, release: u64 },
}

/// What is given back when the surface goes away, each unless null: the swapchain,
/// the surface, the window.
#[derive(Clone, Copy, PartialEq, Eq, Structural, Debug)]
pub struct SurfaceRelease {
    pub swapchain: SwapchainParts,
    pub surface: u64,
    pub window: u64,
}

/// `value`, but at least one.
pub open spec fn at_least_one(value: u32) -> u32 {
    if value == 0 {
        1
    } else {
        value
    }
}

fn max_one(value: u32) -> (result: u32)
    ensures
        result == at_least_one(value),
{
    if value == 0 {
        1
    } else {
        value
    }
}

/// The state of a backend that was just started.
pub open spec fn started_state(init: VulkanInit, facts: DeviceFacts) -> CxVulkan {
    CxVulkan {
        window: init.window,
        surface: init.surface,
        swapchain: 0,
        swapchain_image_count: 0,
        swapchain_format: FORMAT_UNDEFINED,
        depth_format: FORMAT_UNDEFINED,
        swapchain_extent: Extent { width: 0, height: 0 },
        has_readback_buffer: false,
        render_pass: 0,
        xr_render_pass: 0,
        requested: Extent {
            width: at_least_one(init.width),
            height: at_least_one(init.height),
        },
        queue_family_index: init.queue_family_index,
        min_uniform_buffer_offset_alignment: if facts.min_uniform_buffer_offset_alignment < 4 {
            4
        } else {
            facts.min_uniform_buffer_offset_alignment
        },
        serials: SubmitSerials { submitted: 0, completed: 0 },
        window_in_flight_submit_serial: 0,
        debug_utils_enabled: facts.debug_utils,
        xr_multiview_enabled: init.kind is OpenXr && init.multiview,
        xr_fragment_density_map_enabled: init.kind is OpenXr && facts.fragment_density_map,
        xr_render_pass_uses_fragment_density_map: false,
        xr_gpu_timestamps_supported: has_timestamps(init.families@, init.queue_family_index),
    }
}

impl CxVulkan {
    /// What the swapchain's bookkeeping promises: without a swapchain there are no
    /// images, and what completed was submitted.
    pub open spec fn wf(self) -> bool {
        &&& self.swapchain == 0 ==> self.swapchain_image_count == 0
        &&& self.surface == 0 ==> self.swapchain == 0
        &&& self.serials.wf()
        &&& self.window_in_flight_submit_serial <= self.serials.submitted
        &&& self.min_uniform_buffer_offset_alignment >= 4
        &&& self.requested.width >= 1
        &&& self.requested.height >= 1
    }

    /// What the swapchain has to give back.
    pub open spec fn swapchain_parts(self) -> SwapchainParts {
        SwapchainParts {
            render_pass: self.render_pass,
            xr_render_pass: self.xr_render_pass,
            has_readback_buffer: self.has_readback_buffer,
            swapchain: self.swapchain,
        }
    }

    /// The state without the targets of the swapchain.
    pub open spec fn without_targets(self) -> CxVulkan {
        CxVulkan {
            render_pass: 0,
            xr_render_pass: 0,
            has_readback_buffer: false,
            depth_format: FORMAT_UNDEFINED,
            ..self
        }
    }

    /// The state without a swapchain.
    pub open spec fn without_swapchain(self) -> CxVulkan {
        CxVulkan { swapchain: 0, swapchain_image_count: 0, ..self.without_targets() }
    }

    /// The state without a surface.
    pub open spec fn without_surface(self) -> CxVulkan {
        CxVulkan { surface: 0, ..self.without_swapchain() }
    }

    /// Begins the start of the backend for a window.
    pub fn new(window: u64, width: u32, height: u32) -> (result: Result<VulkanInit, String>)
        ensures
            if window == 0 {
                result matches Err(message) && message@ == init_prefix(InitKind::Window)
                    + "null ANativeWindow"@
            } else {
                &&& result matches Ok(init)
                &&& init.wf()
                &&& init.kind == InitKind::Window
                &&& init.window == window
                &&& init.width == width
                &&& init.height == height
                &&& init.done == 0
                &&& init.acquired@.len() == 0
                &&& init.surface == 0
            },
    {
        VulkanInit::begin(InitKind::Window, window, width, height)
    }

    /// Begins the start of the backend for an OpenXR session.
    pub fn new_from_openxr(window: u64, width: u32, height: u32) -> (result: Result<
        VulkanInit,
        String,
    >)
        ensures
            if window == 0 {
                result matches Err(message) && message@ == init_prefix(InitKind::OpenXr)
                    + "null ANativeWindow"@
            } else {
                &&& result matches Ok(init)
                &&& init.wf()
                &&& init.kind == InitKind::OpenXr
                &&& init.window == window
                &&& init.width == width
                &&& init.height == height
                &&& init.done == 0
                &&& init.acquired@.len() == 0
                &&& init.surface == 0
            },
    {
        VulkanInit::begin(InitKind::OpenXr, window, width, height)
    }

    /// The state of a backend that was just started. An OpenXR session has no surface
    /// yet.
    pub fn started(init: &VulkanInit, facts: DeviceFacts) -> (vulkan: CxVulkan)
        requires
            init.wf(),
            init.done == init.steps@.len(),
        ensures
            vulkan.wf(),
            vulkan == started_state(*init, facts),
    {
        let xr: bool = init.kind == InitKind::OpenXr;
        CxVulkan {
            window: init.window,
            surface: init.surface,
            swapchain: 0,
            swapchain_image_count: 0,
            swapchain_format: FORMAT_UNDEFINED,
            depth_format: FORMAT_UNDEFINED,
            swapchain_extent: Extent { width: 0, height: 0 },
            has_readback_buffer: false,
            render_pass: 0,
            xr_render_pass: 0,
            requested: Extent { width: max_one(init.width), height: max_one(init.height) },
            queue_family_index: init.queue_family_index,
            min_uniform_buffer_offset_alignment: if facts.min_uniform_buffer_offset_alignment < 4 {
                4
            } else {
                facts.min_uniform_buffer_offset_alignment
            },
            serials: SubmitSerials { submitted: 0, completed: 0 },
            window_in_flight_submit_serial: 0,
            debug_utils_enabled: facts.debug_utils,
            xr_multiview_enabled: xr && init.multiview,
            xr_fragment_density_map_enabled: xr && facts.fragment_density_map,
            xr_render_pass_uses_fragment_density_map: false,
            xr_gpu_timestamps_supported: supports_gpu_timestamps(
                init.families.as_slice(),
                init.queue_family_index,
            ),
        }
    }

    /// Whether a frame can be drawn to the window.
    pub fn has_drawable_surface(&self) -> (drawable: bool)
        ensures
            drawable == (self.window != 0 && self.surface != 0 && self.swapchain != 0),
    {
        self.window != 0 && self.surface != 0 && self.swapchain != 0
    }

    /// Takes over a window. Its size is requested in any case; another window, or no
    /// surface yet, replaces the surface.
    pub fn update_surface(&mut self, window: u64, width: u32, height: u32) -> (result: Result<
        SurfaceUpdate,
        String,
    >)
        requires
            old(self).wf(),
        ensures
            final(self).wf(),
            if window == 0 {
                &&& result matches Err(message)
                &&& message@ == "Android Vulkan surface update failed: null ANativeWindow"@
                &&& *final(self) == *old(self)
            } else {
                let requested = Extent {
                    width: at_least_one(width),
                    height: at_least_one(height),
                };
                if old(self).window != window || old(self).surface == 0 {
                    &&& result == Ok::<SurfaceUpdate, String>(
                        SurfaceUpdate::Replace {
                            acquire: window,
                            swapchain: old(self).swapchain_parts(),
                            surface: old(self).surface,
                            release: old(self).window,
                        },
                    )
                    &&& *final(self) == (CxVulkan {
                        requested,
                        window,
                        ..old(self).without_surface()
                    })
                } else {
                    &&& result == Ok::<SurfaceUpdate, String>(SurfaceUpdate::Keep)
                    &&& *final(self) == (CxVulkan { requested, ..*old(self) })
                }
            },
    {
        if window == 0 {
            return Err("Android Vulkan surface update failed: null ANativeWindow".to_owned());
        }
        self.requested = Extent { width: max_one(width), height: max_one(height) };
        if self.window != window || self.surface == 0 {
            let swapchain: SwapchainParts = self.destroy_swapchain();
            let surface: u64 = self.destroy_surface();
            let release: u64 = self.window;
            self.window = window;
            Ok(SurfaceUpdate::Replace { acquire: window, swapchain, surface, release })
        } else {
            Ok(SurfaceUpdate::Keep)
        }
    }

    /// Takes over the surface that was made for the window, or reports why there is
    /// none.
    pub fn create_surface(&mut self, surface: Result<u64, i32>) -> (result: Result<(), String>)
        requires
            old(self).wf(),
            old(self).swapchain == 0,
        ensures
            final(self).wf(),
            match surface {
                Ok(handle) => {
                    &&& result == Ok::<(), String>(())
                    &&& *final(self) == (CxVulkan { surface: handle, ..*old(self) })
                },
                Err(code) => {
                    &&& result matches Err(message)
                    &&& message@ == call_failed_text("create_android_surface"@, code)
                    &&& *final(self) == *old(self)
                },
            },
    {
        match surface {
            Ok(handle) => {
                self.surface = handle;
                Ok(())
            },
            Err(code) => Err(call_failed("create_android_surface", code)),
        }
    }

    /// Gives the window, the surface and the swapchain up, and says what to give
    /// back.
    pub fn suspend_surface(&mut self) -> (release: SurfaceRelease)
        requires
            old(self).wf(),
        ensures
            final(self).wf(),
            *final(self) == (CxVulkan { window: 0, ..old(self).without_surface() }),
            release == (SurfaceRelease {
                swapchain: old(self).swapchain_parts(),
                surface: old(self).surface,
                window: old(self).window,
            }),
    {
        let swapchain: SwapchainParts = self.destroy_swapchain();
        let surface: u64 = self.destroy_surface();
        let window: u64 = self.window;
        self.window = 0;
        SurfaceRelease { swapchain, surface, window }
    }

    /// Forgets the targets of the swapchain, and returns what there was.
    pub fn destroy_swapchain_targets(&mut self) -> (parts: SwapchainParts)
        requires
            old(self).wf(),
        ensures
            final(self).wf(),
            *final(self) == old(self).without_targets(),
            parts == old(self).swapchain_parts(),
    {
        let parts = SwapchainParts {
            render_pass: self.render_pass,
            xr_render_pass: self.xr_render_pass,
            has_readback_buffer: self.has_readback_buffer,
            swapchain: self.swapchain,
        };
        self.render_pass = 0;
        self.xr_render_pass = 0;
        self.has_readback_buffer = false;
        self.depth_format = FORMAT_UNDEFINED;
        parts
    }

    /// Forgets the swapchain with its targets, and returns what there was.
    pub fn destroy_swapchain(&mut self) -> (parts: SwapchainParts)
        requires
            old(self).wf(),
        ensures
            final(self).wf(),
            *final(self) == old(self).without_swapchain(),
            parts == old(self).swapchain_parts(),
    {
        let parts: SwapchainParts = self.destroy_swapchain_targets();
        self.swapchain = 0;
        self.swapchain_image_count = 0;
        parts
    }

    /// Forgets the surface and returns it, to be given back unless null.
    pub fn destroy_surface(&mut self) -> (surface: u64)
        requires
            old(self).wf(),
            old(self).swapchain == 0,
        ensures
            final(self).wf(),
            *final(self) == (CxVulkan { surface: 0, ..*old(self) }),
            surface == old(self).surface,
    {
        let surface: u64 = self.surface;
        self.surface = 0;
        surface
    }

    /// Takes over a swapchain that was made as chosen, after the targets of the one
    /// before were given up. Returns the old swapchain, to be given back unless null.
    pub fn install_swapchain(&mut self, swapchain: u64, images: usize, choice: SwapchainChoice) -> (
        previous: u64)
        requires
            old(self).wf(),
            old(self).surface != 0,
            swapchain != 0,
        ensures
            final(self).wf(),
            previous == old(self).swapchain,
            *final(self) == (CxVulkan {
                swapchain,
                swapchain_image_count: images,
                swapchain_format: choice.format.format,
                ..*old(self)
            }),
    {
        let previous: u64 = self.swapchain;
        self.swapchain = swapchain;
        self.swapchain_image_count = images;
        self.swapchain_format = choice.format.format;
        previous
    }

    /// Takes over a depth format that was picked where there was none.
    pub fn depth_format_picked(&mut self, depth_format: i32)
        requires
            old(self).wf(),
        ensures
            final(self).wf(),
            *final(self) == (CxVulkan { depth_format, ..*old(self) }),
    {
        self.depth_format = depth_format;
    }

    /// Takes over the depth format and the extent of a swapchain just installed.
    pub fn install_depth_format(&mut self, depth_format: i32, choice: SwapchainChoice)
        requires
            old(self).wf(),
        ensures
            final(self).wf(),
            *final(self) == (CxVulkan {
                depth_format,
                swapchain_extent: choice.extent,
                ..*old(self)
            }),
    {
        self.depth_format = depth_format;
        self.swapchain_extent = choice.extent;
    }
}

/// A backend that was started for an OpenXR session draws both eyes in one pass, has no
/// surface yet, and uses the lowest queue family of its device that draws.
pub proof fn law_openxr_start_has_multiview(init: VulkanInit, facts: DeviceFacts)
    requires
        init.wf(),
        init.kind is OpenXr,
        init.done == init.steps@.len(),
    ensures
        ({
            let vulkan = started_state(init, facts);
            &&& vulkan.xr_multiview_enabled
            &&& vulkan.surface == 0
            &&& vulkan.swapchain == 0
            &&& vulkan.queue_family_index < init.families@.len()
            &&& has_flags(init.families@[vulkan.queue_family_index as int].flags, QUEUE_GRAPHICS)
            &&& forall|i: int|
                0 <= i < vulkan.queue_family_index ==> !has_flags(
                    (#[trigger] init.families@[i]).flags,
                    QUEUE_GRAPHICS,
                )
        }),
{
    law_picked_family_draws(init.families@, 0);
}

/// A backend whose surface was suspended has nothing to draw to, and the next window,
/// whichever it is, replaces the surface.
pub proof fn law_suspended_needs_new_surface(before: CxVulkan)
    requires
        before.wf(),
    ensures
        ({
            let after = CxVulkan { window: 0, ..before.without_surface() };
            &&& after.wf()
            &&& after.surface == 0
            &&& after.swapchain == 0
            &&& after.serials == before.serials
            &&& after.requested == before.requested
        }),
{
}

/// A stage of the backend's end. The skinning, field sample and volume probes are kept by
/// whoever runs them; they are given back in their places among the others.
#[derive(Clone, Copy, PartialEq, Eq, Structural, Debug)]
pub enum TeardownStage {
    WaitIdle,
    Swapchain,
    XrFrames,
    StorageProbes,
    U32Probes,
    ForceProbes,
    SkinningProbes,
    SkinningMeshProbes,
    FieldForceProbes,
    FieldForceProgram,
    FieldSampleProbes,
    FieldSampleProgram,
    MeshSdfProbes,
    MeshSdfDerivedBuffers,
    MeshSdfSourceBuffers,
    MeshSdfProgram,
    VolumeProbes,
    VolumeImagePreview,
    VolumeRaymarchPreview,
    Geometries,
    Textures,
    YcbcrSamplers,
    Fence,
    RenderSemaphore,
    ImageSemaphore,
    CommandPool,
    Device,
    Surface,
    DebugMessenger,
    Instance,
    Window,
}

/// The handles that exist only once.
#[derive(Clone, Copy, PartialEq, Eq, Structural, Debug)]
pub struct TeardownHandles {
    pub fence: u64,
    pub render_semaphore: u64,
    pub image_semaphore: u64,
    pub command_pool: u64,
    pub surface: u64,
    pub debug_messenger: u64,
    pub window: u64,
}

/// Whether a stage of the end is gone through: a null handle is passed over.
pub open spec fn stage_applies(stage: TeardownStage, handles: TeardownHandles) -> bool {
    match stage {
        TeardownStage::Fence => handles.fence != 0,
        TeardownStage::RenderSemaphore => handles.render_semaphore != 0,
        TeardownStage::ImageSemaphore => handles.image_semaphore != 0,
        TeardownStage::CommandPool => handles.command_pool != 0,
        TeardownStage::Surface => handles.surface != 0,
        TeardownStage::DebugMessenger => handles.debug_messenger != 0,
        TeardownStage::Window => handles.window != 0,
        _ => true,
    }
}

/// The stages of the end, in order.
pub open spec fn teardown_stages() -> Seq<TeardownStage> {
    seq![
        TeardownStage::WaitIdle,
        TeardownStage::Swapchain,
        TeardownStage::XrFrames,
        TeardownStage::StorageProbes,
        TeardownStage::U32Probes,
        TeardownStage::ForceProbes,
        TeardownStage::SkinningProbes,
        TeardownStage::SkinningMeshProbes,
        TeardownStage::FieldForceProbes,
        TeardownStage::FieldForceProgram,
        TeardownStage::FieldSampleProbes,
        TeardownStage::FieldSampleProgram,
        TeardownStage::MeshSdfProbes,
        TeardownStage::MeshSdfDerivedBuffers,
        TeardownStage::MeshSdfSourceBuffers,
        TeardownStage::MeshSdfProgram,
        TeardownStage::VolumeProbes,
        TeardownStage::VolumeImagePreview,
        TeardownStage::VolumeRaymarchPreview,
        TeardownStage::Geometries,
        TeardownStage::Textures,
        TeardownStage::YcbcrSamplers,
        TeardownStage::Fence,
        TeardownStage::RenderSemaphore,
        TeardownStage::ImageSemaphore,
        TeardownStage::CommandPool,
        TeardownStage::Device,
        TeardownStage::Surface,
        TeardownStage::DebugMessenger,
        TeardownStage::Instance,
        TeardownStage::Window,
    ]
}

/// The stages of `stages` that apply, in their order.
pub open spec fn applicable_stages(stages: Seq<TeardownStage>, handles: TeardownHandles) -> Seq<
    TeardownStage,
>
    decreases stages.len(),
{
    if stages.len() == 0 {
        seq![]
    } else {
        let before = applicable_stages(stages.drop_last(), handles);
        if stage_applies(stages.last(), handles) {
            before.push(stages.last())
        } else {
            before
        }
    }
}

fn check_stage(stage: TeardownStage, handles: &TeardownHandles) -> (applies: bool)
    ensures
        applies == stage_applies(stage, *handles),
{
    match stage {
        TeardownStage::Fence => handles.fence != 0,
        TeardownStage::RenderSemaphore => handles.render_semaphore != 0,
        TeardownStage::ImageSemaphore => handles.image_semaphore != 0,
        TeardownStage::CommandPool => handles.command_pool != 0,
        TeardownStage::Surface => handles.surface != 0,
        TeardownStage::DebugMessenger => handles.debug_messenger != 0,
        TeardownStage::Window => handles.window != 0,
        _ => true,
    }
}

/// Lists the stages of the end that apply.
pub fn plan_teardown(handles: TeardownHandles) -> (stages: Vec<TeardownStage>)
    ensures
        stages@ == applicable_stages(teardown_stages(), handles),
{
    let all: Vec<TeardownStage> = vec![
        TeardownStage::WaitIdle,
        TeardownStage::Swapchain,
        TeardownStage::XrFrames,
        TeardownStage::StorageProbes,
        TeardownStage::U32Probes,
        TeardownStage::ForceProbes,
        TeardownStage::SkinningProbes,
        TeardownStage::SkinningMeshProbes,
        TeardownStage::FieldForceProbes,
        TeardownStage::FieldForceProgram,
        TeardownStage::FieldSampleProbes,
        TeardownStage::FieldSampleProgram,
        TeardownStage::MeshSdfProbes,
        TeardownStage::MeshSdfDerivedBuffers,
        TeardownStage::MeshSdfSourceBuffers,
        TeardownStage::MeshSdfProgram,
        TeardownStage::VolumeProbes,
        TeardownStage::VolumeImagePreview,
        TeardownStage::VolumeRaymarchPreview,
        TeardownStage::Geometries,
        TeardownStage::Textures,
        TeardownStage::YcbcrSamplers,
        TeardownStage::Fence,
        TeardownStage::RenderSemaphore,
        TeardownStage::ImageSemaphore,
        TeardownStage::CommandPool,
        TeardownStage::Device,
        TeardownStage::Surface,
        TeardownStage::DebugMessenger,
        TeardownStage::Instance,
        TeardownStage::Window,
    ];
    assert(all@ =~= teardown_stages());
    let mut stages: Vec<TeardownStage> = Vec::new();
    let mut i: usize = 0;
    while i < all.len()
        invariant
            i <= all@.len(),
            stages@ == applicable_stages(all@.take(i as int), handles),
        decreases all@.len() - i,
    {
        proof {
            assert(all@.take(i + 1).drop_last() =~= all@.take(i as int));
            assert(all@.take(i + 1).last() == all@[i as int]);
        }
        let stage: TeardownStage = all[i];
        if check_stage(stage, &handles) {
            stages.push(stage);
        }
        i = i + 1;
    }
    assert(all@.take(i as int) =~= all@);
    stages
}

/// Without its surface a backend has no swapchain, no targets and nothing to read back
/// into; its window's size, its serials and what it knows of the device stay.
pub proof fn law_surface_takes_all_with_it(vulkan: CxVulkan)
    ensures
        ({
            let targets = vulkan.without_targets();
            let swapchain = vulkan.without_swapchain();
            let surface = vulkan.without_surface();
            &&& targets.render_pass == 0 && targets.xr_render_pass == 0
            &&& !targets.has_readback_buffer && targets.depth_format == 0
            &&& targets.swapchain == vulkan.swapchain && targets.surface == vulkan.surface
            &&& swapchain.swapchain == 0 && swapchain.swapchain_image_count == 0
            &&& swapchain.render_pass == 0 && swapchain.surface == vulkan.surface
            &&& surface.surface == 0 && surface.swapchain == 0 && surface.render_pass == 0
            &&& surface.xr_render_pass == 0 && !surface.has_readback_buffer
            &&& surface.serials == vulkan.serials && surface.requested == vulkan.requested
            &&& surface.queue_family_index == vulkan.queue_family_index
            &&& surface.xr_multiview_enabled == vulkan.xr_multiview_enabled
        }),
{
}

/// What is given back of a swapchain is all that it has, each once: its framebuffers before
/// its views, and before its passes; the pipelines go with them, before them where all goes
/// and behind them where a swapchain takes its place, and only what goes for good gives the
/// swapchain itself back, at its end.
pub proof fn law_swapchain_gives_back_all(parts: SwapchainParts)
    ensures
        ({
            let all = swapchain_releases(parts);
            let renewal = renewal_releases(parts);
            &&& all[0] is FrameResources && all[1] is Pipelines
            &&& all[2] is Framebuffers && all[3] is DepthTargets && all[4] is ImageViews
            &&& all.last() is Images
            &&& parts.swapchain != 0 ==> all[all.len() - 2] == SwapchainRelease::Swapchain(
                parts.swapchain,
            )
            &&& parts.render_pass != 0 ==> all[5] == SwapchainRelease::RenderPass(
                parts.render_pass,
            )
            &&& parts.xr_render_pass != 0 ==> all.contains(
                SwapchainRelease::RenderPass(parts.xr_render_pass),
            )
            &&& all.contains(SwapchainRelease::ReadbackBuffer) <==> parts.has_readback_buffer
            &&& renewal[0] is Framebuffers && renewal[1] is DepthTargets && renewal[2] is ImageViews
            &&& renewal.last() is Pipelines
            &&& parts.render_pass != 0 ==> renewal[3] == SwapchainRelease::RenderPass(
                parts.render_pass,
            )
            &&& parts.xr_render_pass != 0 ==> renewal.contains(
                SwapchainRelease::RenderPass(parts.xr_render_pass),
            )
            &&& forall|i: int| 0 <= i < renewal.len() ==> !(#[trigger] renewal[i] is Swapchain)
            &&& all.len() == 6 + (if parts.render_pass != 0 {
                1int
            } else {
                0
            }) + (if parts.xr_render_pass != 0 {
                1int
            } else {
                0
            }) + (if parts.has_readback_buffer {
                1int
            } else {
                0
            }) + (if parts.swapchain != 0 {
                1int
            } else {
                0
            })
        }),
{
    let all = swapchain_releases(parts);
    let renewal = renewal_releases(parts);
    let p = if parts.render_pass != 0 {
        1int
    } else {
        0
    };
    let x = if parts.xr_render_pass != 0 {
        1int
    } else {
        0
    };
    if parts.xr_render_pass != 0 {
        assert(all[5 + p] == SwapchainRelease::RenderPass(parts.xr_render_pass));
        assert(renewal[3 + p] == SwapchainRelease::RenderPass(parts.xr_render_pass));
    }
    if parts.has_readback_buffer {
        assert(all[5 + p + x] == SwapchainRelease::ReadbackBuffer);
    }
}

/// At its end a backend waits for the device first, gives back what needs the device before
/// the device, the device and the surface before the instance, and the window last; what is
/// null is passed over, and nothing else is.
pub proof fn law_backend_ends_in_order(handles: TeardownHandles)
    ensures
        ({
            let stages = teardown_stages();
            &&& stages.len() == 31
            &&& stages[0] is WaitIdle && stages[1] is Swapchain && stages[2] is XrFrames
            &&& stages[19] is Geometries && stages[20] is Textures && stages[21] is YcbcrSamplers
            &&& stages[22] is Fence && stages[23] is RenderSemaphore && stages[24] is ImageSemaphore
            &&& stages[25] is CommandPool && stages[26] is Device
            &&& stages[27] is Surface && stages[28] is DebugMessenger
            &&& stages[29] is Instance && stages[30] is Window
            &&& forall|i: int, j: int|
                0 <= i < j < stages.len() ==> #[trigger] stages[i] != #[trigger] stages[j]
            &&& stage_applies(TeardownStage::Fence, handles) <==> handles.fence != 0
            &&& stage_applies(TeardownStage::RenderSemaphore, handles)
                <==> handles.render_semaphore != 0
            &&& stage_applies(TeardownStage::ImageSemaphore, handles) <==> handles.image_semaphore
                != 0
            &&& stage_applies(TeardownStage::CommandPool, handles) <==> handles.command_pool != 0
            &&& stage_applies(TeardownStage::Surface, handles) <==> handles.surface != 0
            &&& stage_applies(TeardownStage::DebugMessenger, handles) <==> handles.debug_messenger
                != 0
            &&& stage_applies(TeardownStage::Window, handles) <==> handles.window != 0
            &&& stage_applies(TeardownStage::Device, handles)
            &&& stage_applies(TeardownStage::Instance, handles)
            &&& forall|i: int|
                0 <= i < 22 ==> stage_applies(#[trigger] stages[i], handles)
        }),
{
}

/// A stage is gone through exactly where it applies.
pub proof fn law_stages_that_apply_are_kept(
    stages: Seq<TeardownStage>,
    handles: TeardownHandles,
    i: int,
)
    requires
        0 <= i < stages.len(),
    ensures
        stage_applies(stages[i], handles) ==> applicable_stages(stages, handles).contains(
            stages[i],
        ),
        forall|k: int|
            0 <= k < applicable_stages(stages, handles).len() ==> stage_applies(
                #[trigger] applicable_stages(stages, handles)[k],
                handles,
            ),
    decreases stages.len(),
{
    let all = applicable_stages(stages, handles);
    let before = applicable_stages(stages.drop_last(), handles);
    if stages.len() > 1 {
        if i < stages.len() - 1 {
            law_stages_that_apply_are_kept(stages.drop_last(), handles, i);
        } else {
            law_stages_that_apply_are_kept(stages.drop_last(), handles, 0);
        }
    }
    if stage_applies(stages[i], handles) {
        if i < stages.len() - 1 {
            let k = choose|k: int| 0 <= k < before.len() && before[k] == stages[i];
            assert(all[k] == stages[i]);
        } else {
            assert(all[all.len() - 1] == stages[i]);
        }
    }
    assert forall|k: int| 0 <= k < all.len() implies stage_applies(#[trigger] all[k], handles) by {
        if k < before.len() {
            assert(all[k] == before[k]);
        }
    }
}

/// A backend that was started has what the start found out, asks for at least one pixel each
/// way, aligns uniforms to what the device asks for and to four bytes at least, and draws
/// nothing yet.
pub proof fn law_started_backend_has_what_was_found(init: VulkanInit, facts: DeviceFacts)
    ensures
        ({
            let vulkan = started_state(init, facts);
            &&& vulkan.window == init.window && vulkan.surface == init.surface
            &&& vulkan.queue_family_index == init.queue_family_index
            &&& vulkan.requested.width >= 1 && (vulkan.requested.width == init.width || init.width
                == 0)
            &&& vulkan.requested.height >= 1 && (vulkan.requested.height == init.height
                || init.height == 0)
            &&& vulkan.min_uniform_buffer_offset_alignment >= 4
            &&& vulkan.min_uniform_buffer_offset_alignment
                >= facts.min_uniform_buffer_offset_alignment
            &&& facts.min_uniform_buffer_offset_alignment >= 4
                ==> vulkan.min_uniform_buffer_offset_alignment
                == facts.min_uniform_buffer_offset_alignment
            &&& vulkan.debug_utils_enabled == facts.debug_utils
            &&& init.kind is Window ==> !vulkan.xr_multiview_enabled
                && !vulkan.xr_fragment_density_map_enabled
            &&& init.kind is OpenXr ==> vulkan.xr_fragment_density_map_enabled
                == facts.fragment_density_map
            &&& vulkan.serials.submitted == 0 && vulkan.serials.completed == 0
            &&& vulkan.swapchain == 0 && vulkan.render_pass == 0 && vulkan.xr_render_pass == 0
            &&& vulkan.xr_gpu_timestamps_supported ==> vulkan.queue_family_index
                < init.families@.len()
        }),
{
}

/// What the swapchain gives back is what the backend holds of it, and a backend that starts
/// holds nothing of one.
pub proof fn law_swapchain_parts_are_those_held(
    vulkan: CxVulkan,
    init: VulkanInit,
    facts: DeviceFacts,
)
    ensures
        vulkan.swapchain_parts().render_pass == vulkan.render_pass,
        vulkan.swapchain_parts().xr_render_pass == vulkan.xr_render_pass,
        vulkan.swapchain_parts().has_readback_buffer == vulkan.has_readback_buffer,
        vulkan.swapchain_parts().swapchain == vulkan.swapchain,
        ({
            let started = started_state(init, facts);
            &&& started.swapchain == 0 && started.swapchain_image_count == 0
            &&& started.swapchain_format == 0 && started.depth_format == 0
            &&& started.swapchain_extent.width == 0 && started.swapchain_extent.height == 0
            &&& !started.has_readback_buffer
            &&& started.render_pass == 0 && started.xr_render_pass == 0
            &&& !started.xr_render_pass_uses_fragment_density_map
            &&& started.serials.submitted == 0 && started.serials.completed == 0
            &&& started.window_in_flight_submit_serial == 0
            &&& started.window == init.window && started.surface == init.surface
            &&& started.debug_utils_enabled == facts.debug_utils
        }),
{
}

} // verus!

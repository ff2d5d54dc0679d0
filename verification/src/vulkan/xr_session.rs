//! The images of an OpenXR session: their render pass, targets, views and readback.

use ash::vk;
use vstd::prelude::*;

use crate::text::decimal;
#[allow(unused_imports)]
use crate::text::decimal_text;
use crate::vulkan::buffers::VulkanBuffer;
use crate::vulkan::codes::{
    ACCESS_COLOR_ATTACHMENT_WRITE, ACCESS_DEPTH_ATTACHMENT_WRITE, ACCESS_FRAGMENT_DENSITY_MAP_READ,
    FORMAT_FEATURE_FRAGMENT_DENSITY_MAP, FORMAT_R8G8_UNORM, FORMAT_UNDEFINED,
    LAYOUT_COLOR_ATTACHMENT, LAYOUT_DEPTH_ATTACHMENT, LAYOUT_FRAGMENT_DENSITY_MAP,
    LAYOUT_UNDEFINED, STAGE_COLOR_ATTACHMENT_OUTPUT, STAGE_EARLY_FRAGMENT_TESTS,
    STAGE_FRAGMENT_DENSITY_PROCESS,
};
use crate::vulkan::cx_vulkan::CxVulkan;
#[allow(unused_imports)]
use crate::vulkan::cx_vulkan::at_least_one;
use crate::vulkan::device_pick::find_name;
#[allow(unused_imports)]
use crate::vulkan::device_pick::lists_name;
use crate::vulkan::failure::subject_failed;
#[allow(unused_imports)]
use crate::vulkan::failure::{call_failed_text, subject_failed_text};
use crate::vulkan::flags::format_features_contain;
#[allow(unused_imports)]
use crate::vulkan::flags::has_flags;
use crate::vulkan::readback::pixels_to_rgba;
#[allow(unused_imports)]
use crate::vulkan::readback::{blue_first, format_debug, swapped_pixels};
#[allow(unused_imports)]
use crate::vulkan::swapchain::readback_format;

verus! {

/// The format of the maps that say how densely fragments are shaded.
pub const XR_FRAGMENT_DENSITY_MAP_FORMAT: i32 = FORMAT_R8G8_UNORM;

/// Whether one pass can draw both eyes.
pub fn query_multiview_support(multiview: bool, max_view_count: u32) -> (supported: bool)
    ensures
        supported == (multiview && max_view_count >= 2),
{
    multiview && max_view_count >= 2
}

/// The name `vk::EXT_FRAGMENT_DENSITY_MAP_NAME` of ash.
#[verifier::external_body]
fn fragment_density_map_name() -> (name: String)
    ensures
        name@ == "VK_EXT_fragment_density_map"@,
{
    vk::EXT_FRAGMENT_DENSITY_MAP_NAME.to_string_lossy().into_owned()
}

/// What has to be asked next about fragment density maps.
#[derive(Clone, Copy, PartialEq, Eq, Structural, Debug)]
pub enum DensityQuery {
    AskFeature,
    AskFormat,
    Answer(bool),
}

/// Whether the device can use fragment density maps: it has the extension, the feature,
/// and the format for it. What is not known yet is nothing. Extensions that could not
/// be listed are none.
pub fn query_fragment_density_map_support(
    extensions: Option<&Vec<String>>,
    feature: Option<bool>,
    format_features: Option<u32>,
) -> (query: DensityQuery)
    ensures
        query == (match extensions {
            None => DensityQuery::Answer(false),
            Some(names) => if !lists_name(names@, "VK_EXT_fragment_density_map"@) {
                DensityQuery::Answer(false)
            } else {
                match feature {
                    None => DensityQuery::AskFeature,
                    Some(false) => DensityQuery::Answer(false),
                    Some(true) => match format_features {
                        None => DensityQuery::AskFormat,
                        Some(features) => DensityQuery::Answer(
                            has_flags(features, FORMAT_FEATURE_FRAGMENT_DENSITY_MAP),
                        ),
                    },
                }
            },
        }),
{
    match extensions {
        None => DensityQuery::Answer(false),
        Some(names) => {
            if !find_name(names, &fragment_density_map_name()) {
                return DensityQuery::Answer(false);
            }
            match feature {
                None => DensityQuery::AskFeature,
                Some(usable) => {
                    if !usable {
                        return DensityQuery::Answer(false);
                    }
                    match format_features {
                        None => DensityQuery::AskFormat,
                        Some(features) => DensityQuery::Answer(
                            format_features_contain(features, FORMAT_FEATURE_FRAGMENT_DENSITY_MAP),
                        ),
                    }
                },
            }
        },
    }
}

/// An attachment of the OpenXR pass. What is not cleared is not loaded either.
#[derive(Clone, Copy, PartialEq, Eq, Structural, Debug)]
pub struct XrAttachment {
    pub format: i32,
    pub clear: bool,
    pub store: bool,
    pub initial_layout: i32,
    pub final_layout: i32,
}

/// How the OpenXR pass is made. `replaced` is the pass that is given back before, unless
/// null; the stages and the access are those of its dependency on what came before.
pub struct XrRenderPassPlan {
    pub replaced: u64,
    pub attachments: Vec<XrAttachment>,
    pub stages: u32,
    pub access: u32,
    pub multiview: bool,
    pub density_map: bool,
}

/// The attachments of the OpenXR pass: color, depth, and the density map where it is
/// used.
pub open spec fn xr_attachments(color_format: i32, depth_format: i32, density_map: bool) -> Seq<
    XrAttachment,
> {
    let color = XrAttachment {
        format: color_format,
        clear: true,
        store: true,
        initial_layout: LAYOUT_UNDEFINED,
        final_layout: LAYOUT_COLOR_ATTACHMENT,
    };
    let depth = XrAttachment {
        format: depth_format,
        clear: true,
        store: false,
        initial_layout: LAYOUT_UNDEFINED,
        final_layout: LAYOUT_DEPTH_ATTACHMENT,
    };
    let density = XrAttachment {
        format: XR_FRAGMENT_DENSITY_MAP_FORMAT,
        clear: false,
        store: false,
        initial_layout: LAYOUT_FRAGMENT_DENSITY_MAP,
        final_layout: LAYOUT_FRAGMENT_DENSITY_MAP,
    };
    if density_map {
        seq![color, depth, density]
    } else {
        seq![color, depth]
    }
}

/// The plan is the one for the pass.
pub open spec fn is_xr_pass_plan(
    plan: XrRenderPassPlan,
    before: CxVulkan,
    color_format: i32,
    density_map: bool,
) -> bool {
    &&& plan.replaced == before.xr_render_pass
    &&& plan.attachments@ =~= xr_attachments(color_format, before.depth_format, density_map)
    &&& plan.stages == STAGE_COLOR_ATTACHMENT_OUTPUT + STAGE_EARLY_FRAGMENT_TESTS + (
    if density_map {
        STAGE_FRAGMENT_DENSITY_PROCESS
    } else {
        0
    })
    &&& plan.access == ACCESS_COLOR_ATTACHMENT_WRITE + ACCESS_DEPTH_ATTACHMENT_WRITE + (
    if density_map {
        ACCESS_FRAGMENT_DENSITY_MAP_READ
    } else {
        0
    })
    &&& plan.multiview == before.xr_multiview_enabled
    &&& plan.density_map == density_map
}

/// The pass that is there fits.
pub open spec fn xr_pass_fits(vulkan: CxVulkan, color_format: i32, density_map: bool) -> bool {
    &&& vulkan.swapchain_format == color_format
    &&& vulkan.xr_render_pass != 0
    &&& vulkan.xr_render_pass_uses_fragment_density_map == density_map
}

impl CxVulkan {
    /// Whether a depth format has to be picked first.
    pub fn needs_depth_format(&self) -> (needed: bool)
        ensures
            needed == (self.depth_format == FORMAT_UNDEFINED),
    {
        self.depth_format == FORMAT_UNDEFINED
    }

    /// Whether fixed foveation can be used.
    pub fn supports_openxr_fixed_foveation(&self) -> (supported: bool)
        ensures
            supported == self.xr_fragment_density_map_enabled,
    {
        self.xr_fragment_density_map_enabled
    }

    /// Plans the OpenXR pass for a format, or nothing where the pass that is there fits.
    pub fn ensure_xr_render_pass_for_format(
        &mut self,
        color_format: i32,
        use_fragment_density_map: bool,
    ) -> (plan: Option<XrRenderPassPlan>)
        requires
            old(self).wf(),
        ensures
            final(self).wf(),
            if xr_pass_fits(*old(self), color_format, use_fragment_density_map) {
                plan is None && *final(self) == *old(self)
            } else {
                &&& plan matches Some(plan)
                &&& is_xr_pass_plan(plan, *old(self), color_format, use_fragment_density_map)
                &&& *final(self) == (CxVulkan {
                    xr_render_pass: 0,
                    swapchain_format: color_format,
                    xr_render_pass_uses_fragment_density_map: use_fragment_density_map,
                    ..*old(self)
                })
            },
    {
        if self.swapchain_format == color_format && self.xr_render_pass != 0
            && self.xr_render_pass_uses_fragment_density_map == use_fragment_density_map {
            return None;
        }
        let replaced: u64 = self.xr_render_pass;
        self.xr_render_pass = 0;
        self.swapchain_format = color_format;
        self.xr_render_pass_uses_fragment_density_map = use_fragment_density_map;
        let mut attachments: Vec<XrAttachment> = Vec::new();
        attachments.push(
            XrAttachment {
                format: color_format,
                clear: true,
                store: true,
                initial_layout: LAYOUT_UNDEFINED,
                final_layout: LAYOUT_COLOR_ATTACHMENT,
            },
        );
        attachments.push(
            XrAttachment {
                format: self.depth_format,
                clear: true,
                store: false,
                initial_layout: LAYOUT_UNDEFINED,
                final_layout: LAYOUT_DEPTH_ATTACHMENT,
            },
        );
        let mut stages: u32 = STAGE_COLOR_ATTACHMENT_OUTPUT + STAGE_EARLY_FRAGMENT_TESTS;
        let mut access: u32 = ACCESS_COLOR_ATTACHMENT_WRITE + ACCESS_DEPTH_ATTACHMENT_WRITE;
        if use_fragment_density_map {
            attachments.push(
                XrAttachment {
                    format: XR_FRAGMENT_DENSITY_MAP_FORMAT,
                    clear: false,
                    store: false,
                    initial_layout: LAYOUT_FRAGMENT_DENSITY_MAP,
                    final_layout: LAYOUT_FRAGMENT_DENSITY_MAP,
                },
            );
            stages = stages + STAGE_FRAGMENT_DENSITY_PROCESS;
            access = access + ACCESS_FRAGMENT_DENSITY_MAP_READ;
        }
        Some(
            XrRenderPassPlan {
                replaced,
                attachments,
                stages,
                access,
                multiview: self.xr_multiview_enabled,
                density_map: use_fragment_density_map,
            },
        )
    }

    /// Takes over the OpenXR pass that was made, or reports why there is none.
    pub fn xr_render_pass_created(&mut self, created: Result<u64, i32>) -> (result: Result<
        (),
        String,
    >)
        requires
            old(self).wf(),
        ensures
            final(self).wf(),
            match created {
                Ok(handle) => {
                    &&& result == Ok::<(), String>(())
                    &&& *final(self) == (CxVulkan { xr_render_pass: handle, ..*old(self) })
                },
                Err(code) => {
                    &&& result matches Err(message)
                    &&& message@ == subject_failed_text("create_render_pass"@, "openxr"@, code)
                    &&& *final(self) == *old(self)
                },
            },
    {
        match created {
            Ok(handle) => {
                self.xr_render_pass = handle;
                Ok(())
            },
            Err(code) => Err(subject_failed("create_render_pass", "openxr", code)),
        }
    }
}

/// A depth target, by its parts.
#[derive(Clone, Copy, PartialEq, Eq, Structural, Debug)]
pub struct XrDepthTarget {
    pub image: u64,
    pub memory: u64,
    pub view: u64,
}

/// What both eyes are drawn to. The density view is zero where there is none.
#[derive(Clone, Copy, PartialEq, Eq, Structural, Debug)]
pub struct CxVulkanOpenXrMultiviewTarget {
    pub framebuffer: u64,
    pub color_view: u64,
    pub depth_target: XrDepthTarget,
    pub fragment_density_view: u64,
}

/// An image of the session that is drawn to.
#[derive(Clone, Copy, PartialEq, Eq, Structural, Debug)]
pub struct CxVulkanOpenXrSwapchainImage {
    pub image: u64,
    pub target: CxVulkanOpenXrMultiviewTarget,
}

/// An image with the depth of the real world: a view for each eye and one of both.
#[derive(Clone, Copy, PartialEq, Eq, Structural, Debug)]
pub struct CxVulkanOpenXrDepthImage {
    pub image: u64,
    pub left_view: u64,
    pub right_view: u64,
    pub multiview_view: u64,
}

/// What a session gives back.
#[derive(Clone, Copy, PartialEq, Eq, Structural, Debug)]
pub enum SessionRelease {
    Framebuffer(u64),
    View(u64),
    DepthTarget(XrDepthTarget),
    Buffer(VulkanBuffer),
}

/// How something of a session could not be made: what is given back, in order, and the
/// error.
pub struct SessionFailure {
    pub releases: Vec<SessionRelease>,
    pub message: String,
}

/// Where the making of a target stands: what is made next.
#[derive(Clone, Copy, PartialEq, Eq, Structural, Debug)]
pub enum TargetStage {
    ColorView,
    DepthTarget,
    DensityView,
    Framebuffer,
    Done,
}

/// A target that is being made. What is not made yet is zero.
#[derive(Clone, Copy, PartialEq, Eq, Structural, Debug)]
pub struct MultiviewTargetBuild {
    pub stage: TargetStage,
    pub has_density_map: bool,
    pub target: CxVulkanOpenXrMultiviewTarget,
}

/// A target of which nothing is made yet.
pub open spec fn empty_target() -> CxVulkanOpenXrMultiviewTarget {
    CxVulkanOpenXrMultiviewTarget {
        framebuffer: 0,
        color_view: 0,
        depth_target: XrDepthTarget { image: 0, memory: 0, view: 0 },
        fragment_density_view: 0,
    }
}

/// What a target that is being made holds, in the order in which it was made.
pub open spec fn target_held(build: MultiviewTargetBuild) -> Seq<SessionRelease> {
    let color = SessionRelease::View(build.target.color_view);
    let depth = SessionRelease::DepthTarget(build.target.depth_target);
    match build.stage {
        TargetStage::ColorView => seq![],
        TargetStage::DepthTarget => seq![color],
        TargetStage::DensityView => seq![color, depth],
        TargetStage::Framebuffer => if build.target.fragment_density_view != 0 {
            seq![color, depth, SessionRelease::View(build.target.fragment_density_view)]
        } else {
            seq![color, depth]
        },
        TargetStage::Done => if build.target.fragment_density_view != 0 {
            seq![
                color,
                depth,
                SessionRelease::View(build.target.fragment_density_view),
                SessionRelease::Framebuffer(build.target.framebuffer),
            ]
        } else {
            seq![color, depth, SessionRelease::Framebuffer(build.target.framebuffer)]
        },
    }
}

/// What a target gives back when its next part cannot be made.
pub open spec fn target_given_back(build: MultiviewTargetBuild) -> Seq<SessionRelease> {
    let color = SessionRelease::View(build.target.color_view);
    let depth = SessionRelease::DepthTarget(build.target.depth_target);
    match build.stage {
        TargetStage::ColorView | TargetStage::Done => seq![],
        TargetStage::DepthTarget => seq![color],
        TargetStage::DensityView => seq![color, depth],
        TargetStage::Framebuffer => if build.target.fragment_density_view != 0 {
            seq![SessionRelease::View(build.target.fragment_density_view), color, depth]
        } else {
            seq![color, depth]
        },
    }
}

impl MultiviewTargetBuild {
    /// Begins to make the target of an image.
    pub fn create_openxr_multiview_target(has_density_map: bool) -> (build: MultiviewTargetBuild)
        ensures
            build == (MultiviewTargetBuild {
                stage: TargetStage::ColorView,
                has_density_map,
                target: empty_target(),
            }),
    {
        MultiviewTargetBuild {
            stage: TargetStage::ColorView,
            has_density_map,
            target: CxVulkanOpenXrMultiviewTarget {
                framebuffer: 0,
                color_view: 0,
                depth_target: XrDepthTarget { image: 0, memory: 0, view: 0 },
                fragment_density_view: 0,
            },
        }
    }

    /// Takes over the color view that was made.
    pub fn color_view_created(&mut self, view: u64)
        requires
            old(self).stage == TargetStage::ColorView,
        ensures
            *final(self) == (MultiviewTargetBuild {
                stage: TargetStage::DepthTarget,
                target: CxVulkanOpenXrMultiviewTarget { color_view: view, ..old(self).target },
                ..*old(self)
            }),
    {
        self.target.color_view = view;
        self.stage = TargetStage::DepthTarget;
    }

    /// Takes over the depth target that was made.
    pub fn depth_target_created(&mut self, depth_target: XrDepthTarget)
        requires
            old(self).stage == TargetStage::DepthTarget,
        ensures
            *final(self) == (MultiviewTargetBuild {
                stage: if old(self).has_density_map {
                    TargetStage::DensityView
                } else {
                    TargetStage::Framebuffer
                },
                target: CxVulkanOpenXrMultiviewTarget { depth_target, ..old(self).target },
                ..*old(self)
            }),
    {
        self.target.depth_target = depth_target;
        self.stage = if self.has_density_map {
            TargetStage::DensityView
        } else {
            TargetStage::Framebuffer
        };
    }

    /// Takes over the view of the density map that was made.
    pub fn density_view_created(&mut self, view: u64)
        requires
            old(self).stage == TargetStage::DensityView,
        ensures
            *final(self) == (MultiviewTargetBuild {
                stage: TargetStage::Framebuffer,
                target: CxVulkanOpenXrMultiviewTarget {
                    fragment_density_view: view,
                    ..old(self).target
                },
                ..*old(self)
            }),
    {
        self.target.fragment_density_view = view;
        self.stage = TargetStage::Framebuffer;
    }

    /// The views that the framebuffer is made of.
    pub fn framebuffer_attachments(&self) -> (views: Vec<u64>)
        ensures
            views@ == (if self.target.fragment_density_view != 0 {
                seq![
                    self.target.color_view,
                    self.target.depth_target.view,
                    self.target.fragment_density_view,
                ]
            } else {
                seq![self.target.color_view, self.target.depth_target.view]
            }),
    {
        let mut views: Vec<u64> = vec![self.target.color_view, self.target.depth_target.view];
        if self.target.fragment_density_view != 0 {
            views.push(self.target.fragment_density_view);
        }
        assert(views@ =~= (if self.target.fragment_density_view != 0 {
            seq![
                self.target.color_view,
                self.target.depth_target.view,
                self.target.fragment_density_view,
            ]
        } else {
            seq![self.target.color_view, self.target.depth_target.view]
        }));
        views
    }

    /// Takes over the framebuffer that was made.
    pub fn framebuffer_created(&mut self, framebuffer: u64)
        requires
            old(self).stage == TargetStage::Framebuffer,
        ensures
            *final(self) == (MultiviewTargetBuild {
                stage: TargetStage::Done,
                target: CxVulkanOpenXrMultiviewTarget { framebuffer, ..old(self).target },
                ..*old(self)
            }),
    {
        self.target.framebuffer = framebuffer;
        self.stage = TargetStage::Done;
    }

    fn list_given_back(&self) -> (releases: Vec<SessionRelease>)
        ensures
            releases@ == target_given_back(*self),
    {
        let mut releases: Vec<SessionRelease> = Vec::new();
        match self.stage {
            TargetStage::ColorView | TargetStage::Done => {},
            TargetStage::DepthTarget => {
                releases.push(SessionRelease::View(self.target.color_view));
            },
            TargetStage::DensityView => {
                releases.push(SessionRelease::View(self.target.color_view));
                releases.push(SessionRelease::DepthTarget(self.target.depth_target));
            },
            TargetStage::Framebuffer => {
                if self.target.fragment_density_view != 0 {
                    releases.push(SessionRelease::View(self.target.fragment_density_view));
                }
                releases.push(SessionRelease::View(self.target.color_view));
                releases.push(SessionRelease::DepthTarget(self.target.depth_target));
            },
        }
        assert(releases@ =~= target_given_back(*self));
        releases
    }

    /// Ends after the depth target could not be made.
    pub fn depth_target_failed(&self, error: &str) -> (failure: SessionFailure)
        requires
            self.stage == TargetStage::DepthTarget,
        ensures
            failure.releases@ == target_given_back(*self),
            failure.message@ == "create_depth_target(openxr multiview) failed: "@ + error@,
    {
        let mut message: String = "create_depth_target(openxr multiview) failed: ".to_owned();
        message.append(error);
        SessionFailure { releases: self.list_given_back(), message }
    }

    /// Ends after a view or the framebuffer could not be made.
    pub fn failed(&self, code: i32) -> (failure: SessionFailure)
        requires
            self.stage == TargetStage::ColorView || self.stage == TargetStage::DensityView
                || self.stage == TargetStage::Framebuffer,
        ensures
            failure.releases@ == target_given_back(*self),
            failure.message@ == (match self.stage {
                TargetStage::ColorView => subject_failed_text(
                    "create_image_view"@,
                    "openxr color multiview"@,
                    code,
                ),
                TargetStage::DensityView => subject_failed_text(
                    "create_image_view"@,
                    "openxr fragment density map"@,
                    code,
                ),
                _ => subject_failed_text("create_framebuffer"@, "openxr multiview"@, code),
            }),
    {
        let releases: Vec<SessionRelease> = self.list_given_back();
        let message: String = match self.stage {
            TargetStage::ColorView => subject_failed(
                "create_image_view",
                "openxr color multiview",
                code,
            ),
            TargetStage::DensityView => subject_failed(
                "create_image_view",
                "openxr fragment density map",
                code,
            ),
            _ => subject_failed("create_framebuffer", "openxr multiview", code),
        };
        SessionFailure { releases, message }
    }
}

/// A target whose next part cannot be made gives back all that it holds.
pub proof fn law_failed_target_gives_back_all(build: MultiviewTargetBuild)
    requires
        build.stage != TargetStage::Done,
    ensures
        target_given_back(build).to_multiset() == target_held(build).to_multiset(),
{
    broadcast use vstd::seq_lib::group_to_multiset_ensures;

    let color = SessionRelease::View(build.target.color_view);
    let depth = SessionRelease::DepthTarget(build.target.depth_target);
    let density = SessionRelease::View(build.target.fragment_density_view);
    let none = Seq::<SessionRelease>::empty();
    if build.stage == TargetStage::Framebuffer && build.target.fragment_density_view != 0 {
        assert(target_held(build) =~= none.push(color).push(depth).push(density));
        assert(target_given_back(build) =~= none.push(density).push(color).push(depth));
    }
    assert(target_given_back(build).to_multiset() =~= target_held(build).to_multiset());
}

/// The message for the view of an eye.
pub open spec fn eye_view_failed_text(eye: Seq<char>, code: i32) -> Seq<char> {
    subject_failed_text("create_image_view"@, "openxr depth eye "@ + eye, code)
}

fn eye_view_failed(eye: &str, code: i32) -> (message: String)
    ensures
        message@ == eye_view_failed_text(eye@, code),
{
    let mut subject: String = "openxr depth eye ".to_owned();
    subject.append(eye);
    subject_failed("create_image_view", subject.as_str(), code)
}

/// Takes what came of the views of both eyes. One that was made alone is given back.
pub fn create_openxr_depth_view(left: Result<u64, i32>, right: Result<u64, i32>) -> (views: Result<
    (u64, u64),
    SessionFailure,
>)
    ensures
        match (left, right) {
            (Ok(left), Ok(right)) => views == Ok::<(u64, u64), SessionFailure>((left, right)),
            (Ok(left), Err(code)) => views matches Err(failure) && failure.releases@ == seq![
                SessionRelease::View(left),
            ] && failure.message@ == eye_view_failed_text("1"@, code),
            (Err(code), Ok(right)) => views matches Err(failure) && failure.releases@ == seq![
                SessionRelease::View(right),
            ] && failure.message@ == eye_view_failed_text("0"@, code),
            (Err(first), Err(second)) => views matches Err(failure) && failure.releases@.len() == 0
                && failure.message@ == eye_view_failed_text("0"@, first) + "; "@
                + eye_view_failed_text("1"@, second),
        },
{
    let mut releases: Vec<SessionRelease> = Vec::new();
    match (left, right) {
        (Ok(left), Ok(right)) => Ok((left, right)),
        (Ok(left), Err(code)) => {
            releases.push(SessionRelease::View(left));
            assert(releases@ =~= seq![SessionRelease::View(left)]);
            Err(SessionFailure { releases, message: eye_view_failed("1", code) })
        },
        (Err(code), Ok(right)) => {
            releases.push(SessionRelease::View(right));
            assert(releases@ =~= seq![SessionRelease::View(right)]);
            Err(SessionFailure { releases, message: eye_view_failed("0", code) })
        },
        (Err(first), Err(second)) => {
            let mut message: String = eye_view_failed("0", first);
            message.append("; ");
            let right: String = eye_view_failed("1", second);
            message.append(right.as_str());
            Err(SessionFailure { releases, message })
        },
    }
}

/// Takes what came of the view of both eyes together. Without it the views of the eyes
/// are given back.
pub fn create_openxr_depth_array_view(
    image: u64,
    views: (u64, u64),
    created: Result<u64, i32>,
) -> (result: Result<CxVulkanOpenXrDepthImage, SessionFailure>)
    ensures
        match created {
            Ok(view) => result == Ok::<CxVulkanOpenXrDepthImage, SessionFailure>(
                CxVulkanOpenXrDepthImage {
                    image,
                    left_view: views.0,
                    right_view: views.1,
                    multiview_view: view,
                },
            ),
            Err(code) => result matches Err(failure) && failure.releases@ == seq![
                SessionRelease::View(views.0),
                SessionRelease::View(views.1),
            ] && failure.message@ == subject_failed_text(
                "create_image_view"@,
                "openxr depth multiview"@,
                code,
            ),
        },
{
    match created {
        Ok(view) => Ok(
            CxVulkanOpenXrDepthImage {
                image,
                left_view: views.0,
                right_view: views.1,
                multiview_view: view,
            },
        ),
        Err(code) => {
            let releases: Vec<SessionRelease> = vec![
                SessionRelease::View(views.0),
                SessionRelease::View(views.1),
            ];
            assert(releases@ =~= seq![
                SessionRelease::View(views.0),
                SessionRelease::View(views.1),
            ]);
            Err(
                SessionFailure {
                    releases,
                    message: subject_failed("create_image_view", "openxr depth multiview", code),
                },
            )
        },
    }
}

/// What a session draws to and reads from.
pub struct CxVulkanOpenXrSessionData {
    pub width: u32,
    pub height: u32,
    pub color_format: i32,
    pub depth_width: u32,
    pub depth_height: u32,
    pub color_images: Vec<CxVulkanOpenXrSwapchainImage>,
    pub depth_images: Vec<CxVulkanOpenXrDepthImage>,
    pub color_readback_buffer: Option<VulkanBuffer>,
    pub depth_readback_buffer: Option<VulkanBuffer>,
}

/// The size of a session's images.
#[derive(Clone, Copy, PartialEq, Eq, Structural, Debug)]
pub struct SessionSize {
    pub width: u32,
    pub height: u32,
    pub depth_width: u32,
    pub depth_height: u32,
}

/// The buffers that a session is read back through: none for images without pixels.
#[derive(Clone, Copy, PartialEq, Eq, Structural, Debug)]
pub struct ReadbackSizes {
    pub depth: Option<u64>,
    pub color: Option<u64>,
}

/// The bytes of an image with `width` times `height` pixels.
pub open spec fn image_bytes(width: u32, height: u32, pixel: int) -> int {
    width * height * pixel
}

/// The bytes to read an image back; nothing for one without pixels.
pub open spec fn readback_bytes(width: u32, height: u32, pixel: int) -> Option<u64> {
    if width > 0 && height > 0 {
        Some(image_bytes(width, height, pixel) as u64)
    } else {
        None
    }
}

proof fn lemma_pixels(width: u32, height: u32)
    ensures
        0 <= width * height <= u64::MAX,
{
    assert(0 <= width * height <= 0xffff_ffff * 0xffff_ffff) by (nonlinear_arith)
        requires
            0 <= width <= 0xffff_ffff,
            0 <= height <= 0xffff_ffff,
    ;
}

impl SessionSize {
    /// The images fit in the device's sizes.
    pub open spec fn fits(self) -> bool {
        &&& image_bytes(self.width, self.height, 4) <= u64::MAX
        &&& image_bytes(self.depth_width, self.depth_height, 2) <= u64::MAX
    }

    /// The sizes of the buffers for the images, two bytes for a pixel of depth and four
    /// for one of color.
    pub fn readback_sizes(&self) -> (sizes: ReadbackSizes)
        requires
            self.fits(),
        ensures
            sizes == (ReadbackSizes {
                depth: readback_bytes(self.depth_width, self.depth_height, 2),
                color: readback_bytes(self.width, self.height, 4),
            }),
    {
        proof {
            lemma_pixels(self.width, self.height);
            lemma_pixels(self.depth_width, self.depth_height);
        }
        let depth: Option<u64> = if self.depth_width > 0 && self.depth_height > 0 {
            let pixels: u64 = self.depth_width as u64 * self.depth_height as u64;
            Some(pixels * 2)
        } else {
            None
        };
        let color: Option<u64> = if self.width > 0 && self.height > 0 {
            let pixels: u64 = self.width as u64 * self.height as u64;
            Some(pixels * 4)
        } else {
            None
        };
        ReadbackSizes { depth, color }
    }
}

/// Whether a session uses density maps: there is one for every color image.
pub fn session_uses_density_map(
    enabled: bool,
    color_images: usize,
    foveation_images: Option<usize>,
) -> (uses: bool)
    ensures
        uses == (enabled && foveation_images == Some(color_images)),
{
    match foveation_images {
        Some(count) => enabled && count == color_images,
        None => false,
    }
}

impl CxVulkanOpenXrSessionData {
    /// Begins a session's data without images.
    pub fn create_openxr_session_data(
        size: SessionSize,
        color_format: i32,
        depth_readback_buffer: Option<VulkanBuffer>,
        color_readback_buffer: Option<VulkanBuffer>,
    ) -> (session: CxVulkanOpenXrSessionData)
        ensures
            session.width == at_least_one(size.width),
            session.height == at_least_one(size.height),
            session.color_format == color_format,
            session.depth_width == size.depth_width,
            session.depth_height == size.depth_height,
            session.color_images@.len() == 0,
            session.depth_images@.len() == 0,
            session.color_readback_buffer == color_readback_buffer,
            session.depth_readback_buffer == depth_readback_buffer,
    {
        CxVulkanOpenXrSessionData {
            width: if size.width == 0 {
                1
            } else {
                size.width
            },
            height: if size.height == 0 {
                1
            } else {
                size.height
            },
            color_format,
            depth_width: size.depth_width,
            depth_height: size.depth_height,
            color_images: Vec::new(),
            depth_images: Vec::new(),
            color_readback_buffer,
            depth_readback_buffer,
        }
    }
}

/// What a session needs next.
#[derive(Clone, Copy, PartialEq, Eq, Structural, Debug)]
pub enum SessionStep {
    /// The target of a color image, with its density map where there is one.
    Target { image: u64, foveation: Option<u64> },
    /// The views of a depth image.
    DepthViews { image: u64 },
    Done,
}

/// A session whose images are being made: a target for each color image, then the views
/// of the depth images as far as they can be made.
pub struct SessionBuild {
    pub session: CxVulkanOpenXrSessionData,
    pub color_images: Vec<u64>,
    pub depth_images: Vec<u64>,
    /// The density maps of the color images; none where they are not used.
    pub foveation_images: Vec<u64>,
    pub depth_failed: bool,
}

impl SessionBuild {
    /// The images that were made are those of the session, in order, and every color
    /// image comes before any depth image.
    pub open spec fn wf(&self) -> bool {
        &&& self.foveation_images@.len() == 0 || self.foveation_images@.len()
            == self.color_images@.len()
        &&& self.session.color_images@.len() <= self.color_images@.len()
        &&& self.session.depth_images@.len() <= self.depth_images@.len()
        &&& self.session.depth_images@.len() > 0 || self.depth_failed
            ==> self.session.color_images@.len() == self.color_images@.len()
        &&& forall|i: int|
            0 <= i < self.session.color_images@.len() ==> (
            #[trigger] self.session.color_images@[i]).image == self.color_images@[i]
        &&& forall|i: int|
            0 <= i < self.session.depth_images@.len() ==> (
            #[trigger] self.session.depth_images@[i]).image == self.depth_images@[i]
    }

    /// What is needed next.
    pub open spec fn needed(&self) -> SessionStep {
        let colors = self.session.color_images@.len() as int;
        let depths = self.session.depth_images@.len() as int;
        if colors < self.color_images@.len() {
            SessionStep::Target {
                image: self.color_images@[colors],
                foveation: if self.foveation_images@.len() == 0 {
                    None
                } else {
                    Some(self.foveation_images@[colors])
                },
            }
        } else if !self.depth_failed && depths < self.depth_images@.len() {
            SessionStep::DepthViews { image: self.depth_images@[depths] }
        } else {
            SessionStep::Done
        }
    }

    /// Begins with the images of a session that has none yet.
    pub fn new(
        session: CxVulkanOpenXrSessionData,
        color_images: Vec<u64>,
        depth_images: Vec<u64>,
        foveation_images: Option<Vec<u64>>,
        density_map: bool,
    ) -> (build: SessionBuild)
        requires
            session.color_images@.len() == 0,
            session.depth_images@.len() == 0,
            density_map ==> (foveation_images matches Some(images) && images@.len()
                == color_images@.len()),
        ensures
            build.wf(),
            build.session == session,
            build.color_images == color_images,
            build.depth_images == depth_images,
            build.foveation_images@ == (if density_map {
                foveation_images->0@
            } else {
                seq![]
            }),
            !build.depth_failed,
    {
        let foveation_images: Vec<u64> = match foveation_images {
            Some(images) => if density_map {
                images
            } else {
                Vec::new()
            },
            None => Vec::new(),
        };
        assert(!density_map ==> foveation_images@ =~= seq![]);
        SessionBuild { session, color_images, depth_images, foveation_images, depth_failed: false }
    }

    /// Says what is needed next.
    pub fn next(&self) -> (step: SessionStep)
        requires
            self.wf(),
        ensures
            step == self.needed(),
    {
        let colors: usize = self.session.color_images.len();
        let depths: usize = self.session.depth_images.len();
        if colors < self.color_images.len() {
            SessionStep::Target {
                image: self.color_images[colors],
                foveation: if self.foveation_images.len() == 0 {
                    None
                } else {
                    Some(self.foveation_images[colors])
                },
            }
        } else if !self.depth_failed && depths < self.depth_images.len() {
            SessionStep::DepthViews { image: self.depth_images[depths] }
        } else {
            SessionStep::Done
        }
    }

    /// Takes what came of the target of a color image. There is no session without it.
    pub fn target_created(
        &mut self,
        created: Result<CxVulkanOpenXrMultiviewTarget, String>,
    ) -> (result: Result<(), String>)
        requires
            old(self).wf(),
            old(self).needed() is Target,
        ensures
            final(self).wf(),
            match created {
                Ok(target) => {
                    &&& result is Ok
                    &&& final(self).session.color_images@ == old(self).session.color_images@.push(
                        (CxVulkanOpenXrSwapchainImage {
                            image: old(self).needed()->Target_image,
                            target,
                        }),
                    )
                    &&& *final(self) == (SessionBuild {
                        session: CxVulkanOpenXrSessionData {
                            color_images: final(self).session.color_images,
                            ..old(self).session
                        },
                        ..*old(self)
                    })
                },
                Err(message) => result == Err::<(), String>(message) && *final(self) == *old(self),
            },
    {
        let colors: usize = self.session.color_images.len();
        match created {
            Ok(target) => {
                let image: u64 = self.color_images[colors];
                self.session.color_images.push(CxVulkanOpenXrSwapchainImage { image, target });
                Ok(())
            },
            Err(message) => Err(message),
        }
    }

    /// Takes what came of the views of a depth image. Where they could not be made no
    /// further depth image is tried, those before it are kept, and what is to be given
    /// back and the warning are returned.
    pub fn depth_views_created(
        &mut self,
        created: Result<CxVulkanOpenXrDepthImage, SessionFailure>,
    ) -> (failure: Option<SessionFailure>)
        requires
            old(self).wf(),
            old(self).needed() is DepthViews,
            created matches Ok(image) ==> image.image == old(self).needed()->DepthViews_image,
        ensures
            final(self).wf(),
            match created {
                Ok(image) => {
                    &&& failure is None
                    &&& final(self).session.depth_images@ == old(self).session.depth_images@.push(
                        image,
                    )
                    &&& *final(self) == (SessionBuild {
                        session: CxVulkanOpenXrSessionData {
                            depth_images: final(self).session.depth_images,
                            ..old(self).session
                        },
                        ..*old(self)
                    })
                },
                Err(left) => {
                    &&& failure matches Some(warned)
                    &&& warned.releases == left.releases
                    &&& warned.message@
                        == "OpenXR Vulkan: environment depth image views unavailable, disabling XR depth sampling: "@
                        + left.message@
                    &&& *final(self) == (SessionBuild { depth_failed: true, ..*old(self) })
                    &&& final(self).needed() is Done
                },
            },
    {
        match created {
            Ok(image) => {
                self.session.depth_images.push(image);
                None
            },
            Err(left) => {
                self.depth_failed = true;
                let mut message: String =
                    "OpenXR Vulkan: environment depth image views unavailable, disabling XR depth sampling: ".to_owned();
                message.append(left.message.as_str());
                Some(SessionFailure { releases: left.releases, message })
            },
        }
    }

    /// Gives the session that needs nothing more: each color image has its target, and
    /// each depth image its views unless one of them could not be made.
    pub fn finish(self) -> (session: CxVulkanOpenXrSessionData)
        requires
            self.wf(),
            self.needed() is Done,
        ensures
            session == self.session,
            session.color_images@.len() == self.color_images@.len(),
            !self.depth_failed ==> session.depth_images@.len() == self.depth_images@.len(),
    {
        self.session
    }
}

/// What a target gives back when its session ends.
pub open spec fn target_releases(target: CxVulkanOpenXrMultiviewTarget) -> Seq<SessionRelease> {
    (if target.framebuffer != 0 {
        seq![SessionRelease::Framebuffer(target.framebuffer)]
    } else {
        seq![]
    }) + (if target.fragment_density_view != 0 {
        seq![SessionRelease::View(target.fragment_density_view)]
    } else {
        seq![]
    }) + (if target.color_view != 0 {
        seq![SessionRelease::View(target.color_view)]
    } else {
        seq![]
    }) + seq![SessionRelease::DepthTarget(target.depth_target)]
}

/// A view, unless null.
pub open spec fn view_release(view: u64) -> Seq<SessionRelease> {
    if view != 0 {
        seq![SessionRelease::View(view)]
    } else {
        seq![]
    }
}

/// What the first `n` color images give back.
pub open spec fn color_releases(images: Seq<CxVulkanOpenXrSwapchainImage>, n: int) -> Seq<
    SessionRelease,
>
    decreases n,
{
    if n <= 0 {
        seq![]
    } else {
        color_releases(images, n - 1) + target_releases(images[n - 1].target)
    }
}

/// What the first `n` depth images give back.
pub open spec fn depth_releases(images: Seq<CxVulkanOpenXrDepthImage>, n: int) -> Seq<
    SessionRelease,
>
    decreases n,
{
    if n <= 0 {
        seq![]
    } else {
        let image = images[n - 1];
        depth_releases(images, n - 1) + view_release(image.left_view) + view_release(
            image.right_view,
        ) + view_release(image.multiview_view)
    }
}

/// A buffer, if there is one.
pub open spec fn buffer_release(buffer: Option<VulkanBuffer>) -> Seq<SessionRelease> {
    match buffer {
        Some(buffer) => seq![SessionRelease::Buffer(buffer)],
        None => seq![],
    }
}

/// All that a session gives back.
pub open spec fn session_releases(session: CxVulkanOpenXrSessionData) -> Seq<SessionRelease> {
    color_releases(session.color_images@, session.color_images@.len() as int) + depth_releases(
        session.depth_images@,
        session.depth_images@.len() as int,
    ) + buffer_release(session.depth_readback_buffer) + buffer_release(
        session.color_readback_buffer,
    )
}

fn append_view(releases: &mut Vec<SessionRelease>, view: u64)
    ensures
        final(releases)@ == old(releases)@ + view_release(view),
{
    if view != 0 {
        releases.push(SessionRelease::View(view));
    }
    assert(releases@ =~= old(releases)@ + view_release(view));
}

fn append_buffer(releases: &mut Vec<SessionRelease>, buffer: Option<VulkanBuffer>)
    ensures
        final(releases)@ == old(releases)@ + buffer_release(buffer),
{
    match buffer {
        Some(buffer) => {
            releases.push(SessionRelease::Buffer(buffer));
        },
        None => {},
    }
    assert(releases@ =~= old(releases)@ + buffer_release(buffer));
}

fn append_target(releases: &mut Vec<SessionRelease>, target: &CxVulkanOpenXrMultiviewTarget)
    ensures
        final(releases)@ == old(releases)@ + target_releases(*target),
{
    if target.framebuffer != 0 {
        releases.push(SessionRelease::Framebuffer(target.framebuffer));
    }
    append_view(releases, target.fragment_density_view);
    append_view(releases, target.color_view);
    releases.push(SessionRelease::DepthTarget(target.depth_target));
    assert(releases@ =~= old(releases)@ + target_releases(*target));
}

/// Gives a session's data up once its frames were waited for, and says what goes back.
pub fn destroy_openxr_session_data(session: CxVulkanOpenXrSessionData) -> (releases: Vec<
    SessionRelease,
>)
    ensures
        releases@ == session_releases(session),
{
    let mut releases: Vec<SessionRelease> = Vec::new();
    let mut i: usize = 0;
    while i < session.color_images.len()
        invariant
            i <= session.color_images@.len(),
            releases@ == color_releases(session.color_images@, i as int),
        decreases session.color_images@.len() - i,
    {
        append_target(&mut releases, &session.color_images[i].target);
        i = i + 1;
    }
    let ghost colors = releases@;
    let mut i: usize = 0;
    assert(releases@ =~= colors + depth_releases(session.depth_images@, 0));
    while i < session.depth_images.len()
        invariant
            i <= session.depth_images@.len(),
            releases@ == colors + depth_releases(session.depth_images@, i as int),
        decreases session.depth_images@.len() - i,
    {
        let image: CxVulkanOpenXrDepthImage = session.depth_images[i];
        append_view(&mut releases, image.left_view);
        append_view(&mut releases, image.right_view);
        append_view(&mut releases, image.multiview_view);
        i = i + 1;
        assert(releases@ =~= colors + depth_releases(session.depth_images@, i as int));
    }
    append_buffer(&mut releases, session.depth_readback_buffer);
    append_buffer(&mut releases, session.color_readback_buffer);
    assert(releases@ =~= session_releases(session));
    releases
}

/// A target that was made gives back, when its session ends, all that it holds.
pub proof fn law_target_is_given_back_whole(build: MultiviewTargetBuild)
    requires
        build.stage == TargetStage::Done,
        build.target.framebuffer != 0,
        build.target.color_view != 0,
    ensures
        target_releases(build.target).to_multiset() == target_held(build).to_multiset(),
{
    broadcast use vstd::seq_lib::group_to_multiset_ensures;

    let color = SessionRelease::View(build.target.color_view);
    let depth = SessionRelease::DepthTarget(build.target.depth_target);
    let density = SessionRelease::View(build.target.fragment_density_view);
    let framebuffer = SessionRelease::Framebuffer(build.target.framebuffer);
    let none = Seq::<SessionRelease>::empty();
    if build.target.fragment_density_view != 0 {
        assert(target_held(build) =~= none.push(color).push(depth).push(density).push(framebuffer));
        assert(target_releases(build.target) =~= none.push(framebuffer).push(density).push(
            color,
        ).push(depth));
    } else {
        assert(target_held(build) =~= none.push(color).push(depth).push(framebuffer));
        assert(target_releases(build.target) =~= none.push(framebuffer).push(color).push(depth));
    }
    assert(target_releases(build.target).to_multiset() =~= target_held(build).to_multiset());
}

/// Which images are read back.
#[derive(Clone, Copy, PartialEq, Eq, Structural, Debug)]
pub enum ReadbackKind {
    Depth,
    Color,
}

/// Where a readback stands: the work that is next.
#[derive(Clone, Copy, PartialEq, Eq, Structural, Debug)]
pub enum ReadbackStage {
    WaitFence,
    ResetFence,
    ReleaseFrameResources,
    ResetCommands,
    BeginCommands,
    /// Bring the image to be read, copy it, and bring it back.
    RecordCopy,
    EndCommands,
    Submit,
    WaitSubmit,
    MapMemory,
    Done,
}

/// The stage after one that succeeded. Only for depth are the frame's resources given
/// back.
pub open spec fn readback_following(stage: ReadbackStage, kind: ReadbackKind) -> ReadbackStage {
    match stage {
        ReadbackStage::WaitFence => ReadbackStage::ResetFence,
        ReadbackStage::ResetFence => if kind == ReadbackKind::Depth {
            ReadbackStage::ReleaseFrameResources
        } else {
            ReadbackStage::ResetCommands
        },
        ReadbackStage::ReleaseFrameResources => ReadbackStage::ResetCommands,
        ReadbackStage::ResetCommands => ReadbackStage::BeginCommands,
        ReadbackStage::BeginCommands => ReadbackStage::RecordCopy,
        ReadbackStage::RecordCopy => ReadbackStage::EndCommands,
        ReadbackStage::EndCommands => ReadbackStage::Submit,
        ReadbackStage::Submit => ReadbackStage::WaitSubmit,
        ReadbackStage::WaitSubmit => ReadbackStage::MapMemory,
        ReadbackStage::MapMemory => ReadbackStage::Done,
        ReadbackStage::Done => ReadbackStage::Done,
    }
}

/// How a message names the call of a stage.
pub open spec fn readback_call(stage: ReadbackStage) -> Seq<char> {
    match stage {
        ReadbackStage::WaitFence | ReadbackStage::WaitSubmit => "wait_for_fences"@,
        ReadbackStage::ResetFence => "reset_fences"@,
        ReadbackStage::ResetCommands => "reset_command_buffer"@,
        ReadbackStage::BeginCommands => "begin_command_buffer"@,
        ReadbackStage::EndCommands => "end_command_buffer"@,
        ReadbackStage::Submit => "queue_submit"@,
        ReadbackStage::MapMemory => "map_memory"@,
        _ => ""@,
    }
}

/// How a message names what a stage is for.
pub open spec fn readback_subject(stage: ReadbackStage, kind: ReadbackKind) -> Seq<char> {
    match kind {
        ReadbackKind::Depth => if stage == ReadbackStage::WaitSubmit {
            "depth readback submit"@
        } else {
            "depth readback"@
        },
        ReadbackKind::Color => if stage == ReadbackStage::WaitSubmit {
            "color readback submit"@
        } else {
            "color readback"@
        },
    }
}

/// A readback under way.
#[derive(Clone, Copy, PartialEq, Eq, Structural, Debug)]
pub struct ReadbackRun {
    pub kind: ReadbackKind,
    pub stage: ReadbackStage,
    pub image: u64,
    pub buffer: VulkanBuffer,
    pub width: u32,
    pub height: u32,
    pub eye: u32,
    pub byte_len: u64,
}

impl ReadbackRun {
    /// Goes on to the next stage after the current one succeeded.
    pub fn advance(&mut self)
        ensures
            *final(self) == (ReadbackRun {
                stage: readback_following(old(self).stage, old(self).kind),
                ..*old(self)
            }),
    {
        self.stage = match self.stage {
            ReadbackStage::WaitFence => ReadbackStage::ResetFence,
            ReadbackStage::ResetFence => {
                if self.kind == ReadbackKind::Depth {
                    ReadbackStage::ReleaseFrameResources
                } else {
                    ReadbackStage::ResetCommands
                }
            },
            ReadbackStage::ReleaseFrameResources => ReadbackStage::ResetCommands,
            ReadbackStage::ResetCommands => ReadbackStage::BeginCommands,
            ReadbackStage::BeginCommands => ReadbackStage::RecordCopy,
            ReadbackStage::RecordCopy => ReadbackStage::EndCommands,
            ReadbackStage::EndCommands => ReadbackStage::Submit,
            ReadbackStage::Submit => ReadbackStage::WaitSubmit,
            ReadbackStage::WaitSubmit => ReadbackStage::MapMemory,
            ReadbackStage::MapMemory => ReadbackStage::Done,
            ReadbackStage::Done => ReadbackStage::Done,
        };
    }

    /// The message for the current stage whose call returned an error.
    pub fn failed(&self, code: i32) -> (message: String)
        ensures
            message@ == subject_failed_text(
                readback_call(self.stage),
                readback_subject(self.stage, self.kind),
                code,
            ),
    {
        let subject: &str = match self.kind {
            ReadbackKind::Depth => {
                if self.stage == ReadbackStage::WaitSubmit {
                    "depth readback submit"
                } else {
                    "depth readback"
                }
            },
            ReadbackKind::Color => {
                if self.stage == ReadbackStage::WaitSubmit {
                    "color readback submit"
                } else {
                    "color readback"
                }
            },
        };
        let call: &str = match self.stage {
            ReadbackStage::WaitFence | ReadbackStage::WaitSubmit => "wait_for_fences",
            ReadbackStage::ResetFence => "reset_fences",
            ReadbackStage::ResetCommands => "reset_command_buffer",
            ReadbackStage::BeginCommands => "begin_command_buffer",
            ReadbackStage::EndCommands => "end_command_buffer",
            ReadbackStage::Submit => "queue_submit",
            ReadbackStage::MapMemory => "map_memory",
            _ => "",
        };
        subject_failed(call, subject, code)
    }
}

fn with_index(text: &str, index: usize) -> (message: String)
    ensures
        message@ == text@ + decimal_text(index as nat),
{
    let mut message: String = text.to_owned();
    let number: String = decimal(index as u64);
    message.append(number.as_str());
    message
}

/// Begins to read the depth of an eye back.
pub fn read_openxr_depth_image(
    session: &CxVulkanOpenXrSessionData,
    depth_image_index: usize,
    eye: u32,
) -> (result: Result<ReadbackRun, String>)
    requires
        image_bytes(session.depth_width, session.depth_height, 2) <= u64::MAX,
    ensures
        if depth_image_index >= session.depth_images@.len() {
            result matches Err(message) && message@ == "invalid OpenXR depth image index "@
                + decimal_text(depth_image_index as nat)
        } else if session.depth_readback_buffer is None {
            result matches Err(message) && message@ == "OpenXR depth readback buffer unavailable"@
        } else if session.depth_width == 0 || session.depth_height == 0 {
            result matches Err(message) && message@
                == "OpenXR depth swapchain has invalid dimensions"@
        } else {
            result == Ok::<ReadbackRun, String>(
                ReadbackRun {
                    kind: ReadbackKind::Depth,
                    stage: ReadbackStage::WaitFence,
                    image: session.depth_images@[depth_image_index as int].image,
                    buffer: session.depth_readback_buffer->0,
                    width: session.depth_width,
                    height: session.depth_height,
                    eye,
                    byte_len: image_bytes(session.depth_width, session.depth_height, 2) as u64,
                },
            )
        },
{
    if depth_image_index >= session.depth_images.len() {
        return Err(with_index("invalid OpenXR depth image index ", depth_image_index));
    }
    match session.depth_readback_buffer {
        None => Err("OpenXR depth readback buffer unavailable".to_owned()),
        Some(buffer) => {
            if session.depth_width == 0 || session.depth_height == 0 {
                return Err("OpenXR depth swapchain has invalid dimensions".to_owned());
            }
            proof {
                lemma_pixels(session.depth_width, session.depth_height);
            }
            let pixels: u64 = session.depth_width as u64 * session.depth_height as u64;
            Ok(
                ReadbackRun {
                    kind: ReadbackKind::Depth,
                    stage: ReadbackStage::WaitFence,
                    image: session.depth_images[depth_image_index].image,
                    buffer,
                    width: session.depth_width,
                    height: session.depth_height,
                    eye,
                    byte_len: pixels * 2,
                },
            )
        },
    }
}

/// Begins to read the color of an eye back.
pub fn read_openxr_color_image_rgba(
    session: &CxVulkanOpenXrSessionData,
    color_image_index: usize,
    eye: u32,
) -> (result: Result<ReadbackRun, String>)
    requires
        image_bytes(session.width, session.height, 4) <= u64::MAX,
    ensures
        if color_image_index >= session.color_images@.len() {
            result matches Err(message) && message@ == "invalid OpenXR color image index "@
                + decimal_text(color_image_index as nat)
        } else if session.color_readback_buffer is None {
            result matches Err(message) && message@ == "OpenXR color readback buffer unavailable"@
        } else if session.width == 0 || session.height == 0 {
            result matches Err(message) && message@ == "OpenXR color readback dimensions are zero"@
        } else {
            result == Ok::<ReadbackRun, String>(
                ReadbackRun {
                    kind: ReadbackKind::Color,
                    stage: ReadbackStage::WaitFence,
                    image: session.color_images@[color_image_index as int].image,
                    buffer: session.color_readback_buffer->0,
                    width: session.width,
                    height: session.height,
                    eye,
                    byte_len: image_bytes(session.width, session.height, 4) as u64,
                },
            )
        },
{
    if color_image_index >= session.color_images.len() {
        return Err(with_index("invalid OpenXR color image index ", color_image_index));
    }
    match session.color_readback_buffer {
        None => Err("OpenXR color readback buffer unavailable".to_owned()),
        Some(buffer) => {
            if session.width == 0 || session.height == 0 {
                return Err("OpenXR color readback dimensions are zero".to_owned());
            }
            proof {
                lemma_pixels(session.width, session.height);
            }
            let pixels: u64 = session.width as u64 * session.height as u64;
            Ok(
                ReadbackRun {
                    kind: ReadbackKind::Color,
                    stage: ReadbackStage::WaitFence,
                    image: session.color_images[color_image_index].image,
                    buffer,
                    width: session.width,
                    height: session.height,
                    eye,
                    byte_len: pixels * 4,
                },
            )
        },
    }
}

/// Turns the bytes of a session's image into red, green, blue and alpha.
pub fn openxr_color_to_rgba(bytes: Vec<u8>, format: i32) -> (result: Result<Vec<u8>, String>)
    ensures
        if blue_first(format) {
            result matches Ok(rgba) && rgba@ == swapped_pixels(bytes@)
        } else if readback_format(format) {
            result matches Ok(rgba) && rgba@ == bytes@
        } else {
            result matches Err(message) && message@
                == "OpenXR color readback does not support format "@ + format_debug(format)
        },
{
    pixels_to_rgba(bytes, format, "OpenXR color readback does not support format ")
}

/// A session reads back through a buffer of the size that its images need.
pub proof fn law_readback_fits_its_buffer(session: CxVulkanOpenXrSessionData, size: SessionSize)
    requires
        size.fits(),
        session.width == at_least_one(size.width),
        session.height == at_least_one(size.height),
        session.depth_width == size.depth_width,
        session.depth_height == size.depth_height,
    ensures
        readback_bytes(size.depth_width, size.depth_height, 2) matches Some(bytes) ==> bytes
            == image_bytes(session.depth_width, session.depth_height, 2),
        readback_bytes(size.width, size.height, 4) matches Some(bytes) ==> bytes == image_bytes(
            session.width,
            session.height,
            4,
        ),
{
    lemma_pixels(size.width, size.height);
    lemma_pixels(size.depth_width, size.depth_height);
}

/// A pass of a session clears color and depth, keeps only the color, and reads a density
/// map exactly where it has one.
pub proof fn law_xr_pass_keeps_the_color(color_format: i32, depth_format: i32, density_map: bool)
    ensures
        ({
            let attachments = xr_attachments(color_format, depth_format, density_map);
            &&& attachments.len() == if density_map {
                3int
            } else {
                2
            }
            &&& attachments[0].format == color_format && attachments[1].format == depth_format
            &&& attachments[0].clear && attachments[0].store
            &&& attachments[1].clear && !attachments[1].store
            &&& attachments[0].initial_layout == 0 && attachments[0].final_layout == 2
            &&& attachments[1].initial_layout == 0 && attachments[1].final_layout == 3
            &&& density_map ==> attachments[2].format == 16 && !attachments[2].clear
                && !attachments[2].store && attachments[2].initial_layout
                == attachments[2].final_layout
        }),
{
}

/// The pass of a session fits exactly where it is there, for the format, with or without a
/// density map as is asked for; a plan for another gives back the one before.
pub proof fn law_xr_pass_fits_what_is_asked(
    vulkan: CxVulkan,
    color_format: i32,
    density_map: bool,
    plan: XrRenderPassPlan,
)
    ensures
        vulkan.xr_render_pass == 0 ==> !xr_pass_fits(vulkan, color_format, density_map),
        vulkan.swapchain_format != color_format ==> !xr_pass_fits(
            vulkan,
            color_format,
            density_map,
        ),
        xr_pass_fits(vulkan, color_format, density_map) ==> !xr_pass_fits(
            vulkan,
            color_format,
            !density_map,
        ),
        vulkan.xr_render_pass != 0 && vulkan.swapchain_format == color_format
            && vulkan.xr_render_pass_uses_fragment_density_map == density_map ==> xr_pass_fits(
            vulkan,
            color_format,
            density_map,
        ),
        is_xr_pass_plan(plan, vulkan, color_format, density_map) ==> {
            &&& plan.replaced == vulkan.xr_render_pass
            &&& plan.multiview == vulkan.xr_multiview_enabled
            &&& plan.density_map == density_map
            &&& plan.stages == if density_map {
                0x80_0500u32
            } else {
                0x500u32
            }
            &&& plan.access == if density_map {
                0x100_0500u32
            } else {
                0x500u32
            }
        },
{
}

/// A readback has a buffer exactly where the image has a pixel, with room for all pixels.
pub proof fn law_readback_holds_every_pixel(width: u32, height: u32, pixel: int)
    requires
        0 < pixel,
        width * height * pixel <= u64::MAX,
    ensures
        readback_bytes(width, height, pixel) is Some <==> width >= 1 && height >= 1,
        readback_bytes(width, height, pixel) is Some ==> readback_bytes(width, height, pixel)->0
            == width * height * pixel,
{
    assert(width * height * pixel >= 0) by (nonlinear_arith)
        requires
            0 < pixel,
            width >= 0,
            height >= 0,
    ;
}

/// A session is made image by image: while a color image has no target, the next one is
/// asked for, in order and with its own density map; then each depth image in order until
/// one fails; and nothing is asked for exactly where all that is done.
pub proof fn law_session_is_made_image_by_image(build: SessionBuild)
    requires
        build.wf(),
    ensures
        ({
            let colors = build.session.color_images@.len() as int;
            let depths = build.session.depth_images@.len() as int;
            let needed = build.needed();
            &&& needed is Target <==> colors < build.color_images@.len()
            &&& needed is Target ==> needed->Target_image == build.color_images@[colors]
            &&& needed is Target && build.foveation_images@.len() > 0 ==> needed->foveation == Some(
                build.foveation_images@[colors],
            )
            &&& needed is Target && build.foveation_images@.len() == 0 ==> needed->foveation is None
            &&& needed is DepthViews <==> colors == build.color_images@.len() && depths
                < build.depth_images@.len() && !build.depth_failed
            &&& needed is DepthViews ==> needed->DepthViews_image == build.depth_images@[depths]
        }),
{
}

/// A session gives back all it has: of every target the framebuffer, the views and the
/// depth, the views of every depth image, and its buffers.
pub proof fn law_session_gives_back_all(session: CxVulkanOpenXrSessionData, i: int, j: int)
    ensures
        ({
            let releases = session_releases(session);
            let colors = session.color_images@;
            let depths = session.depth_images@;
            &&& 0 <= i < colors.len() ==> {
                &&& releases.contains(SessionRelease::DepthTarget(colors[i].target.depth_target))
                &&& colors[i].target.framebuffer != 0 ==> releases.contains(
                    SessionRelease::Framebuffer(colors[i].target.framebuffer),
                )
                &&& colors[i].target.color_view != 0 ==> releases.contains(
                    SessionRelease::View(colors[i].target.color_view),
                )
                &&& colors[i].target.fragment_density_view != 0 ==> releases.contains(
                    SessionRelease::View(colors[i].target.fragment_density_view),
                )
            }
            &&& 0 <= j < depths.len() ==> {
                &&& depths[j].left_view != 0 ==> releases.contains(
                    SessionRelease::View(depths[j].left_view),
                )
                &&& depths[j].right_view != 0 ==> releases.contains(
                    SessionRelease::View(depths[j].right_view),
                )
                &&& depths[j].multiview_view != 0 ==> releases.contains(
                    SessionRelease::View(depths[j].multiview_view),
                )
            }
            &&& session.depth_readback_buffer is Some ==> releases.contains(
                SessionRelease::Buffer(session.depth_readback_buffer->0),
            )
            &&& session.color_readback_buffer is Some ==> releases.contains(
                SessionRelease::Buffer(session.color_readback_buffer->0),
            )
        }),
{
    let releases = session_releases(session);
    let colors = session.color_images@;
    let depths = session.depth_images@;
    let c = color_releases(colors, colors.len() as int);
    let d = depth_releases(depths, depths.len() as int);
    let a = buffer_release(session.depth_readback_buffer);
    let b = buffer_release(session.color_readback_buffer);
    assert forall|release: SessionRelease| c.contains(release) || d.contains(release)
        || a.contains(release) || b.contains(release) implies #[trigger] releases.contains(
        release,
    ) by {
        if c.contains(release) {
            let k = choose|k: int| 0 <= k < c.len() && c[k] == release;
            assert(releases[k] == release);
        } else if d.contains(release) {
            let k = choose|k: int| 0 <= k < d.len() && d[k] == release;
            assert(releases[c.len() + k] == release);
        } else if a.contains(release) {
            let k = choose|k: int| 0 <= k < a.len() && a[k] == release;
            assert(releases[c.len() + d.len() + k] == release);
        } else {
            let k = choose|k: int| 0 <= k < b.len() && b[k] == release;
            assert(releases[c.len() + d.len() + a.len() + k] == release);
        }
    }
    if 0 <= i < colors.len() {
        lemma_color_releases_hold(colors, colors.len() as int, i);
        let own = target_releases(colors[i].target);
        let n = own.len() as int;
        assert(own[n - 1] == SessionRelease::DepthTarget(colors[i].target.depth_target));
        assert(own.contains(own[n - 1]));
        if colors[i].target.framebuffer != 0 {
            assert(own[0] == SessionRelease::Framebuffer(colors[i].target.framebuffer));
            assert(own.contains(own[0]));
        }
        if colors[i].target.color_view != 0 {
            assert(own[n - 2] == SessionRelease::View(colors[i].target.color_view));
            assert(own.contains(own[n - 2]));
        }
        if colors[i].target.fragment_density_view != 0 {
            let k = if colors[i].target.framebuffer != 0 {
                1int
            } else {
                0
            };
            assert(own[k] == SessionRelease::View(colors[i].target.fragment_density_view));
            assert(own.contains(own[k]));
        }
    }
    if 0 <= j < depths.len() {
        lemma_depth_releases_hold(depths, depths.len() as int, j);
    }
    if session.depth_readback_buffer is Some {
        assert(a[0] == SessionRelease::Buffer(session.depth_readback_buffer->0));
    }
    if session.color_readback_buffer is Some {
        assert(b[0] == SessionRelease::Buffer(session.color_readback_buffer->0));
    }
}

proof fn lemma_color_releases_hold(images: Seq<CxVulkanOpenXrSwapchainImage>, n: int, i: int)
    requires
        0 <= i < n <= images.len(),
    ensures
        forall|release: SessionRelease| #[trigger]
            target_releases(images[i].target).contains(release) ==> color_releases(
                images,
                n,
            ).contains(release),
    decreases n,
{
    let all = color_releases(images, n);
    let before = color_releases(images, n - 1);
    if i < n - 1 {
        lemma_color_releases_hold(images, n - 1, i);
    }
    assert forall|release: SessionRelease| #[trigger]
        target_releases(images[i].target).contains(release) implies all.contains(release) by {
        if i < n - 1 {
            assert(before.contains(release));
            let k = choose|k: int| 0 <= k < before.len() && before[k] == release;
            assert(all[k] == release);
        } else {
            let own = target_releases(images[i].target);
            let k = choose|k: int| 0 <= k < own.len() && own[k] == release;
            assert(all[before.len() + k] == release);
        }
    }
}

proof fn lemma_depth_releases_hold(images: Seq<CxVulkanOpenXrDepthImage>, n: int, i: int)
    requires
        0 <= i < n <= images.len(),
    ensures
        images[i].left_view != 0 ==> depth_releases(images, n).contains(
            SessionRelease::View(images[i].left_view),
        ),
        images[i].right_view != 0 ==> depth_releases(images, n).contains(
            SessionRelease::View(images[i].right_view),
        ),
        images[i].multiview_view != 0 ==> depth_releases(images, n).contains(
            SessionRelease::View(images[i].multiview_view),
        ),
    decreases n,
{
    let all = depth_releases(images, n);
    let before = depth_releases(images, n - 1);
    if i < n - 1 {
        lemma_depth_releases_hold(images, n - 1, i);
        assert forall|release: SessionRelease| before.contains(release) implies #[trigger]
            all.contains(release) by {
            let k = choose|k: int| 0 <= k < before.len() && before[k] == release;
            assert(all[k] == release);
        }
    } else {
        let image = images[i];
        let b = before.len() as int;
        let l = view_release(image.left_view).len() as int;
        let r = view_release(image.right_view).len() as int;
        if image.left_view != 0 {
            assert(all[b] == SessionRelease::View(image.left_view));
        }
        if image.right_view != 0 {
            assert(all[b + l] == SessionRelease::View(image.right_view));
        }
        if image.multiview_view != 0 {
            assert(all[b + l + r] == SessionRelease::View(image.multiview_view));
        }
    }
}

/// How far a readback is at a stage.
pub open spec fn readback_rank(stage: ReadbackStage) -> int {
    match stage {
        ReadbackStage::WaitFence => 0,
        ReadbackStage::ResetFence => 1,
        ReadbackStage::ReleaseFrameResources => 2,
        ReadbackStage::ResetCommands => 3,
        ReadbackStage::BeginCommands => 4,
        ReadbackStage::RecordCopy => 5,
        ReadbackStage::EndCommands => 6,
        ReadbackStage::Submit => 7,
        ReadbackStage::WaitSubmit => 8,
        ReadbackStage::MapMemory => 9,
        ReadbackStage::Done => 10,
    }
}

/// A readback leaves no stage out; only that of colors keeps the resources of the frame.
pub proof fn law_readback_leaves_no_stage_out(stage: ReadbackStage, kind: ReadbackKind)
    ensures
        ({
            let next = readback_rank(readback_following(stage, kind));
            let here = readback_rank(stage);
            &&& stage is Done ==> next == here
            &&& stage is ResetFence && kind is Color ==> next == here + 2
            &&& !(stage is Done) && !(stage is ResetFence && kind is Color) ==> next == here + 1
        }),
{
}

/// A target that could not be made gives back exactly what it holds.
pub proof fn law_failed_target_gives_back_what_it_holds(build: MultiviewTargetBuild)
    requires
        !(build.stage is Done),
    ensures
        target_given_back(build).len() == target_held(build).len(),
        forall|release: SessionRelease| #[trigger]
            target_held(build).contains(release) ==> target_given_back(build).contains(release),
        build.stage is DepthTarget ==> target_held(build) == seq![
            SessionRelease::View(build.target.color_view),
        ],
        build.stage is DensityView || build.stage is Framebuffer ==> target_held(build).contains(
            SessionRelease::View(build.target.color_view),
        ) && target_held(build).contains(SessionRelease::DepthTarget(build.target.depth_target)),
{
    let held = target_held(build);
    let given = target_given_back(build);
    if build.stage is DepthTarget {
        assert(held[0] == given[0]);
    }
    if build.stage is DensityView || build.stage is Framebuffer {
        assert(held[0] == SessionRelease::View(build.target.color_view));
        assert(held[1] == SessionRelease::DepthTarget(build.target.depth_target));
        if build.stage is Framebuffer && build.target.fragment_density_view != 0 {
            assert(held[2] == given[0] && held[0] == given[1] && held[1] == given[2]);
        } else {
            assert(held[0] == given[0] && held[1] == given[1]);
        }
    }
}

/// A target begins with nothing, and failures name their call, what it is for and, of a
/// view, its eye.
pub proof fn law_failed_sessions_name_their_call(
    stage: ReadbackStage,
    kind: ReadbackKind,
    eye: Seq<char>,
    code: i32,
)
    ensures
        empty_target().framebuffer == 0 && empty_target().color_view == 0
            && empty_target().depth_target.image == 0 && empty_target().depth_target.view == 0
            && empty_target().fragment_density_view == 0,
        eye_view_failed_text(eye, code) == call_failed_text(
            "create_image_view"@ + "("@ + ("openxr depth eye "@ + eye) + ")"@,
            code,
        ),
        stage is WaitFence || stage is WaitSubmit ==> readback_call(stage) == "wait_for_fences"@,
        stage is ResetFence ==> readback_call(stage) == "reset_fences"@,
        stage is ResetCommands ==> readback_call(stage) == "reset_command_buffer"@,
        stage is BeginCommands ==> readback_call(stage) == "begin_command_buffer"@,
        stage is EndCommands ==> readback_call(stage) == "end_command_buffer"@,
        stage is Submit ==> readback_call(stage) == "queue_submit"@,
        stage is MapMemory ==> readback_call(stage) == "map_memory"@,
        kind is Depth && !(stage is WaitSubmit) ==> readback_subject(stage, kind)
            == "depth readback"@,
        kind is Color && !(stage is WaitSubmit) ==> readback_subject(stage, kind)
            == "color readback"@,
        kind is Depth && stage is WaitSubmit ==> readback_subject(stage, kind)
            == "depth readback submit"@,
        kind is Color && stage is WaitSubmit ==> readback_subject(stage, kind)
            == "color readback submit"@,
{
}

} // verus!

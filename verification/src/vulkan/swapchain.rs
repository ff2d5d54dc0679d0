//! What a swapchain is made with, and the calls that make its targets.

use vstd::prelude::*;

use crate::vulkan::codes::{
    COLOR_SPACE_SRGB_NONLINEAR, COMPOSITE_ALPHA_INHERIT, COMPOSITE_ALPHA_OPAQUE,
    COMPOSITE_ALPHA_POST_MULTIPLIED, COMPOSITE_ALPHA_PRE_MULTIPLIED, FORMAT_B8G8R8A8_SRGB,
    FORMAT_B8G8R8A8_UNORM, FORMAT_R8G8B8A8_SRGB, FORMAT_R8G8B8A8_UNORM,
    IMAGE_USAGE_COLOR_ATTACHMENT, IMAGE_USAGE_TRANSFER_DST, PRESENT_MODE_FIFO,
    SURFACE_TRANSFORM_IDENTITY,
};
use crate::vulkan::failure::call_failed;
#[allow(unused_imports)]
use crate::vulkan::failure::call_failed_text;
use crate::vulkan::flags::{composite_alpha_contains, image_usage_contains, transforms_contain};
#[allow(unused_imports)]
use crate::vulkan::flags::has_flags;

verus! {

/// A width and a height.
#[derive(Clone, Copy, PartialEq, Eq, Structural, Debug)]
pub struct Extent {
    pub width: u32,
    pub height: u32,
}

/// What a surface can do.
#[derive(Clone, Copy, PartialEq, Eq, Structural, Debug)]
pub struct SurfaceCapabilities {
    pub min_image_count: u32,
    /// Zero for no limit.
    pub max_image_count: u32,
    /// A width of `u32::MAX` leaves the extent to the swapchain.
    pub current_extent: Extent,
    pub min_image_extent: Extent,
    pub max_image_extent: Extent,
    pub supported_usage: u32,
    pub supported_transforms: u32,
    pub current_transform: u32,
    pub supported_composite_alpha: u32,
}

impl SurfaceCapabilities {
    /// One more image can be counted, and the bounds are in order where the extent is
    /// left to the swapchain.
    pub open spec fn wf(self) -> bool {
        &&& self.min_image_count < u32::MAX
        &&& self.current_extent.width == u32::MAX ==> self.min_image_extent.width
            <= self.max_image_extent.width && self.min_image_extent.height
            <= self.max_image_extent.height
    }
}

/// A format with its color space.
#[derive(Clone, Copy, PartialEq, Eq, Structural, Debug)]
pub struct SurfaceFormat {
    pub format: i32,
    pub color_space: i32,
}

/// What a swapchain is made with.
#[derive(Clone, Copy, PartialEq, Eq, Structural, Debug)]
pub struct SwapchainChoice {
    pub format: SurfaceFormat,
    pub extent: Extent,
    pub image_count: u32,
    pub present_mode: i32,
    pub image_usage: u32,
    pub pre_transform: u32,
    pub composite_alpha: u32,
}

/// The format that is preferred.
pub open spec fn is_preferred_format(format: SurfaceFormat) -> bool {
    format.format == FORMAT_B8G8R8A8_UNORM && format.color_space == COLOR_SPACE_SRGB_NONLINEAR
}

/// The preferred format where it is offered, else the first one.
pub open spec fn chosen_format(formats: Seq<SurfaceFormat>) -> SurfaceFormat {
    if exists|i: int| 0 <= i < formats.len() && is_preferred_format(#[trigger] formats[i]) {
        SurfaceFormat {
            format: FORMAT_B8G8R8A8_UNORM,
            color_space: COLOR_SPACE_SRGB_NONLINEAR,
        }
    } else {
        formats[0]
    }
}

/// `value` brought between `low` and `high`.
pub open spec fn clamped(value: u32, low: u32, high: u32) -> u32 {
    if value < low {
        low
    } else if value > high {
        high
    } else {
        value
    }
}

fn clamp_u32(value: u32, low: u32, high: u32) -> (result: u32)
    ensures
        result == clamped(value, low, high),
{
    if value < low {
        low
    } else if value > high {
        high
    } else {
        value
    }
}

/// The surface's own extent, or the requested one within bounds where the surface
/// has none.
pub open spec fn chosen_extent(capabilities: SurfaceCapabilities, requested: Extent) -> Extent {
    if capabilities.current_extent.width == u32::MAX {
        Extent {
            width: clamped(
                requested.width,
                capabilities.min_image_extent.width,
                capabilities.max_image_extent.width,
            ),
            height: clamped(
                requested.height,
                capabilities.min_image_extent.height,
                capabilities.max_image_extent.height,
            ),
        }
    } else {
        capabilities.current_extent
    }
}

/// One image more than needed, as far as the surface allows.
pub open spec fn chosen_image_count(capabilities: SurfaceCapabilities) -> int {
    let wanted = capabilities.min_image_count + 1;
    if capabilities.max_image_count > 0 && wanted > capabilities.max_image_count {
        capabilities.max_image_count as int
    } else {
        wanted
    }
}

/// First in, first out where it is offered or nothing is; else the first mode.
pub open spec fn chosen_present_mode(modes: Seq<i32>) -> i32 {
    if modes.contains(PRESENT_MODE_FIFO) || modes.len() == 0 {
        PRESENT_MODE_FIFO
    } else {
        modes[0]
    }
}

/// Color attachment, and transfer destination where that is offered.
pub open spec fn chosen_usage(supported: u32) -> u32 {
    if has_flags(supported, IMAGE_USAGE_TRANSFER_DST) {
        IMAGE_USAGE_COLOR_ATTACHMENT | IMAGE_USAGE_TRANSFER_DST
    } else {
        IMAGE_USAGE_COLOR_ATTACHMENT
    }
}

/// No transform where that is offered, else the surface's own.
pub open spec fn chosen_transform(capabilities: SurfaceCapabilities) -> u32 {
    if has_flags(capabilities.supported_transforms, SURFACE_TRANSFORM_IDENTITY) {
        SURFACE_TRANSFORM_IDENTITY
    } else {
        capabilities.current_transform
    }
}

/// The first way of blending that is offered; opaque where none is.
pub open spec fn chosen_composite_alpha(supported: u32) -> u32 {
    if has_flags(supported, COMPOSITE_ALPHA_OPAQUE) {
        COMPOSITE_ALPHA_OPAQUE
    } else if has_flags(supported, COMPOSITE_ALPHA_PRE_MULTIPLIED) {
        COMPOSITE_ALPHA_PRE_MULTIPLIED
    } else if has_flags(supported, COMPOSITE_ALPHA_POST_MULTIPLIED) {
        COMPOSITE_ALPHA_POST_MULTIPLIED
    } else if has_flags(supported, COMPOSITE_ALPHA_INHERIT) {
        COMPOSITE_ALPHA_INHERIT
    } else {
        COMPOSITE_ALPHA_OPAQUE
    }
}

/// Why no swapchain can be made, if so. The first question that failed counts.
pub open spec fn swapchain_refusal(
    capabilities: Result<SurfaceCapabilities, i32>,
    formats: Result<Vec<SurfaceFormat>, i32>,
    present_modes: Result<Vec<i32>, i32>,
) -> Option<Seq<char>> {
    match capabilities {
        Err(code) => Some(call_failed_text("get_surface_capabilities"@, code)),
        Ok(capabilities) => match formats {
            Err(code) => Some(call_failed_text("get_surface_formats"@, code)),
            Ok(formats) => if formats@.len() == 0 {
                Some("No Vulkan surface formats available"@)
            } else {
                match present_modes {
                    Err(code) => Some(call_failed_text("get_surface_present_modes"@, code)),
                    Ok(_) => if !has_flags(
                        capabilities.supported_usage,
                        IMAGE_USAGE_COLOR_ATTACHMENT,
                    ) {
                        Some("Vulkan surface does not support COLOR_ATTACHMENT usage"@)
                    } else {
                        None
                    },
                }
            },
        },
    }
}

/// What the swapchain is made with, given that nothing refuses it.
pub open spec fn swapchain_choice(
    capabilities: SurfaceCapabilities,
    formats: Seq<SurfaceFormat>,
    present_modes: Seq<i32>,
    requested: Extent,
) -> SwapchainChoice {
    SwapchainChoice {
        format: chosen_format(formats),
        extent: chosen_extent(capabilities, requested),
        image_count: chosen_image_count(capabilities) as u32,
        present_mode: chosen_present_mode(present_modes),
        image_usage: chosen_usage(capabilities.supported_usage),
        pre_transform: chosen_transform(capabilities),
        composite_alpha: chosen_composite_alpha(capabilities.supported_composite_alpha),
    }
}

fn choose_format(formats: &Vec<SurfaceFormat>) -> (format: SurfaceFormat)
    requires
        formats@.len() > 0,
    ensures
        format == chosen_format(formats@),
{
    let mut i: usize = 0;
    while i < formats.len()
        invariant
            i <= formats@.len(),
            forall|j: int| 0 <= j < i ==> !is_preferred_format(#[trigger] formats@[j]),
        decreases formats@.len() - i,
    {
        let format: SurfaceFormat = formats[i];
        if format.format == FORMAT_B8G8R8A8_UNORM && format.color_space
            == COLOR_SPACE_SRGB_NONLINEAR {
            assert(is_preferred_format(formats@[i as int]));
            return format;
        }
        i = i + 1;
    }
    formats[0]
}

fn choose_present_mode(modes: &Vec<i32>) -> (mode: i32)
    ensures
        mode == chosen_present_mode(modes@),
{
    let mut i: usize = 0;
    while i < modes.len()
        invariant
            i <= modes@.len(),
            forall|j: int| 0 <= j < i ==> #[trigger] modes@[j] != PRESENT_MODE_FIFO,
        decreases modes@.len() - i,
    {
        if modes[i] == PRESENT_MODE_FIFO {
            assert(modes@.contains(PRESENT_MODE_FIFO));
            return PRESENT_MODE_FIFO;
        }
        i = i + 1;
    }
    assert(!modes@.contains(PRESENT_MODE_FIFO));
    if modes.len() > 0 {
        modes[0]
    } else {
        PRESENT_MODE_FIFO
    }
}

/// Chooses what a swapchain is made with, from what the surface answered.
pub fn choose_swapchain(
    capabilities: Result<SurfaceCapabilities, i32>,
    formats: Result<Vec<SurfaceFormat>, i32>,
    present_modes: Result<Vec<i32>, i32>,
    requested: Extent,
) -> (result: Result<SwapchainChoice, String>)
    requires
        capabilities matches Ok(capabilities) ==> capabilities.wf(),
    ensures
        match swapchain_refusal(capabilities, formats, present_modes) {
            Some(text) => result matches Err(message) && message@ == text,
            None => result == Ok::<SwapchainChoice, String>(
                swapchain_choice(
                    capabilities->Ok_0,
                    formats->Ok_0@,
                    present_modes->Ok_0@,
                    requested,
                ),
            ),
        },
{
    let capabilities: SurfaceCapabilities = match capabilities {
        Ok(capabilities) => capabilities,
        Err(code) => {
            return Err(call_failed("get_surface_capabilities", code));
        },
    };
    let formats: Vec<SurfaceFormat> = match formats {
        Ok(formats) => formats,
        Err(code) => {
            return Err(call_failed("get_surface_formats", code));
        },
    };
    if formats.len() == 0 {
        return Err("No Vulkan surface formats available".to_owned());
    }
    let present_modes: Vec<i32> = match present_modes {
        Ok(modes) => modes,
        Err(code) => {
            return Err(call_failed("get_surface_present_modes", code));
        },
    };
    if !image_usage_contains(capabilities.supported_usage, IMAGE_USAGE_COLOR_ATTACHMENT) {
        return Err("Vulkan surface does not support COLOR_ATTACHMENT usage".to_owned());
    }
    let extent: Extent = if capabilities.current_extent.width == u32::MAX {
        Extent {
            width: clamp_u32(
                requested.width,
                capabilities.min_image_extent.width,
                capabilities.max_image_extent.width,
            ),
            height: clamp_u32(
                requested.height,
                capabilities.min_image_extent.height,
                capabilities.max_image_extent.height,
            ),
        }
    } else {
        capabilities.current_extent
    };
    let mut image_count: u32 = capabilities.min_image_count + 1;
    if capabilities.max_image_count > 0 && image_count > capabilities.max_image_count {
        image_count = capabilities.max_image_count;
    }
    let image_usage: u32 = if image_usage_contains(
        capabilities.supported_usage,
        IMAGE_USAGE_TRANSFER_DST,
    ) {
        IMAGE_USAGE_COLOR_ATTACHMENT | IMAGE_USAGE_TRANSFER_DST
    } else {
        IMAGE_USAGE_COLOR_ATTACHMENT
    };
    let pre_transform: u32 = if transforms_contain(
        capabilities.supported_transforms,
        SURFACE_TRANSFORM_IDENTITY,
    ) {
        SURFACE_TRANSFORM_IDENTITY
    } else {
        capabilities.current_transform
    };
    let offered: u32 = capabilities.supported_composite_alpha;
    let composite_alpha: u32 = if composite_alpha_contains(offered, COMPOSITE_ALPHA_OPAQUE) {
        COMPOSITE_ALPHA_OPAQUE
    } else if composite_alpha_contains(offered, COMPOSITE_ALPHA_PRE_MULTIPLIED) {
        COMPOSITE_ALPHA_PRE_MULTIPLIED
    } else if composite_alpha_contains(offered, COMPOSITE_ALPHA_POST_MULTIPLIED) {
        COMPOSITE_ALPHA_POST_MULTIPLIED
    } else if composite_alpha_contains(offered, COMPOSITE_ALPHA_INHERIT) {
        COMPOSITE_ALPHA_INHERIT
    } else {
        COMPOSITE_ALPHA_OPAQUE
    };
    Ok(
        SwapchainChoice {
            format: choose_format(&formats),
            extent,
            image_count,
            present_mode: choose_present_mode(&present_modes),
            image_usage,
            pre_transform,
            composite_alpha,
        },
    )
}

/// A choice stays within what the surface can do.
pub proof fn law_choice_is_offered(
    capabilities: SurfaceCapabilities,
    formats: Seq<SurfaceFormat>,
    present_modes: Seq<i32>,
    requested: Extent,
)
    requires
        capabilities.wf(),
        formats.len() > 0,
        capabilities.max_image_count == 0 || capabilities.min_image_count
            <= capabilities.max_image_count,
    ensures
        ({
            let choice = swapchain_choice(capabilities, formats, present_modes, requested);
            &&& formats.contains(choice.format)
            &&& capabilities.min_image_count <= choice.image_count
            &&& capabilities.max_image_count > 0 ==> choice.image_count
                <= capabilities.max_image_count
            &&& present_modes.len() > 0 ==> present_modes.contains(choice.present_mode)
            &&& capabilities.current_extent.width == u32::MAX ==> {
                &&& capabilities.min_image_extent.width <= choice.extent.width
                    <= capabilities.max_image_extent.width
                &&& capabilities.min_image_extent.height <= choice.extent.height
                    <= capabilities.max_image_extent.height
            }
        }),
{
    if exists|i: int| 0 <= i < formats.len() && is_preferred_format(#[trigger] formats[i]) {
        let i = choose|i: int|
            0 <= i < formats.len() && is_preferred_format(#[trigger] formats[i]);
        assert(formats[i] == chosen_format(formats));
    } else {
        assert(formats[0] == chosen_format(formats));
    }
}

/// The formats that can be read back.
pub open spec fn readback_format(format: i32) -> bool {
    format == FORMAT_B8G8R8A8_UNORM || format == FORMAT_B8G8R8A8_SRGB || format
        == FORMAT_R8G8B8A8_UNORM || format == FORMAT_R8G8B8A8_SRGB
}

/// Whether a swapchain of the format can be read back.
pub fn swapchain_readback_supported(format: i32) -> (supported: bool)
    ensures
        supported == readback_format(format),
{
    format == FORMAT_B8G8R8A8_UNORM || format == FORMAT_B8G8R8A8_SRGB || format
        == FORMAT_R8G8B8A8_UNORM || format == FORMAT_R8G8B8A8_SRGB
}

/// One call that makes a part of the swapchain's targets.
#[derive(Clone, Copy, PartialEq, Eq, Structural, Debug)]
pub enum TargetStep {
    RenderPass,
    XrRenderPass,
    ImageView { image: usize },
    DepthTarget { image: usize },
    ReadbackBuffer { bytes: u64 },
    Framebuffer { image: usize },
}

/// The bytes of one frame of four-byte pixels.
pub open spec fn frame_bytes(extent: Extent) -> int {
    extent.width * extent.height * 4
}

/// The calls that make the targets of a swapchain of `images` images: the two
/// render passes, a view of each image, a depth target for each, the readback buffer
/// where the frame can be read back, and a framebuffer for each.
pub open spec fn target_steps(images: nat, format: i32, extent: Extent) -> Seq<TargetStep> {
    seq![TargetStep::RenderPass, TargetStep::XrRenderPass] + Seq::new(
        images,
        |i: int| TargetStep::ImageView { image: i as usize },
    ) + Seq::new(images, |i: int| TargetStep::DepthTarget { image: i as usize }) + (
    if readback_format(format) && extent.width > 0 && extent.height > 0 {
        seq![TargetStep::ReadbackBuffer { bytes: frame_bytes(extent) as u64 }]
    } else {
        seq![]
    }) + Seq::new(images, |i: int| TargetStep::Framebuffer { image: i as usize })
}

/// Lists the calls that make the targets of a swapchain.
pub fn plan_targets(images: usize, format: i32, extent: Extent) -> (steps: Vec<TargetStep>)
    requires
        frame_bytes(extent) <= u64::MAX,
    ensures
        steps@ == target_steps(images as nat, format, extent),
{
    let mut steps: Vec<TargetStep> = vec![TargetStep::RenderPass, TargetStep::XrRenderPass];
    let ghost head = seq![TargetStep::RenderPass, TargetStep::XrRenderPass];
    let ghost views = Seq::new(
        images as nat,
        |i: int| TargetStep::ImageView { image: i as usize },
    );
    let ghost depths = Seq::new(
        images as nat,
        |i: int| TargetStep::DepthTarget { image: i as usize },
    );
    let ghost frames = Seq::new(
        images as nat,
        |i: int| TargetStep::Framebuffer { image: i as usize },
    );
    let mut i: usize = 0;
    while i < images
        invariant
            i <= images,
            views == Seq::new(
                images as nat,
                |i: int| TargetStep::ImageView { image: i as usize },
            ),
            steps@ == head + views.take(i as int),
        decreases images - i,
    {
        steps.push(TargetStep::ImageView { image: i });
        i = i + 1;
        assert(steps@ =~= head + views.take(i as int));
    }
    assert(views.take(images as int) =~= views);
    let ghost so_far = steps@;
    i = 0;
    while i < images
        invariant
            i <= images,
            depths == Seq::new(
                images as nat,
                |i: int| TargetStep::DepthTarget { image: i as usize },
            ),
            steps@ == so_far + depths.take(i as int),
        decreases images - i,
    {
        steps.push(TargetStep::DepthTarget { image: i });
        i = i + 1;
        assert(steps@ =~= so_far + depths.take(i as int));
    }
    assert(depths.take(images as int) =~= depths);
    let ghost readback: Seq<TargetStep> = if readback_format(format) && extent.width > 0
        && extent.height > 0 {
        seq![TargetStep::ReadbackBuffer { bytes: frame_bytes(extent) as u64 }]
    } else {
        seq![]
    };
    let ghost with_depths = steps@;
    if swapchain_readback_supported(format) && extent.width > 0 && extent.height > 0 {
        let pixels: u64 = extent.width as u64 * extent.height as u64;
        steps.push(TargetStep::ReadbackBuffer { bytes: pixels * 4 });
    }
    assert(steps@ =~= with_depths + readback);
    let ghost with_readback = steps@;
    i = 0;
    while i < images
        invariant
            i <= images,
            frames == Seq::new(
                images as nat,
                |i: int| TargetStep::Framebuffer { image: i as usize },
            ),
            steps@ == with_readback + frames.take(i as int),
        decreases images - i,
    {
        steps.push(TargetStep::Framebuffer { image: i });
        i = i + 1;
        assert(steps@ =~= with_readback + frames.take(i as int));
    }
    assert(frames.take(images as int) =~= frames);
    steps
}

/// How a message names the call of a step; a step without one reports for itself.
pub open spec fn target_call_text(step: TargetStep) -> Seq<char> {
    match step {
        TargetStep::RenderPass => "create_render_pass"@,
        TargetStep::XrRenderPass => "create_render_pass(openxr)"@,
        TargetStep::ImageView { .. } => "create_image_view"@,
        TargetStep::Framebuffer { .. } => "create_framebuffer"@,
        _ => ""@,
    }
}

/// The message for a step whose call returned an error.
pub fn target_failed(step: TargetStep, code: i32) -> (message: String)
    ensures
        message@ == call_failed_text(target_call_text(step), code),
{
    let call: &'static str = match step {
        TargetStep::RenderPass => "create_render_pass",
        TargetStep::XrRenderPass => "create_render_pass(openxr)",
        TargetStep::ImageView { .. } => "create_image_view",
        TargetStep::Framebuffer { .. } => "create_framebuffer",
        _ => "",
    };
    call_failed(call, code)
}

/// A swapchain has what is preferred wherever the surface offers it: the surface's own
/// extent or the one asked for, one image more than needed, sRGB with blue first, frames
/// one after the other, no transform, and opaque blending. A transfer can write to it
/// where it may.
pub proof fn law_choice_is_what_is_preferred(
    capabilities: SurfaceCapabilities,
    formats: Seq<SurfaceFormat>,
    present_modes: Seq<i32>,
    requested: Extent,
)
    requires
        capabilities.wf(),
        formats.len() > 0,
    ensures
        ({
            let choice = swapchain_choice(capabilities, formats, present_modes, requested);
            let own = capabilities.current_extent;
            let low = capabilities.min_image_extent;
            let high = capabilities.max_image_extent;
            let preferred = SurfaceFormat { format: 44, color_space: 0 };
            &&& own.width != u32::MAX ==> choice.extent == own
            &&& own.width == u32::MAX && low.width <= requested.width <= high.width
                ==> choice.extent.width == requested.width
            &&& own.width == u32::MAX && low.height <= requested.height <= high.height
                ==> choice.extent.height == requested.height
            &&& own.width == u32::MAX && requested.width > high.width ==> choice.extent.width
                == high.width
            &&& own.width == u32::MAX && requested.width < low.width ==> choice.extent.width
                == low.width
            &&& own.width == u32::MAX && requested.height > high.height ==> choice.extent.height
                == high.height
            &&& own.width == u32::MAX && requested.height < low.height ==> choice.extent.height
                == low.height
            &&& formats.contains(preferred) ==> choice.format == preferred
            &&& !formats.contains(preferred) ==> choice.format == formats[0]
            &&& present_modes.contains(2) ==> choice.present_mode == 2
            &&& capabilities.max_image_count == 0 || capabilities.max_image_count
                > capabilities.min_image_count ==> choice.image_count
                == capabilities.min_image_count + 1
            &&& has_flags(capabilities.supported_transforms, 1) ==> choice.pre_transform == 1
            &&& !has_flags(capabilities.supported_transforms, 1) ==> choice.pre_transform
                == capabilities.current_transform
            &&& has_flags(capabilities.supported_composite_alpha, 1) ==> choice.composite_alpha
                == 1
            &&& has_flags(capabilities.supported_composite_alpha, choice.composite_alpha)
                || choice.composite_alpha == 1
            &&& has_flags(capabilities.supported_usage, 2) ==> choice.image_usage == 0x12
            &&& !has_flags(capabilities.supported_usage, 2) ==> choice.image_usage == 0x10
        }),
{
    let preferred = SurfaceFormat { format: 44, color_space: 0 };
    if formats.contains(preferred) {
        let i = choose|i: int| 0 <= i < formats.len() && formats[i] == preferred;
        assert(is_preferred_format(formats[i]));
    }
    if exists|i: int| 0 <= i < formats.len() && is_preferred_format(#[trigger] formats[i]) {
        let i = choose|i: int|
            0 <= i < formats.len() && is_preferred_format(#[trigger] formats[i]);
        assert(formats[i] == preferred);
        assert(formats.contains(preferred));
    }
    assert(0x10u32 | 0x2u32 == 0x12u32) by (bit_vector);
}

/// A swapchain is made exactly where the surface answered all questions, offers a format,
/// and can be drawn to.
pub proof fn law_swapchain_is_made_where_it_can_be(
    capabilities: Result<SurfaceCapabilities, i32>,
    formats: Result<Vec<SurfaceFormat>, i32>,
    present_modes: Result<Vec<i32>, i32>,
)
    ensures
        swapchain_refusal(capabilities, formats, present_modes) is None <==> {
            &&& capabilities matches Ok(found) && has_flags(found.supported_usage, 0x10)
            &&& formats matches Ok(list) && list@.len() > 0
            &&& present_modes is Ok
        },
{
}

/// Every image of a swapchain has a view, a depth target and a framebuffer, made in this
/// order; the passes come first, and a buffer to read back into exactly where the format
/// can be read and there is a pixel, with four bytes for each.
pub proof fn law_every_image_has_its_targets(images: nat, format: i32, extent: Extent, i: int)
    requires
        images <= usize::MAX,
        0 <= i < images,
        extent.width * extent.height * 4 <= u64::MAX,
    ensures
        ({
            let steps = target_steps(images, format, extent);
            let reads = readback_format(format) && extent.width > 0 && extent.height > 0;
            let n = images as int;
            &&& steps.len() == 2 + 3 * n + if reads {
                1int
            } else {
                0
            }
            &&& steps[0] is RenderPass && steps[1] is XrRenderPass
            &&& steps[2 + i] == TargetStep::ImageView { image: i as usize }
            &&& steps[2 + n + i] == TargetStep::DepthTarget { image: i as usize }
            &&& steps[steps.len() - n + i] == TargetStep::Framebuffer { image: i as usize }
            &&& reads ==> steps[2 + 2 * n] is ReadbackBuffer && steps[2 + 2 * n]->bytes
                == extent.width * extent.height * 4
        }),
{
}

/// A frame can be read back exactly where it has eight bits for each of four channels, red
/// or blue first.
pub proof fn law_readable_formats(format: i32)
    ensures
        readback_format(format) <==> format == 37 || format == 43 || format == 44 || format == 50,
{
}

/// A failure names the call of its step.
pub proof fn law_failed_targets_name_their_call(step: TargetStep)
    ensures
        step is RenderPass ==> target_call_text(step) == "create_render_pass"@,
        step is XrRenderPass ==> target_call_text(step) == "create_render_pass(openxr)"@,
        step is ImageView ==> target_call_text(step) == "create_image_view"@,
        step is Framebuffer ==> target_call_text(step) == "create_framebuffer"@,
{
}

} // verus!

//! Render passes by the formats of their attachments.

use vstd::prelude::*;

use crate::vulkan::codes::{
    ACCESS_COLOR_ATTACHMENT_READ, ACCESS_COLOR_ATTACHMENT_WRITE, ACCESS_DEPTH_ATTACHMENT_READ,
    ACCESS_DEPTH_ATTACHMENT_WRITE, ACCESS_SHADER_READ, LAYOUT_COLOR_ATTACHMENT,
    LAYOUT_DEPTH_ATTACHMENT, LAYOUT_SHADER_READ_ONLY, STAGE_COLOR_ATTACHMENT_OUTPUT,
    STAGE_EARLY_FRAGMENT_TESTS, STAGE_FRAGMENT_SHADER,
};
use crate::vulkan::cx_vulkan::CxVulkan;

verus! {

/// What a render pass waits for before it starts: which stages and accesses come before
/// it, and which of its own wait for them.
#[derive(Clone, Copy, PartialEq, Eq, Structural, Debug)]
pub struct PassDependency {
    pub before: u32,
    pub after: u32,
    pub access_before: u32,
    pub access_after: u32,
}

/// What a pass to a window waits for.
pub open spec fn window_dependency() -> PassDependency {
    PassDependency {
        before: STAGE_COLOR_ATTACHMENT_OUTPUT | STAGE_EARLY_FRAGMENT_TESTS,
        after: STAGE_COLOR_ATTACHMENT_OUTPUT | STAGE_EARLY_FRAGMENT_TESTS,
        access_before: 0,
        access_after: ACCESS_COLOR_ATTACHMENT_WRITE | ACCESS_DEPTH_ATTACHMENT_WRITE,
    }
}

/// What a pass to textures waits for: they may still be read by a shader.
pub open spec fn texture_dependency() -> PassDependency {
    PassDependency {
        before: STAGE_COLOR_ATTACHMENT_OUTPUT | STAGE_EARLY_FRAGMENT_TESTS | STAGE_FRAGMENT_SHADER,
        after: STAGE_COLOR_ATTACHMENT_OUTPUT | STAGE_EARLY_FRAGMENT_TESTS,
        access_before: ACCESS_SHADER_READ | ACCESS_COLOR_ATTACHMENT_WRITE
            | ACCESS_DEPTH_ATTACHMENT_WRITE,
        access_after: ACCESS_COLOR_ATTACHMENT_READ | ACCESS_COLOR_ATTACHMENT_WRITE
            | ACCESS_DEPTH_ATTACHMENT_READ | ACCESS_DEPTH_ATTACHMENT_WRITE,
    }
}

/// Says what a pass to a window waits for.
pub fn find_window_dependency() -> (dependency: PassDependency)
    ensures
        dependency == window_dependency(),
{
    PassDependency {
        before: STAGE_COLOR_ATTACHMENT_OUTPUT | STAGE_EARLY_FRAGMENT_TESTS,
        after: STAGE_COLOR_ATTACHMENT_OUTPUT | STAGE_EARLY_FRAGMENT_TESTS,
        access_before: 0,
        access_after: ACCESS_COLOR_ATTACHMENT_WRITE | ACCESS_DEPTH_ATTACHMENT_WRITE,
    }
}

/// Says what a pass to textures waits for.
pub fn find_texture_dependency() -> (dependency: PassDependency)
    ensures
        dependency == texture_dependency(),
{
    PassDependency {
        before: STAGE_COLOR_ATTACHMENT_OUTPUT | STAGE_EARLY_FRAGMENT_TESTS | STAGE_FRAGMENT_SHADER,
        after: STAGE_COLOR_ATTACHMENT_OUTPUT | STAGE_EARLY_FRAGMENT_TESTS,
        access_before: ACCESS_SHADER_READ | ACCESS_COLOR_ATTACHMENT_WRITE
            | ACCESS_DEPTH_ATTACHMENT_WRITE,
        access_after: ACCESS_COLOR_ATTACHMENT_READ | ACCESS_COLOR_ATTACHMENT_WRITE
            | ACCESS_DEPTH_ATTACHMENT_READ | ACCESS_DEPTH_ATTACHMENT_WRITE,
    }
}

/// The formats of a render pass's attachments, as raw numbers.
#[derive(Clone, PartialEq, Eq, Debug)]
pub struct VulkanRenderPassKey {
    pub color_formats: Vec<i32>,
    pub depth_format: Option<i32>,
}

/// Two keys name the same formats.
pub open spec fn same_key(a: VulkanRenderPassKey, b: VulkanRenderPassKey) -> bool {
    a.color_formats@ =~= b.color_formats@ && a.depth_format == b.depth_format
}

fn same_formats(a: &Vec<i32>, b: &Vec<i32>) -> (same: bool)
    ensures
        same == (a@ =~= b@),
{
    if a.len() != b.len() {
        return false;
    }
    let mut i: usize = 0;
    while i < a.len()
        invariant
            i <= a@.len(),
            a@.len() == b@.len(),
            forall|j: int| 0 <= j < i ==> a@[j] == b@[j],
        decreases a@.len() - i,
    {
        if a[i] != b[i] {
            assert(a@[i as int] != b@[i as int]);
            return false;
        }
        i = i + 1;
    }
    assert(a@ =~= b@);
    true
}

impl VulkanRenderPassKey {
    /// The key of a pass with these attachments.
    pub fn new(color_formats: &[i32], depth_format: Option<i32>) -> (key: VulkanRenderPassKey)
        ensures
            key.color_formats@ == color_formats@,
            key.depth_format == depth_format,
    {
        let mut formats: Vec<i32> = Vec::new();
        let mut i: usize = 0;
        while i < color_formats.len()
            invariant
                i <= color_formats@.len(),
                formats@ == color_formats@.take(i as int),
            decreases color_formats@.len() - i,
        {
            formats.push(color_formats[i]);
            i = i + 1;
            assert(formats@ =~= color_formats@.take(i as int));
        }
        assert(color_formats@.take(i as int) =~= color_formats@);
        VulkanRenderPassKey { color_formats: formats, depth_format }
    }

    /// Whether two keys name the same formats.
    pub fn same_as(&self, other: &VulkanRenderPassKey) -> (same: bool)
        ensures
            same == same_key(*self, *other),
    {
        let same_depth: bool = match (self.depth_format, other.depth_format) {
            (Some(a), Some(b)) => a == b,
            (None, None) => true,
            _ => false,
        };
        same_depth && same_formats(&self.color_formats, &other.color_formats)
    }

    /// The formats of the color attachments.
    pub fn color_vk_formats(&self) -> (formats: &Vec<i32>)
        ensures
            formats@ == self.color_formats@,
    {
        &self.color_formats
    }

    /// The format of the depth attachment.
    pub fn depth_vk_format(&self) -> (format: Option<i32>)
        ensures
            format == self.depth_format,
    {
        self.depth_format
    }
}

/// The key of the pass that draws to the window.
pub fn main_render_pass_key(vulkan: &CxVulkan) -> (key: VulkanRenderPassKey)
    ensures
        key.color_formats@ == seq![vulkan.swapchain_format],
        key.depth_format == Some(vulkan.depth_format),
{
    let formats: [i32; 1] = [vulkan.swapchain_format];
    let key = VulkanRenderPassKey::new(&formats, Some(vulkan.depth_format));
    assert(key.color_formats@ =~= seq![vulkan.swapchain_format]);
    key
}

/// How an attachment is made: what it is, what becomes of its contents, and its
/// layouts.
#[derive(Clone, Copy, PartialEq, Eq, Structural, Debug)]
pub struct AttachmentPlan {
    pub format: i32,
    /// Cleared at the start, else loaded.
    pub clear: bool,
    /// Stored at the end, else left.
    pub store: bool,
    pub initial_layout: i32,
    pub final_layout: i32,
}

/// A color attachment of a cached pass.
pub open spec fn cached_color(format: i32) -> AttachmentPlan {
    AttachmentPlan {
        format,
        clear: false,
        store: true,
        initial_layout: LAYOUT_COLOR_ATTACHMENT,
        final_layout: LAYOUT_SHADER_READ_ONLY,
    }
}

/// The depth attachment of a cached pass.
pub open spec fn cached_depth(format: i32) -> AttachmentPlan {
    AttachmentPlan {
        format,
        clear: false,
        store: false,
        initial_layout: LAYOUT_DEPTH_ATTACHMENT,
        final_layout: LAYOUT_DEPTH_ATTACHMENT,
    }
}

/// The attachments of a cached pass: the colors in order, then the depth.
pub open spec fn cached_attachments(key: VulkanRenderPassKey) -> Seq<AttachmentPlan> {
    Seq::new(key.color_formats@.len(), |i: int| cached_color(key.color_formats@[i])) + (
    match key.depth_format {
        Some(format) => seq![cached_depth(format)],
        None => seq![],
    })
}

/// What is known of a pass that a pipeline asks for.
pub enum RenderPassLookup {
    Ready(u64),
    /// The pass has to be made with these attachments, then kept.
    Create(Vec<AttachmentPlan>),
    Failed(String),
}

/// A pass that was made before.
pub struct CachedRenderPass {
    pub key: VulkanRenderPassKey,
    pub render_pass: u64,
}

/// The passes that were made for pipelines.
pub struct RenderPassCache {
    pub passes: Vec<CachedRenderPass>,
}

/// The pass that is kept under the key.
pub open spec fn find_pass(passes: Seq<CachedRenderPass>, key: VulkanRenderPassKey) -> Option<u64>
    decreases passes.len(),
{
    if passes.len() == 0 {
        None
    } else {
        match find_pass(passes.drop_last(), key) {
            Some(render_pass) => Some(render_pass),
            None => if same_key(passes.last().key, key) {
                Some(passes.last().render_pass)
            } else {
                None
            },
        }
    }
}

proof fn lemma_find_pass_prefix(passes: Seq<CachedRenderPass>, key: VulkanRenderPassKey, n: int)
    requires
        0 <= n <= passes.len(),
        find_pass(passes.take(n), key) is Some,
    ensures
        find_pass(passes, key) == find_pass(passes.take(n), key),
    decreases passes.len() - n,
{
    if n == passes.len() {
        assert(passes.take(n) =~= passes);
    } else {
        assert(passes.take(n + 1).drop_last() =~= passes.take(n));
        lemma_find_pass_prefix(passes, key, n + 1);
    }
}

fn plan_cached_attachments(key: &VulkanRenderPassKey) -> (attachments: Vec<AttachmentPlan>)
    ensures
        attachments@ == cached_attachments(*key),
{
    let ghost colors = Seq::new(
        key.color_formats@.len(),
        |i: int| cached_color(key.color_formats@[i]),
    );
    let mut attachments: Vec<AttachmentPlan> = Vec::new();
    let mut i: usize = 0;
    while i < key.color_formats.len()
        invariant
            i <= key.color_formats@.len(),
            colors == Seq::new(
                key.color_formats@.len(),
                |i: int| cached_color(key.color_formats@[i]),
            ),
            attachments@ == colors.take(i as int),
        decreases key.color_formats@.len() - i,
    {
        attachments.push(
            AttachmentPlan {
                format: key.color_formats[i],
                clear: false,
                store: true,
                initial_layout: LAYOUT_COLOR_ATTACHMENT,
                final_layout: LAYOUT_SHADER_READ_ONLY,
            },
        );
        i = i + 1;
        assert(attachments@ =~= colors.take(i as int));
    }
    match key.depth_format {
        Some(format) => {
            attachments.push(
                AttachmentPlan {
                    format,
                    clear: false,
                    store: false,
                    initial_layout: LAYOUT_DEPTH_ATTACHMENT,
                    final_layout: LAYOUT_DEPTH_ATTACHMENT,
                },
            );
        },
        None => {},
    }
    assert(attachments@ =~= cached_attachments(*key));
    attachments
}

impl RenderPassCache {
    /// Starts with no pass.
    pub fn new() -> (cache: RenderPassCache)
        ensures
            cache.passes@.len() == 0,
    {
        RenderPassCache { passes: Vec::new() }
    }

    fn lookup(&self, key: &VulkanRenderPassKey) -> (found: Option<u64>)
        ensures
            found == find_pass(self.passes@, *key),
    {
        let mut i: usize = 0;
        while i < self.passes.len()
            invariant
                i <= self.passes@.len(),
                find_pass(self.passes@.take(i as int), *key) is None,
            decreases self.passes@.len() - i,
        {
            proof {
                let next = self.passes@.take(i + 1);
                assert(next.drop_last() =~= self.passes@.take(i as int));
                assert(next.last() == self.passes@[i as int]);
            }
            if self.passes[i].key.same_as(key) {
                proof {
                    lemma_find_pass_prefix(self.passes@, *key, i + 1);
                }
                return Some(self.passes[i].render_pass);
            }
            i = i + 1;
        }
        assert(self.passes@.take(i as int) =~= self.passes@);
        None
    }

    /// Finds the pass for a pipeline. The window's own formats use the window's pass
    /// or, without one, the OpenXR pass.
    pub fn get_or_create_pipeline_render_pass(
        &self,
        vulkan: &CxVulkan,
        key: &VulkanRenderPassKey,
    ) -> (result: RenderPassLookup)
        ensures
            if key.color_formats@ =~= seq![vulkan.swapchain_format] && key.depth_format == Some(
                vulkan.depth_format,
            ) {
                if vulkan.render_pass != 0 {
                    result == RenderPassLookup::Ready(vulkan.render_pass)
                } else if vulkan.xr_render_pass != 0 {
                    result == RenderPassLookup::Ready(vulkan.xr_render_pass)
                } else {
                    result matches RenderPassLookup::Failed(message) && message@
                        == "main/XR Vulkan render pass is not ready"@
                }
            } else {
                match find_pass(self.passes@, *key) {
                    Some(render_pass) => result == RenderPassLookup::Ready(render_pass),
                    None => result matches RenderPassLookup::Create(attachments) && attachments@
                        == cached_attachments(*key),
                }
            },
    {
        let main: VulkanRenderPassKey = main_render_pass_key(vulkan);
        if key.same_as(&main) {
            if vulkan.render_pass != 0 {
                return RenderPassLookup::Ready(vulkan.render_pass);
            }
            if vulkan.xr_render_pass != 0 {
                return RenderPassLookup::Ready(vulkan.xr_render_pass);
            }
            return RenderPassLookup::Failed("main/XR Vulkan render pass is not ready".to_owned());
        }
        match self.lookup(key) {
            Some(render_pass) => RenderPassLookup::Ready(render_pass),
            None => RenderPassLookup::Create(plan_cached_attachments(key)),
        }
    }

    /// Keeps a pass that was made.
    pub fn insert(&mut self, key: VulkanRenderPassKey, render_pass: u64)
        ensures
            final(self).passes@ == old(self).passes@.push((CachedRenderPass { key, render_pass })),
    {
        self.passes.push(CachedRenderPass { key, render_pass });
    }
}

/// A pass that was made and kept is found again, under its key and no other.
pub proof fn law_kept_pass_is_found(
    passes: Seq<CachedRenderPass>,
    key: VulkanRenderPassKey,
    render_pass: u64,
    other: VulkanRenderPassKey,
)
    requires
        find_pass(passes, key) is None,
    ensures
        ({
            let after = passes.push((CachedRenderPass { key, render_pass }));
            &&& find_pass(after, key) == Some(render_pass)
            &&& !same_key(key, other) ==> find_pass(after, other) == find_pass(passes, other)
        }),
{
    let after = passes.push((CachedRenderPass { key, render_pass }));
    assert(after.drop_last() =~= passes);
}

/// A pass waits for the colors and depths that were written before it, and one to textures
/// besides for the shaders that still read them; its own writes wait for that.
pub proof fn law_passes_wait_for_earlier_writes()
    ensures
        window_dependency().before == 0x500 && window_dependency().after == 0x500,
        window_dependency().access_before == 0 && window_dependency().access_after == 0x500,
        texture_dependency().before == 0x580 && texture_dependency().after == 0x500,
        texture_dependency().access_before == 0x520 && texture_dependency().access_after == 0x780,
{
    assert(0x400u32 | 0x100u32 == 0x500u32 && 0x100u32 | 0x400u32 == 0x500u32) by (bit_vector);
    assert(0x400u32 | 0x100u32 | 0x80u32 == 0x580u32) by (bit_vector);
    assert(0x20u32 | 0x100u32 | 0x400u32 == 0x520u32) by (bit_vector);
    assert(0x80u32 | 0x100u32 | 0x200u32 | 0x400u32 == 0x780u32) by (bit_vector);
}

/// A pass that is found was kept under the formats that are asked for, and is the first
/// such; where none is found, every kept pass has other formats.
pub proof fn law_found_pass_has_the_formats(passes: Seq<CachedRenderPass>, key: VulkanRenderPassKey)
    ensures
        match find_pass(passes, key) {
            Some(render_pass) => exists|i: int|
                {
                    &&& 0 <= i < passes.len()
                    &&& (#[trigger] passes[i]).render_pass == render_pass
                    &&& passes[i].key.color_formats@ == key.color_formats@
                    &&& passes[i].key.depth_format == key.depth_format
                },
            None => forall|i: int|
                0 <= i < passes.len() ==> (#[trigger] passes[i]).key.color_formats@
                    != key.color_formats@ || passes[i].key.depth_format != key.depth_format,
        },
    decreases passes.len(),
{
    if passes.len() > 0 {
        let before = passes.drop_last();
        law_found_pass_has_the_formats(before, key);
        let n = passes.len() - 1;
        assert(passes[n] == passes.last());
        assert(forall|i: int| 0 <= i < n ==> before[i] == passes[i]);
        match find_pass(before, key) {
            Some(render_pass) => {
                let i = choose|i: int|
                    {
                        &&& 0 <= i < before.len()
                        &&& (#[trigger] before[i]).render_pass == render_pass
                        &&& before[i].key.color_formats@ == key.color_formats@
                        &&& before[i].key.depth_format == key.depth_format
                    };
                assert(passes[i].render_pass == render_pass);
            },
            None => {},
        }
    }
}

/// A pass that pipelines are made for has an attachment for each format, colors first; it
/// loads what is there, and keeps colors so that they can be read.
pub proof fn law_cached_pass_has_each_format(key: VulkanRenderPassKey, i: int)
    requires
        0 <= i < key.color_formats@.len(),
    ensures
        ({
            let attachments = cached_attachments(key);
            &&& attachments.len() == key.color_formats@.len() + if key.depth_format is Some {
                1int
            } else {
                0
            }
            &&& attachments[i].format == key.color_formats@[i]
            &&& !attachments[i].clear && attachments[i].store
            &&& attachments[i].initial_layout == 2 && attachments[i].final_layout == 5
            &&& key.depth_format is Some ==> {
                let last = attachments.last();
                &&& last.format == key.depth_format->0 && !last.clear && !last.store
                &&& last.initial_layout == 3 && last.final_layout == 3
            }
        }),
{
}

} // verus!

//! Passes that draw to textures.

use std::collections::HashMap;

use vstd::prelude::*;

use crate::text::decimal;
#[allow(unused_imports)]
use crate::text::decimal_text;
use crate::vulkan::codes::{
    FORMAT_D32_SFLOAT, LAYOUT_COLOR_ATTACHMENT, LAYOUT_DEPTH_ATTACHMENT, LAYOUT_SHADER_READ_ONLY,
};
use crate::vulkan::cx_vulkan::CxVulkan;
use crate::vulkan::failure::subject_failed;
#[allow(unused_imports)]
use crate::vulkan::failure::subject_failed_text;
use crate::vulkan::pass_state::{PassRect, PassState};
#[allow(unused_imports)]
use crate::vulkan::pass_state::{painted, pass_is_drawn};
use crate::vulkan::render_pass::{AttachmentPlan, VulkanRenderPassKey};

verus! {

broadcast use vstd::std_specs::hash::group_hash_axioms;

/// A texture on the device.
#[derive(Clone, Copy, PartialEq, Eq, Debug)]
pub struct TargetState {
    pub width: u32,
    pub height: u32,
    pub layers: u32,
    pub is_cube: bool,
    pub format: i32,
    pub layout: i32,
    pub view: u64,
    pub face_views: [u64; 6],
}

/// What a render target was allocated as. `format` is absent where the device has no
/// format for its pixels.
#[derive(Clone, Copy, PartialEq, Eq, Structural, Debug)]
pub struct TargetAlloc {
    pub width: usize,
    pub height: usize,
    pub is_cube: bool,
    pub format: Option<i32>,
}

/// What has to be done to have a target.
#[derive(Clone, Copy, PartialEq, Eq, Structural, Debug)]
pub enum TargetPlan {
    Keep,
    /// Make one, after the old one, if any, was retired.
    Create { width: u32, height: u32, format: i32, is_cube: bool, retire: bool },
}

/// A size of at least one.
pub open spec fn target_size(size: usize) -> usize {
    if size == 0 {
        1
    } else {
        size
    }
}

/// The existing texture is what is asked for.
pub open spec fn target_fits(
    state: TargetState,
    width: usize,
    height: usize,
    format: i32,
    is_cube: bool,
) -> bool {
    &&& state.width == target_size(width)
    &&& state.height == target_size(height)
    &&& state.format == format
    &&& state.layers == (if is_cube {
        6u32
    } else {
        1u32
    })
    &&& state.is_cube == is_cube
}

/// What is done for a target of the given shape.
pub open spec fn target_plan(
    existing: Option<TargetState>,
    alloc_changed: bool,
    alloc: TargetAlloc,
    format: i32,
    is_cube: bool,
) -> TargetPlan {
    let create = TargetPlan::Create {
        width: target_size(alloc.width) as u32,
        height: target_size(alloc.height) as u32,
        format,
        is_cube,
        retire: existing is Some,
    };
    match existing {
        Some(state) => if !alloc_changed && target_fits(
            state,
            alloc.width,
            alloc.height,
            format,
            is_cube,
        ) {
            TargetPlan::Keep
        } else {
            create
        },
        None => create,
    }
}

fn plan_target(
    existing: Option<TargetState>,
    alloc_changed: bool,
    alloc: TargetAlloc,
    format: i32,
    is_cube: bool,
) -> (plan: TargetPlan)
    requires
        alloc.width <= u32::MAX,
        alloc.height <= u32::MAX,
    ensures
        plan == target_plan(existing, alloc_changed, alloc, format, is_cube),
{
    let width: u32 = if alloc.width == 0 { 1 } else { alloc.width as u32 };
    let height: u32 = if alloc.height == 0 { 1 } else { alloc.height as u32 };
    let layers: u32 = if is_cube { 6 } else { 1 };
    match existing {
        Some(state) => {
            if !alloc_changed && state.width == width && state.height == height && state.format
                == format && state.layers == layers && state.is_cube == is_cube {
                TargetPlan::Keep
            } else {
                TargetPlan::Create { width, height, format, is_cube, retire: true }
            }
        },
        None => TargetPlan::Create { width, height, format, is_cube, retire: false },
    }
}

/// The text "`start``key``end`".
pub open spec fn keyed_text(start: Seq<char>, key: u64, end: Seq<char>) -> Seq<char> {
    start + decimal_text(key as nat) + end
}

fn keyed_message(start: &str, key: u64, end: &str) -> (message: String)
    ensures
        message@ == keyed_text(start@, key, end@),
{
    let mut message: String = start.to_owned();
    let text: String = decimal(key);
    message.append(text.as_str());
    message.append(end);
    message
}

/// Decides what is done for a color target.
pub fn ensure_pass_color_target(
    existing: Option<TargetState>,
    alloc_changed: bool,
    alloc: Option<TargetAlloc>,
    texture_key: u64,
) -> (result: Result<TargetPlan, String>)
    requires
        alloc matches Some(alloc) ==> alloc.width <= u32::MAX && alloc.height <= u32::MAX,
    ensures
        match alloc {
            None => result matches Err(message) && message@ == keyed_text(
                "render target texture "@,
                texture_key,
                " missing allocation metadata"@,
            ),
            Some(alloc) => match alloc.format {
                None => result matches Err(message) && message@ == keyed_text(
                    "unsupported Vulkan render target pixel format for texture "@,
                    texture_key,
                    ""@,
                ),
                Some(format) => result == Ok::<TargetPlan, String>(
                    target_plan(existing, alloc_changed, alloc, format, alloc.is_cube),
                ),
            },
        },
{
    match alloc {
        None => Err(
            keyed_message("render target texture ", texture_key, " missing allocation metadata"),
        ),
        Some(alloc) => match alloc.format {
            None => Err(
                keyed_message(
                    "unsupported Vulkan render target pixel format for texture ",
                    texture_key,
                    "",
                ),
            ),
            Some(format) => Ok(plan_target(existing, alloc_changed, alloc, format, alloc.is_cube)),
        },
    }
}

/// Decides what is done for a depth target, which holds floating-point depths and
/// never is a cube.
pub fn ensure_pass_depth_target(
    existing: Option<TargetState>,
    alloc_changed: bool,
    alloc: Option<TargetAlloc>,
    is_d32: bool,
    texture_key: u64,
) -> (result: Result<TargetPlan, String>)
    requires
        alloc matches Some(alloc) ==> alloc.width <= u32::MAX && alloc.height <= u32::MAX,
    ensures
        match alloc {
            None => result matches Err(message) && message@ == keyed_text(
                "depth target texture "@,
                texture_key,
                " missing allocation metadata"@,
            ),
            Some(alloc) => if !is_d32 {
                result matches Err(message) && message@ == keyed_text(
                    "unsupported Vulkan depth target pixel format for texture "@,
                    texture_key,
                    ""@,
                )
            } else {
                result == Ok::<TargetPlan, String>(
                    target_plan(existing, alloc_changed, alloc, FORMAT_D32_SFLOAT, false),
                )
            },
        },
{
    match alloc {
        None => Err(
            keyed_message("depth target texture ", texture_key, " missing allocation metadata"),
        ),
        Some(alloc) => {
            if !is_d32 {
                Err(
                    keyed_message(
                        "unsupported Vulkan depth target pixel format for texture ",
                        texture_key,
                        "",
                    ),
                )
            } else {
                Ok(plan_target(existing, alloc_changed, alloc, FORMAT_D32_SFLOAT, false))
            }
        },
    }
}

/// A target that was made as planned fits until its allocation changes again.
pub proof fn law_made_target_is_kept(state: TargetState, alloc: TargetAlloc, format: i32, is_cube: bool)
    requires
        alloc.width <= u32::MAX,
        alloc.height <= u32::MAX,
        state.width == target_size(alloc.width),
        state.height == target_size(alloc.height),
        state.format == format,
        state.is_cube == is_cube,
        state.layers == (if is_cube {
            6u32
        } else {
            1u32
        }),
    ensures
        target_plan(Some(state), false, alloc, format, is_cube) == TargetPlan::Keep,
        target_plan(Some(state), true, alloc, format, is_cube) is Create,
{
}

/// When an attachment is cleared: at its first use, or at every use.
#[derive(Clone, Copy, PartialEq, Eq, Structural, Debug)]
pub enum ClearMode {
    InitWith,
    ClearWith,
}

/// Whether the texture's first use is spent on this pass.
pub fn takes_initial(mode: ClearMode, dont_clear: bool) -> (takes: bool)
    ensures
        takes == (mode is InitWith && !dont_clear),
{
    mode == ClearMode::InitWith && !dont_clear
}

/// Whether an attachment is cleared. `initial` says that this is the texture's first
/// use.
pub open spec fn is_cleared(mode: ClearMode, dont_clear: bool, initial: bool) -> bool {
    !dont_clear && (mode is ClearWith || initial)
}

fn clears(mode: ClearMode, dont_clear: bool, initial: bool) -> (cleared: bool)
    ensures
        cleared == is_cleared(mode, dont_clear, initial),
{
    !dont_clear && (mode == ClearMode::ClearWith || initial)
}

/// A color target of a pass. `label` names its texture in messages.
pub struct PassColorTarget {
    pub texture_key: u64,
    pub cube_face: Option<usize>,
    pub mode: ClearMode,
    pub initial: bool,
    pub label: String,
}

/// The depth target of a pass.
pub struct PassDepthTarget {
    pub texture_key: u64,
    pub mode: ClearMode,
    pub initial: bool,
    pub label: String,
}

/// An attachment of a pass.
#[derive(Clone, Copy, PartialEq, Eq, Structural, Debug)]
pub struct PassAttachment {
    pub texture_key: u64,
    pub view: u64,
    pub format: i32,
    pub old_layout: i32,
    pub layers: u32,
    pub clear: bool,
}

/// The textures on the device.
pub struct TextureTable {
    pub textures: HashMap<u64, TargetState>,
}

impl View for TextureTable {
    type V = Map<u64, TargetState>;

    open spec fn view(&self) -> Map<u64, TargetState> {
        self.textures@
    }
}

/// The view that is drawn to: the face's own where there is one, else the whole
/// texture's.
pub open spec fn drawn_view(state: TargetState, cube_face: Option<usize>) -> u64 {
    match cube_face {
        Some(face) => if face < 6 && state.face_views@[face as int] != 0 {
            state.face_views@[face as int]
        } else {
            state.view
        },
        None => state.view,
    }
}

fn choose_view(state: &TargetState, cube_face: Option<usize>) -> (view: u64)
    ensures
        view == drawn_view(*state, cube_face),
{
    match cube_face {
        Some(face) => {
            if face < 6 && state.face_views[face] != 0 {
                state.face_views[face]
            } else {
                state.view
            }
        },
        None => state.view,
    }
}

/// The attachment for a color target that exists.
pub open spec fn color_attachment(
    state: TargetState,
    target: PassColorTarget,
    dont_clear: bool,
) -> PassAttachment {
    PassAttachment {
        texture_key: target.texture_key,
        view: drawn_view(state, target.cube_face),
        format: state.format,
        old_layout: state.layout,
        layers: state.layers,
        clear: is_cleared(target.mode, dont_clear, target.initial),
    }
}

/// The attachment for a depth target that exists.
pub open spec fn depth_attachment(
    state: TargetState,
    target: PassDepthTarget,
    dont_clear: bool,
) -> PassAttachment {
    PassAttachment {
        texture_key: target.texture_key,
        view: state.view,
        format: state.format,
        old_layout: state.layout,
        layers: 1,
        clear: is_cleared(target.mode, dont_clear, target.initial),
    }
}

/// The first color target whose texture is not there.
pub open spec fn first_missing(targets: Seq<PassColorTarget>, textures: Map<u64, TargetState>) -> Option<
    int,
>
    decreases targets.len(),
{
    if targets.len() == 0 {
        None
    } else {
        match first_missing(targets.drop_last(), textures) {
            Some(index) => Some(index),
            None => if textures.dom().contains(targets.last().texture_key) {
                None
            } else {
                Some(targets.len() - 1)
            },
        }
    }
}

/// The attachments of a pass: the colors in order, and the depth, if any.
pub struct PassAttachments {
    pub colors: Vec<PassAttachment>,
    pub depth: Option<PassAttachment>,
}

impl TextureTable {
    /// Starts without textures.
    pub fn new() -> (table: TextureTable)
        ensures
            table@ == Map::<u64, TargetState>::empty(),
    {
        TextureTable { textures: HashMap::new() }
    }

    /// The texture under the key.
    pub fn get(&self, key: u64) -> (state: Option<TargetState>)
        ensures
            state == (if self@.dom().contains(key) {
                Some(self@[key])
            } else {
                None
            }),
    {
        match self.textures.get(&key) {
            Some(state) => Some(*state),
            None => None,
        }
    }

    /// Takes a texture out: it is being replaced, and nothing binds it any more.
    pub fn take(&mut self, key: u64) -> (state: Option<TargetState>)
        ensures
            final(self)@ == old(self)@.remove(key),
            state == (if old(self)@.contains_key(key) {
                Some(old(self)@[key])
            } else {
                None
            }),
    {
        broadcast use vstd::std_specs::hash::group_hash_axioms;

        self.textures.remove(&key)
    }

    /// Keeps a texture under the key.
    pub fn insert(&mut self, key: u64, state: TargetState)
        ensures
            final(self)@ == old(self)@.insert(key, state),
    {
        self.textures.insert(key, state);
    }

    /// Collects the attachments of a pass that draws to textures.
    pub fn collect_attachments(
        &self,
        targets: &Vec<PassColorTarget>,
        depth: &Option<PassDepthTarget>,
        dont_clear: bool,
    ) -> (result: Result<PassAttachments, String>)
        ensures
            match first_missing(targets@, self@) {
                Some(index) => result matches Err(message) && message@
                    == "missing Vulkan color target for texture "@ + targets@[index].label@,
                None => match depth {
                    Some(target) if !self@.dom().contains(target.texture_key) => result matches Err(
                        message,
                    ) && message@ == "missing Vulkan depth target for texture "@ + target.label@,
                    _ => {
                        &&& result matches Ok(attachments)
                        &&& attachments.colors@ == Seq::new(
                            targets@.len(),
                            |i: int|
                                color_attachment(
                                    self@[targets@[i].texture_key],
                                    targets@[i],
                                    dont_clear,
                                ),
                        )
                        &&& attachments.depth == (match depth {
                            Some(target) => Some(
                                depth_attachment(self@[target.texture_key], *target, dont_clear),
                            ),
                            None => None,
                        })
                    },
                },
            },
    {
        let mut colors: Vec<PassAttachment> = Vec::new();
        let ghost wanted = Seq::new(
            targets@.len(),
            |i: int| color_attachment(self@[targets@[i].texture_key], targets@[i], dont_clear),
        );
        let mut i: usize = 0;
        while i < targets.len()
            invariant
                i <= targets@.len(),
                wanted == Seq::new(
                    targets@.len(),
                    |i: int|
                        color_attachment(self@[targets@[i].texture_key], targets@[i], dont_clear),
                ),
                first_missing(targets@.take(i as int), self@) is None,
                colors@ == wanted.take(i as int),
            decreases targets@.len() - i,
        {
            proof {
                let next = targets@.take(i + 1);
                assert(next.drop_last() =~= targets@.take(i as int));
                assert(next.last() == targets@[i as int]);
            }
            let target = &targets[i];
            match self.get(target.texture_key) {
                None => {
                    proof {
                        lemma_missing_prefix(targets@, self@, i + 1);
                    }
                    let mut message: String = "missing Vulkan color target for texture ".to_owned();
                    message.append(target.label.as_str());
                    return Err(message);
                },
                Some(state) => {
                    colors.push(
                        PassAttachment {
                            texture_key: target.texture_key,
                            view: choose_view(&state, target.cube_face),
                            format: state.format,
                            old_layout: state.layout,
                            layers: state.layers,
                            clear: clears(target.mode, dont_clear, target.initial),
                        },
                    );
                },
            }
            i = i + 1;
            assert(colors@ =~= wanted.take(i as int));
        }
        assert(targets@.take(i as int) =~= targets@);
        assert(wanted.take(i as int) =~= wanted);
        let depth: Option<PassAttachment> = match depth {
            None => None,
            Some(target) => match self.get(target.texture_key) {
                None => {
                    let mut message: String = "missing Vulkan depth target for texture ".to_owned();
                    message.append(target.label.as_str());
                    return Err(message);
                },
                Some(state) => Some(
                    PassAttachment {
                        texture_key: target.texture_key,
                        view: state.view,
                        format: state.format,
                        old_layout: state.layout,
                        layers: 1,
                        clear: clears(target.mode, dont_clear, target.initial),
                    },
                ),
            },
        };
        Ok(PassAttachments { colors, depth })
    }

    /// Notes the layouts that a finished pass leaves its textures in.
    pub fn finish_pass(&mut self, attachments: &PassAttachments)
        ensures
            final(self)@ == with_depth_layout(
                with_color_layouts(old(self)@, attachments.colors@),
                attachments.depth,
            ),
    {
        let mut i: usize = 0;
        while i < attachments.colors.len()
            invariant
                i <= attachments.colors@.len(),
                self@ == with_color_layouts(old(self)@, attachments.colors@.take(i as int)),
            decreases attachments.colors@.len() - i,
        {
            proof {
                let next = attachments.colors@.take(i + 1);
                assert(next.drop_last() =~= attachments.colors@.take(i as int));
                assert(next.last() == attachments.colors@[i as int]);
            }
            self.set_layout(attachments.colors[i].texture_key, LAYOUT_SHADER_READ_ONLY);
            i = i + 1;
        }
        assert(attachments.colors@.take(i as int) =~= attachments.colors@);
        match attachments.depth {
            Some(depth) => {
                self.set_layout(depth.texture_key, LAYOUT_DEPTH_ATTACHMENT);
            },
            None => {},
        }
    }

    fn set_layout(&mut self, key: u64, layout: i32)
        ensures
            final(self)@ == with_layout(old(self)@, key, layout),
    {
        match self.get(key) {
            Some(state) => {
                let mut changed: TargetState = state;
                changed.layout = layout;
                self.insert(key, changed);
            },
            None => {},
        }
    }
}

/// The textures with one of them, if there, in another layout.
pub open spec fn with_layout(textures: Map<u64, TargetState>, key: u64, layout: i32) -> Map<
    u64,
    TargetState,
> {
    if textures.dom().contains(key) {
        textures.insert(key, (TargetState { layout, ..textures[key] }))
    } else {
        textures
    }
}

/// The textures with the color attachments ready to be read.
pub open spec fn with_color_layouts(
    textures: Map<u64, TargetState>,
    colors: Seq<PassAttachment>,
) -> Map<u64, TargetState>
    decreases colors.len(),
{
    if colors.len() == 0 {
        textures
    } else {
        with_layout(
            with_color_layouts(textures, colors.drop_last()),
            colors.last().texture_key,
            LAYOUT_SHADER_READ_ONLY,
        )
    }
}

/// The textures with the depth attachment, if any, left as one.
pub open spec fn with_depth_layout(
    textures: Map<u64, TargetState>,
    depth: Option<PassAttachment>,
) -> Map<u64, TargetState> {
    match depth {
        Some(depth) => with_layout(textures, depth.texture_key, LAYOUT_DEPTH_ATTACHMENT),
        None => textures,
    }
}

/// A finished pass leaves no texture out and adds none, and every color attachment
/// that is there is ready to be read.
pub proof fn law_pass_leaves_colors_readable(
    textures: Map<u64, TargetState>,
    colors: Seq<PassAttachment>,
)
    ensures
        with_color_layouts(textures, colors).dom() == textures.dom(),
        forall|i: int|
            0 <= i < colors.len() && textures.dom().contains(
                (#[trigger] colors[i]).texture_key,
            ) ==> with_color_layouts(textures, colors)[colors[i].texture_key].layout
                == LAYOUT_SHADER_READ_ONLY,
    decreases colors.len(),
{
    if colors.len() > 0 {
        let before = colors.drop_last();
        law_pass_leaves_colors_readable(textures, before);
        assert(with_color_layouts(textures, colors).dom() =~= textures.dom());
        assert forall|i: int|
            0 <= i < colors.len() && textures.dom().contains(
                (#[trigger] colors[i]).texture_key,
            ) implies with_color_layouts(textures, colors)[colors[i].texture_key].layout
            == LAYOUT_SHADER_READ_ONLY by {
            if i < before.len() {
                assert(before[i] == colors[i]);
            }
        }
    }
}

proof fn lemma_missing_prefix(
    targets: Seq<PassColorTarget>,
    textures: Map<u64, TargetState>,
    n: int,
)
    requires
        0 <= n <= targets.len(),
        first_missing(targets.take(n), textures) is Some,
    ensures
        first_missing(targets, textures) == first_missing(targets.take(n), textures),
    decreases targets.len() - n,
{
    if n == targets.len() {
        assert(targets.take(n) =~= targets);
    } else {
        assert(targets.take(n + 1).drop_last() =~= targets.take(n));
        lemma_missing_prefix(targets, textures, n + 1);
    }
}

/// How the attachments of the pass are described: the colors in order, then the
/// depth.
pub open spec fn pass_descriptions(colors: Seq<PassAttachment>, depth: Option<PassAttachment>) -> Seq<
    AttachmentPlan,
> {
    Seq::new(
        colors.len(),
        |i: int|
            AttachmentPlan {
                format: colors[i].format,
                clear: colors[i].clear,
                store: true,
                initial_layout: LAYOUT_COLOR_ATTACHMENT,
                final_layout: LAYOUT_COLOR_ATTACHMENT,
            },
    ) + (match depth {
        Some(depth) => seq![
            AttachmentPlan {
                format: depth.format,
                clear: depth.clear,
                store: false,
                initial_layout: LAYOUT_DEPTH_ATTACHMENT,
                final_layout: LAYOUT_DEPTH_ATTACHMENT,
            },
        ],
        None => seq![],
    })
}

impl PassAttachments {
    /// Describes the attachments for the render pass.
    pub fn describe(&self) -> (descriptions: Vec<AttachmentPlan>)
        ensures
            descriptions@ == pass_descriptions(self.colors@, self.depth),
    {
        let mut descriptions: Vec<AttachmentPlan> = Vec::new();
        let ghost colors = Seq::new(
            self.colors@.len(),
            |i: int|
                AttachmentPlan {
                    format: self.colors@[i].format,
                    clear: self.colors@[i].clear,
                    store: true,
                    initial_layout: LAYOUT_COLOR_ATTACHMENT,
                    final_layout: LAYOUT_COLOR_ATTACHMENT,
                },
        );
        let mut i: usize = 0;
        while i < self.colors.len()
            invariant
                i <= self.colors@.len(),
                colors == Seq::new(
                    self.colors@.len(),
                    |i: int|
                        AttachmentPlan {
                            format: self.colors@[i].format,
                            clear: self.colors@[i].clear,
                            store: true,
                            initial_layout: LAYOUT_COLOR_ATTACHMENT,
                            final_layout: LAYOUT_COLOR_ATTACHMENT,
                        },
                ),
                descriptions@ == colors.take(i as int),
            decreases self.colors@.len() - i,
        {
            descriptions.push(
                AttachmentPlan {
                    format: self.colors[i].format,
                    clear: self.colors[i].clear,
                    store: true,
                    initial_layout: LAYOUT_COLOR_ATTACHMENT,
                    final_layout: LAYOUT_COLOR_ATTACHMENT,
                },
            );
            i = i + 1;
            assert(descriptions@ =~= colors.take(i as int));
        }
        match self.depth {
            Some(depth) => {
                descriptions.push(
                    AttachmentPlan {
                        format: depth.format,
                        clear: depth.clear,
                        store: false,
                        initial_layout: LAYOUT_DEPTH_ATTACHMENT,
                        final_layout: LAYOUT_DEPTH_ATTACHMENT,
                    },
                );
            },
            None => {},
        }
        assert(descriptions@ =~= pass_descriptions(self.colors@, self.depth));
        descriptions
    }

    /// The views that the framebuffer is made of, in the order of the attachments.
    pub fn framebuffer_views(&self) -> (views: Vec<u64>)
        ensures
            views@ == self.colors@.map_values(|a: PassAttachment| a.view) + (match self.depth {
                Some(depth) => seq![depth.view],
                None => seq![],
            }),
    {
        let mut views: Vec<u64> = Vec::new();
        let ghost wanted = self.colors@.map_values(|a: PassAttachment| a.view);
        let mut i: usize = 0;
        while i < self.colors.len()
            invariant
                i <= self.colors@.len(),
                wanted == self.colors@.map_values(|a: PassAttachment| a.view),
                views@ == wanted.take(i as int),
            decreases self.colors@.len() - i,
        {
            views.push(self.colors[i].view);
            i = i + 1;
            assert(views@ =~= wanted.take(i as int));
        }
        assert(wanted.take(i as int) =~= wanted);
        match self.depth {
            Some(depth) => {
                views.push(depth.view);
                assert(views@ =~= wanted + seq![depth.view]);
            },
            None => {
                assert(views@ =~= wanted + Seq::<u64>::empty());
            },
        }
        views
    }

    /// The key under which pipelines for this pass are kept.
    pub fn render_pass_key(&self) -> (key: VulkanRenderPassKey)
        ensures
            key.color_formats@ == self.colors@.map_values(|a: PassAttachment| a.format),
            key.depth_format == (match self.depth {
                Some(depth) => Some(depth.format),
                None => None,
            }),
    {
        let mut formats: Vec<i32> = Vec::new();
        let ghost wanted = self.colors@.map_values(|a: PassAttachment| a.format);
        let mut i: usize = 0;
        while i < self.colors.len()
            invariant
                i <= self.colors@.len(),
                wanted == self.colors@.map_values(|a: PassAttachment| a.format),
                formats@ == wanted.take(i as int),
            decreases self.colors@.len() - i,
        {
            formats.push(self.colors[i].format);
            i = i + 1;
            assert(formats@ =~= wanted.take(i as int));
        }
        assert(wanted.take(i as int) =~= wanted);
        let depth_format: Option<i32> = match self.depth {
            Some(depth) => Some(depth.format),
            None => None,
        };
        VulkanRenderPassKey { color_formats: formats, depth_format }
    }
}

/// Where a pass to textures stands: the work that is to be done next.
#[derive(Clone, Copy, PartialEq, Eq, Structural, Debug)]
pub enum OffscreenStage {
    EnsureColorTarget { index: usize },
    EnsureDepthTarget,
    WaitFence,
    ResetFence,
    ReleaseFrameResources,
    ResetCommands,
    BeginCommands,
    PrepareTextures,
    /// Collect the attachments and bring their images into attachment layouts.
    Attach,
    CreateRenderPass,
    CreateFramebuffer,
    BeginRenderPass,
    Record,
    /// End the render pass and make the color images readable.
    EndRenderPass,
    EndCommands,
    Submit,
    WaitSubmit,
    ReleaseTargets,
    Ended,
}

/// How a message names the call of a stage; a stage without one reports for itself.
pub open spec fn offscreen_call(stage: OffscreenStage) -> (Seq<char>, Seq<char>) {
    match stage {
        OffscreenStage::WaitFence => ("wait_for_fences"@, "offscreen"@),
        OffscreenStage::ResetFence => ("reset_fences"@, "offscreen"@),
        OffscreenStage::ResetCommands => ("reset_command_buffer"@, "offscreen"@),
        OffscreenStage::BeginCommands => ("begin_command_buffer"@, "offscreen"@),
        OffscreenStage::CreateRenderPass => ("create_render_pass"@, "offscreen"@),
        OffscreenStage::CreateFramebuffer => ("create_framebuffer"@, "offscreen"@),
        OffscreenStage::EndCommands => ("end_command_buffer"@, "offscreen"@),
        OffscreenStage::Submit => ("queue_submit"@, "offscreen"@),
        OffscreenStage::WaitSubmit => ("wait_for_fences"@, "offscreen submit"@),
        _ => (""@, ""@),
    }
}

/// The message for a stage whose call returned an error.
pub fn offscreen_failed(stage: OffscreenStage, code: i32) -> (message: String)
    ensures
        message@ == subject_failed_text(offscreen_call(stage).0, offscreen_call(stage).1, code),
{
    match stage {
        OffscreenStage::WaitFence => subject_failed("wait_for_fences", "offscreen", code),
        OffscreenStage::ResetFence => subject_failed("reset_fences", "offscreen", code),
        OffscreenStage::ResetCommands => subject_failed("reset_command_buffer", "offscreen", code),
        OffscreenStage::BeginCommands => subject_failed("begin_command_buffer", "offscreen", code),
        OffscreenStage::CreateRenderPass => subject_failed("create_render_pass", "offscreen", code),
        OffscreenStage::CreateFramebuffer => subject_failed(
            "create_framebuffer",
            "offscreen",
            code,
        ),
        OffscreenStage::EndCommands => subject_failed("end_command_buffer", "offscreen", code),
        OffscreenStage::Submit => subject_failed("queue_submit", "offscreen", code),
        OffscreenStage::WaitSubmit => subject_failed("wait_for_fences", "offscreen submit", code),
        _ => subject_failed("", "", code),
    }
}

/// The stage after one that succeeded.
pub open spec fn offscreen_following(
    stage: OffscreenStage,
    color_targets: usize,
    has_depth: bool,
) -> OffscreenStage {
    match stage {
        OffscreenStage::EnsureColorTarget { index } => if index + 1 < color_targets {
            OffscreenStage::EnsureColorTarget { index: (index + 1) as usize }
        } else if has_depth {
            OffscreenStage::EnsureDepthTarget
        } else {
            OffscreenStage::WaitFence
        },
        OffscreenStage::EnsureDepthTarget => OffscreenStage::WaitFence,
        OffscreenStage::WaitFence => OffscreenStage::ResetFence,
        OffscreenStage::ResetFence => OffscreenStage::ReleaseFrameResources,
        OffscreenStage::ReleaseFrameResources => OffscreenStage::ResetCommands,
        OffscreenStage::ResetCommands => OffscreenStage::BeginCommands,
        OffscreenStage::BeginCommands => OffscreenStage::PrepareTextures,
        OffscreenStage::PrepareTextures => OffscreenStage::Attach,
        OffscreenStage::Attach => OffscreenStage::CreateRenderPass,
        OffscreenStage::CreateRenderPass => OffscreenStage::CreateFramebuffer,
        OffscreenStage::CreateFramebuffer => OffscreenStage::BeginRenderPass,
        OffscreenStage::BeginRenderPass => OffscreenStage::Record,
        OffscreenStage::Record => OffscreenStage::EndRenderPass,
        OffscreenStage::EndRenderPass => OffscreenStage::EndCommands,
        OffscreenStage::EndCommands => OffscreenStage::Submit,
        OffscreenStage::Submit => OffscreenStage::WaitSubmit,
        OffscreenStage::WaitSubmit => OffscreenStage::ReleaseTargets,
        OffscreenStage::ReleaseTargets => OffscreenStage::Ended,
        OffscreenStage::Ended => OffscreenStage::Ended,
    }
}

/// A pass to textures under way.
#[derive(Clone, Copy, PartialEq, Eq, Structural, Debug)]
pub struct OffscreenRun {
    pub stage: OffscreenStage,
    pub color_targets: usize,
    pub has_depth: bool,
}

impl CxVulkan {
    /// Begins a pass to textures, or nothing where there is nothing to draw or nothing to
    /// draw to. The pass is painted where there is something to draw, even where there
    /// is nothing to draw to.
    pub fn draw_pass_to_texture(
        &self,
        pass: &mut PassState,
        has_draw_list: bool,
        rect: Option<PassRect>,
        color_targets: usize,
        has_depth: bool,
    ) -> (run: Option<OffscreenRun>)
        ensures
            run == (if pass_is_drawn(has_draw_list, rect) && color_targets > 0 {
                Some(
                    OffscreenRun {
                        stage: OffscreenStage::EnsureColorTarget { index: 0 },
                        color_targets,
                        has_depth,
                    },
                )
            } else {
                None
            }),
            *final(pass) == (if pass_is_drawn(has_draw_list, rect) {
                painted(*old(pass), rect->0)
            } else {
                *old(pass)
            }),
    {
        if !pass.begin(has_draw_list, rect) || color_targets == 0 {
            return None;
        }
        Some(
            OffscreenRun {
                stage: OffscreenStage::EnsureColorTarget { index: 0 },
                color_targets,
                has_depth,
            },
        )
    }
}

impl OffscreenRun {
    /// Goes on to the next stage after the current one succeeded.
    pub fn advance(&mut self)
        ensures
            *final(self) == (OffscreenRun {
                stage: offscreen_following(
                    old(self).stage,
                    old(self).color_targets,
                    old(self).has_depth,
                ),
                ..*old(self)
            }),
    {
        self.stage = match self.stage {
            OffscreenStage::EnsureColorTarget { index } => {
                if index < self.color_targets && index + 1 < self.color_targets {
                    OffscreenStage::EnsureColorTarget { index: index + 1 }
                } else if self.has_depth {
                    OffscreenStage::EnsureDepthTarget
                } else {
                    OffscreenStage::WaitFence
                }
            },
            OffscreenStage::EnsureDepthTarget => OffscreenStage::WaitFence,
            OffscreenStage::WaitFence => OffscreenStage::ResetFence,
            OffscreenStage::ResetFence => OffscreenStage::ReleaseFrameResources,
            OffscreenStage::ReleaseFrameResources => OffscreenStage::ResetCommands,
            OffscreenStage::ResetCommands => OffscreenStage::BeginCommands,
            OffscreenStage::BeginCommands => OffscreenStage::PrepareTextures,
            OffscreenStage::PrepareTextures => OffscreenStage::Attach,
            OffscreenStage::Attach => OffscreenStage::CreateRenderPass,
            OffscreenStage::CreateRenderPass => OffscreenStage::CreateFramebuffer,
            OffscreenStage::CreateFramebuffer => OffscreenStage::BeginRenderPass,
            OffscreenStage::BeginRenderPass => OffscreenStage::Record,
            OffscreenStage::Record => OffscreenStage::EndRenderPass,
            OffscreenStage::EndRenderPass => OffscreenStage::EndCommands,
            OffscreenStage::EndCommands => OffscreenStage::Submit,
            OffscreenStage::Submit => OffscreenStage::WaitSubmit,
            OffscreenStage::WaitSubmit => OffscreenStage::ReleaseTargets,
            OffscreenStage::ReleaseTargets => OffscreenStage::Ended,
            OffscreenStage::Ended => OffscreenStage::Ended,
        };
    }
}

/// A target is cleared exactly where the pass clears at all and the target is always
/// cleared or was never drawn to.
pub proof fn law_targets_are_cleared_once_or_always(mode: ClearMode, dont_clear: bool, initial: bool)
    ensures
        dont_clear ==> !is_cleared(mode, dont_clear, initial),
        !dont_clear && mode is ClearWith ==> is_cleared(mode, dont_clear, initial),
        !dont_clear && mode is InitWith ==> is_cleared(mode, dont_clear, initial) == initial,
{
}

/// A target is kept exactly where nothing changed and it has the size, the format and the
/// shape that are asked for; one that is made has them, is at least one pixel wide and
/// high, and takes the place of the one before.
pub proof fn law_target_has_what_is_asked_for(
    existing: Option<TargetState>,
    alloc_changed: bool,
    alloc: TargetAlloc,
    format: i32,
    is_cube: bool,
)
    requires
        alloc.width <= u32::MAX,
        alloc.height <= u32::MAX,
    ensures
        ({
            let plan = target_plan(existing, alloc_changed, alloc, format, is_cube);
            &&& plan is Keep ==> !alloc_changed && existing is Some && {
                let state = existing->0;
                &&& state.width >= 1 && (alloc.width == state.width || alloc.width == 0)
                &&& state.height >= 1 && (alloc.height == state.height || alloc.height == 0)
                &&& state.format == format && state.is_cube == is_cube
                &&& state.layers == 6 <==> is_cube
            }
            &&& plan is Create ==> {
                &&& plan->Create_width >= 1 && (plan->Create_width == alloc.width || alloc.width
                    == 0 && plan->Create_width == 1)
                &&& plan->Create_height >= 1 && (plan->Create_height == alloc.height || alloc.height
                    == 0 && plan->Create_height == 1)
                &&& plan->Create_format == format
                &&& plan->Create_is_cube == is_cube
                &&& plan->retire == existing is Some
            }
            &&& alloc_changed || existing is None ==> plan is Create
            &&& existing is Some && existing->0.format != format ==> plan is Create
            &&& existing is Some && existing->0.is_cube != is_cube ==> plan is Create
            &&& existing is Some && alloc.width > 0 && existing->0.width != alloc.width
                ==> plan is Create
            &&& existing is Some && alloc.height > 0 && existing->0.height != alloc.height
                ==> plan is Create
        }),
{
}

/// A pass draws to the face of a cube that it names where there is a view of it, else to
/// the whole texture.
pub proof fn law_faces_are_drawn_to(state: TargetState, face: usize)
    ensures
        drawn_view(state, None) == state.view,
        face < 6 && state.face_views@[face as int] != 0 ==> drawn_view(state, Some(face))
            == state.face_views@[face as int],
        face >= 6 ==> drawn_view(state, Some(face)) == state.view,
        face < 6 && state.face_views@[face as int] == 0 ==> drawn_view(state, Some(face))
            == state.view,
{
}

/// An attachment is the texture that the target names, in the format and the layout that
/// it has.
pub proof fn law_attachments_are_their_textures(
    state: TargetState,
    color: PassColorTarget,
    depth: PassDepthTarget,
    dont_clear: bool,
)
    ensures
        ({
            let a = color_attachment(state, color, dont_clear);
            let b = depth_attachment(state, depth, dont_clear);
            &&& a.texture_key == color.texture_key && b.texture_key == depth.texture_key
            &&& a.format == state.format && b.format == state.format
            &&& a.old_layout == state.layout && b.old_layout == state.layout
            &&& a.layers == state.layers && b.layers == 1
            &&& b.view == state.view
            &&& color.cube_face is None ==> a.view == state.view
            &&& a.clear ==> !dont_clear
            &&& b.clear ==> !dont_clear
            &&& !dont_clear && color.initial ==> a.clear
            &&& !dont_clear && depth.initial ==> b.clear
            &&& !dont_clear && color.mode is ClearWith ==> a.clear
            &&& !dont_clear && depth.mode is ClearWith ==> b.clear
            &&& color.mode is InitWith && !color.initial ==> !a.clear
            &&& depth.mode is InitWith && !depth.initial ==> !b.clear
        }),
{
}

/// The pass has an attachment for each color texture, in order, and then the depth; colors
/// are kept and the depth is not.
pub proof fn law_pass_describes_each_attachment(
    colors: Seq<PassAttachment>,
    depth: Option<PassAttachment>,
    i: int,
)
    requires
        0 <= i < colors.len(),
    ensures
        ({
            let described = pass_descriptions(colors, depth);
            &&& described.len() == colors.len() + if depth is Some {
                1int
            } else {
                0
            }
            &&& described[i].format == colors[i].format
            &&& described[i].clear == colors[i].clear
            &&& described[i].store
            &&& described[i].initial_layout == 2 && described[i].final_layout == 2
            &&& depth is Some ==> {
                let last = described.last();
                &&& last.format == depth->0.format && last.clear == depth->0.clear && !last.store
                &&& last.initial_layout == 3 && last.final_layout == 3
            }
        }),
{
}

/// The first target whose texture is missing is one, and those before it have theirs.
pub proof fn law_missing_target_is_the_first(
    targets: Seq<PassColorTarget>,
    textures: Map<u64, TargetState>,
)
    ensures
        match first_missing(targets, textures) {
            Some(found) => {
                &&& 0 <= found < targets.len()
                &&& !textures.dom().contains(targets[found].texture_key)
                &&& forall|i: int|
                    0 <= i < found ==> textures.dom().contains((#[trigger] targets[i]).texture_key)
            },
            None => forall|i: int|
                0 <= i < targets.len() ==> textures.dom().contains(
                    (#[trigger] targets[i]).texture_key,
                ),
        },
    decreases targets.len(),
{
    if targets.len() > 0 {
        let before = targets.drop_last();
        law_missing_target_is_the_first(before, textures);
        assert(forall|i: int| 0 <= i < before.len() ==> before[i] == targets[i]);
    }
}

/// How far a pass to textures is at a stage.
pub open spec fn offscreen_rank(stage: OffscreenStage, color_targets: usize) -> int {
    match stage {
        OffscreenStage::EnsureColorTarget { index } => index - color_targets,
        OffscreenStage::EnsureDepthTarget => 0,
        OffscreenStage::WaitFence => 1,
        OffscreenStage::ResetFence => 2,
        OffscreenStage::ReleaseFrameResources => 3,
        OffscreenStage::ResetCommands => 4,
        OffscreenStage::BeginCommands => 5,
        OffscreenStage::PrepareTextures => 6,
        OffscreenStage::Attach => 7,
        OffscreenStage::CreateRenderPass => 8,
        OffscreenStage::CreateFramebuffer => 9,
        OffscreenStage::BeginRenderPass => 10,
        OffscreenStage::Record => 11,
        OffscreenStage::EndRenderPass => 12,
        OffscreenStage::EndCommands => 13,
        OffscreenStage::Submit => 14,
        OffscreenStage::WaitSubmit => 15,
        OffscreenStage::ReleaseTargets => 16,
        OffscreenStage::Ended => 17,
    }
}

/// A pass to textures leaves no stage out: each color target is ensured in turn, then the
/// depth target where there is one, and every stage behind them is followed by the next.
pub proof fn law_offscreen_pass_leaves_no_stage_out(
    stage: OffscreenStage,
    color_targets: usize,
    has_depth: bool,
)
    requires
        stage matches OffscreenStage::EnsureColorTarget { index } ==> index < color_targets,
    ensures
        ({
            let next = offscreen_following(stage, color_targets, has_depth);
            let here = offscreen_rank(stage, color_targets);
            let there = offscreen_rank(next, color_targets);
            &&& stage is Ended ==> next is Ended
            &&& here == -1 && !has_depth ==> there == 1
            &&& !(stage is Ended) && !(here == -1 && !has_depth) ==> there == here + 1
        }),
{
}

/// The depth attachment of a pass is left as one, and no other texture changes.
pub proof fn law_pass_leaves_depth_as_it_is_used(
    textures: Map<u64, TargetState>,
    depth: Option<PassAttachment>,
    key: u64,
)
    requires
        textures.dom().contains(key),
    ensures
        with_depth_layout(textures, depth).dom() =~= textures.dom(),
        depth is Some && depth->0.texture_key == key ==> with_depth_layout(textures, depth)[key]
            == (TargetState { layout: 3, ..textures[key] }),
        depth is None || depth->0.texture_key != key ==> with_depth_layout(textures, depth)[key]
            == textures[key],
{
}

/// A message with a key has the key between its start and its end.
pub proof fn law_keys_stand_in_their_message(start: Seq<char>, key: u64, end: Seq<char>)
    ensures
        ({
            let text = keyed_text(start, key, end);
            let number = decimal_text(key as nat);
            &&& text.len() == start.len() + number.len() + end.len()
            &&& text.take(start.len() as int) == start
            &&& text.skip((start.len() + number.len()) as int) == end
            &&& text.subrange(start.len() as int, (start.len() + number.len()) as int) == number
        }),
{
    let text = keyed_text(start, key, end);
    let number = decimal_text(key as nat);
    assert(text.take(start.len() as int) =~= start);
    assert(text.skip((start.len() + number.len()) as int) =~= end);
    assert(text.subrange(start.len() as int, (start.len() + number.len()) as int) =~= number);
}

/// A failure names the call of its stage, and what is waited for is told apart.
pub proof fn law_failed_stages_name_their_call(stage: OffscreenStage)
    ensures
        stage is WaitFence ==> offscreen_call(stage) == ("wait_for_fences"@, "offscreen"@),
        stage is ResetFence ==> offscreen_call(stage) == ("reset_fences"@, "offscreen"@),
        stage is ResetCommands ==> offscreen_call(stage) == (
            "reset_command_buffer"@,
            "offscreen"@,
        ),
        stage is BeginCommands ==> offscreen_call(stage) == (
            "begin_command_buffer"@,
            "offscreen"@,
        ),
        stage is CreateRenderPass ==> offscreen_call(stage) == (
            "create_render_pass"@,
            "offscreen"@,
        ),
        stage is CreateFramebuffer ==> offscreen_call(stage) == (
            "create_framebuffer"@,
            "offscreen"@,
        ),
        stage is EndCommands ==> offscreen_call(stage) == ("end_command_buffer"@, "offscreen"@),
        stage is Submit ==> offscreen_call(stage) == ("queue_submit"@, "offscreen"@),
        stage is WaitSubmit ==> offscreen_call(stage) == ("wait_for_fences"@, "offscreen submit"@),
{
}

} // verus!

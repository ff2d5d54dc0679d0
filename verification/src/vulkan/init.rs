//! Starting the Vulkan backend: the calls in order, and what is undone when one
//! fails.

use vstd::prelude::*;

use crate::vulkan::device_pick::{
    pick_device_and_queue_family, pick_graphics_queue_family_for_device, QueueFamily,
};
#[allow(unused_imports)]
use crate::vulkan::device_pick::{law_picked_family_draws, law_presenting_family_is_the_first};
#[allow(unused_imports)]
use crate::vulkan::device_pick::{
    graphics_family, presenting_device, presenting_family, QueueFamilySearch,
};
use crate::vulkan::failure::{call_failed, vk_result_text};
#[allow(unused_imports)]
use crate::vulkan::failure::{call_failed_text, vk_result_debug};
use crate::vulkan::xr_session::query_multiview_support;
#[allow(unused_imports)]
use crate::vulkan::flags::has_flags;

verus! {

/// For whom the backend is started.
#[derive(Clone, Copy, PartialEq, Eq, Structural, Debug)]
pub enum InitKind {
    Window,
    OpenXr,
}

/// One step of the start.
#[derive(Clone, Copy, PartialEq, Eq, Structural, Debug)]
pub enum InitStep {
    LoadEntry,
    EnumerateLayers,
    EnumerateExtensions,
    CreateInstance,
    AcquireWindow,
    CreateSurface,
    /// An OpenXR session starts with a null surface.
    NoSurface,
    PickDevice,
    GetGraphicsDevice,
    PickQueueFamily,
    RequireMultiview,
    CreateDevice,
    CreateCommandPool,
    AllocateCommandBuffer,
    CreateImageSemaphore,
    CreateRenderSemaphore,
    CreateFence,
}

/// What the start acquires.
#[derive(Clone, Copy, PartialEq, Eq, Structural, Debug)]
pub enum InitResource {
    Instance,
    Window,
    Surface,
    Device,
    CommandPool,
    CommandBuffer,
    ImageSemaphore,
    RenderSemaphore,
    Fence,
}

/// Something that the start holds.
#[derive(Clone, Copy, PartialEq, Eq, Structural, Debug)]
pub struct InitAcquired {
    pub resource: InitResource,
    pub handle: u64,
}

/// Why a step failed.
pub enum InitFailure {
    /// Vulkan returned an error.
    Code(i32),
    /// The work that the step stands for reported this.
    Message(String),
    /// The OpenXR runtime reported this.
    Runtime(String),
}

/// The steps of a start, in order.
pub open spec fn init_steps(kind: InitKind) -> Seq<InitStep> {
    match kind {
        InitKind::Window => seq![
            InitStep::LoadEntry,
            InitStep::EnumerateLayers,
            InitStep::EnumerateExtensions,
            InitStep::CreateInstance,
            InitStep::AcquireWindow,
            InitStep::CreateSurface,
            InitStep::PickDevice,
            InitStep::CreateDevice,
            InitStep::CreateCommandPool,
            InitStep::AllocateCommandBuffer,
            InitStep::CreateImageSemaphore,
            InitStep::CreateRenderSemaphore,
            InitStep::CreateFence,
        ],
        InitKind::OpenXr => seq![
            InitStep::LoadEntry,
            InitStep::EnumerateLayers,
            InitStep::EnumerateExtensions,
            InitStep::CreateInstance,
            InitStep::AcquireWindow,
            InitStep::NoSurface,
            InitStep::GetGraphicsDevice,
            InitStep::PickQueueFamily,
            InitStep::RequireMultiview,
            InitStep::CreateDevice,
            InitStep::CreateCommandPool,
            InitStep::AllocateCommandBuffer,
            InitStep::CreateImageSemaphore,
            InitStep::CreateRenderSemaphore,
            InitStep::CreateFence,
        ],
    }
}

fn list_init_steps(kind: InitKind) -> (steps: Vec<InitStep>)
    ensures
        steps@ == init_steps(kind),
{
    match kind {
        InitKind::Window => vec![
            InitStep::LoadEntry,
            InitStep::EnumerateLayers,
            InitStep::EnumerateExtensions,
            InitStep::CreateInstance,
            InitStep::AcquireWindow,
            InitStep::CreateSurface,
            InitStep::PickDevice,
            InitStep::CreateDevice,
            InitStep::CreateCommandPool,
            InitStep::AllocateCommandBuffer,
            InitStep::CreateImageSemaphore,
            InitStep::CreateRenderSemaphore,
            InitStep::CreateFence,
        ],
        InitKind::OpenXr => vec![
            InitStep::LoadEntry,
            InitStep::EnumerateLayers,
            InitStep::EnumerateExtensions,
            InitStep::CreateInstance,
            InitStep::AcquireWindow,
            InitStep::NoSurface,
            InitStep::GetGraphicsDevice,
            InitStep::PickQueueFamily,
            InitStep::RequireMultiview,
            InitStep::CreateDevice,
            InitStep::CreateCommandPool,
            InitStep::AllocateCommandBuffer,
            InitStep::CreateImageSemaphore,
            InitStep::CreateRenderSemaphore,
            InitStep::CreateFence,
        ],
    }
}

/// What a step acquires, if anything.
pub open spec fn init_acquires(step: InitStep) -> Option<InitResource> {
    match step {
        InitStep::CreateInstance => Some(InitResource::Instance),
        InitStep::AcquireWindow => Some(InitResource::Window),
        InitStep::CreateSurface => Some(InitResource::Surface),
        InitStep::NoSurface => Some(InitResource::Surface),
        InitStep::CreateDevice => Some(InitResource::Device),
        InitStep::CreateCommandPool => Some(InitResource::CommandPool),
        InitStep::AllocateCommandBuffer => Some(InitResource::CommandBuffer),
        InitStep::CreateImageSemaphore => Some(InitResource::ImageSemaphore),
        InitStep::CreateRenderSemaphore => Some(InitResource::RenderSemaphore),
        InitStep::CreateFence => Some(InitResource::Fence),
        _ => None,
    }
}

fn find_init_resource(step: InitStep) -> (resource: Option<InitResource>)
    ensures
        resource == init_acquires(step),
{
    match step {
        InitStep::CreateInstance => Some(InitResource::Instance),
        InitStep::AcquireWindow => Some(InitResource::Window),
        InitStep::CreateSurface => Some(InitResource::Surface),
        InitStep::NoSurface => Some(InitResource::Surface),
        InitStep::CreateDevice => Some(InitResource::Device),
        InitStep::CreateCommandPool => Some(InitResource::CommandPool),
        InitStep::AllocateCommandBuffer => Some(InitResource::CommandBuffer),
        InitStep::CreateImageSemaphore => Some(InitResource::ImageSemaphore),
        InitStep::CreateRenderSemaphore => Some(InitResource::RenderSemaphore),
        InitStep::CreateFence => Some(InitResource::Fence),
        _ => None,
    }
}

/// What the steps acquire, in order.
pub open spec fn init_owed(steps: Seq<InitStep>) -> Seq<InitResource>
    decreases steps.len(),
{
    if steps.len() == 0 {
        seq![]
    } else {
        let before = init_owed(steps.drop_last());
        match init_acquires(steps.last()) {
            Some(resource) => before.push(resource),
            None => before,
        }
    }
}

/// The kinds of what is held.
pub open spec fn init_held(acquired: Seq<InitAcquired>) -> Seq<InitResource> {
    acquired.map_values(|a: InitAcquired| a.resource)
}

/// How every message of a start begins.
pub open spec fn init_prefix(kind: InitKind) -> Seq<char> {
    match kind {
        InitKind::Window => "Android Vulkan init failed: "@,
        InitKind::OpenXr => "Android Vulkan XR init failed: "@,
    }
}

fn prefix_text(kind: InitKind) -> (text: &'static str)
    ensures
        text@ == init_prefix(kind),
{
    match kind {
        InitKind::Window => "Android Vulkan init failed: ",
        InitKind::OpenXr => "Android Vulkan XR init failed: ",
    }
}

/// How a message names the call that returned an error code.
pub open spec fn init_call(kind: InitKind, step: InitStep) -> Seq<char> {
    match step {
        InitStep::LoadEntry => "Entry::load: "@,
        InitStep::EnumerateLayers => "enumerate layers: "@,
        InitStep::EnumerateExtensions => "enumerate extensions: "@,
        InitStep::CreateInstance => match kind {
            InitKind::Window => "create_instance: "@,
            InitKind::OpenXr => "xrCreateVulkanInstanceKHR returned Vulkan error "@,
        },
        InitStep::CreateDevice => match kind {
            InitKind::Window => "create_device: "@,
            InitKind::OpenXr => "xrCreateVulkanDeviceKHR returned Vulkan error "@,
        },
        InitStep::CreateCommandPool => "create_command_pool: "@,
        InitStep::AllocateCommandBuffer => "allocate_command_buffers: "@,
        InitStep::CreateImageSemaphore => "create image semaphore: "@,
        InitStep::CreateRenderSemaphore => "create render semaphore: "@,
        InitStep::CreateFence => "create_fence: "@,
        _ => ""@,
    }
}

fn call_text(kind: InitKind, step: InitStep) -> (text: &'static str)
    ensures
        text@ == init_call(kind, step),
{
    match step {
        InitStep::LoadEntry => "Entry::load: ",
        InitStep::EnumerateLayers => "enumerate layers: ",
        InitStep::EnumerateExtensions => "enumerate extensions: ",
        InitStep::CreateInstance => match kind {
            InitKind::Window => "create_instance: ",
            InitKind::OpenXr => "xrCreateVulkanInstanceKHR returned Vulkan error ",
        },
        InitStep::CreateDevice => match kind {
            InitKind::Window => "create_device: ",
            InitKind::OpenXr => "xrCreateVulkanDeviceKHR returned Vulkan error ",
        },
        InitStep::CreateCommandPool => "create_command_pool: ",
        InitStep::AllocateCommandBuffer => "allocate_command_buffers: ",
        InitStep::CreateImageSemaphore => "create image semaphore: ",
        InitStep::CreateRenderSemaphore => "create render semaphore: ",
        InitStep::CreateFence => "create_fence: ",
        _ => "",
    }
}

/// The message for a failed step.
pub open spec fn init_failure_text(kind: InitKind, step: InitStep, failure: InitFailure) -> Seq<
    char,
> {
    match failure {
        InitFailure::Code(code) => if step is CreateSurface {
            call_failed_text("create_android_surface"@, code)
        } else {
            init_prefix(kind) + init_call(kind, step) + vk_result_debug(code)
        },
        InitFailure::Message(message) => if step is LoadEntry {
            init_prefix(kind) + init_call(kind, step) + message@
        } else if step is RequireMultiview {
            init_prefix(kind) + "the OpenXR Vulkan backend requires multiview support"@
        } else {
            message@
        },
        InitFailure::Runtime(message) => if step is GetGraphicsDevice {
            "OpenXR error in xrGetVulkanGraphicsDevice2KHR: "@ + message@
        } else {
            message@
        },
    }
}

fn init_failure_message(kind: InitKind, step: InitStep, failure: InitFailure) -> (message: String)
    ensures
        message@ == init_failure_text(kind, step, failure),
{
    match failure {
        InitFailure::Code(code) => {
            if step == InitStep::CreateSurface {
                call_failed("create_android_surface", code)
            } else {
                let mut message: String = prefix_text(kind).to_owned();
                message.append(call_text(kind, step));
                let text: String = vk_result_text(code);
                message.append(text.as_str());
                message
            }
        },
        InitFailure::Message(text) => {
            if step == InitStep::LoadEntry {
                let mut message: String = prefix_text(kind).to_owned();
                message.append(call_text(kind, step));
                message.append(text.as_str());
                message
            } else if step == InitStep::RequireMultiview {
                let mut message: String = prefix_text(kind).to_owned();
                message.append("the OpenXR Vulkan backend requires multiview support");
                message
            } else {
                text
            }
        },
        InitFailure::Runtime(text) => {
            if step == InitStep::GetGraphicsDevice {
                let mut message: String = "OpenXR error in xrGetVulkanGraphicsDevice2KHR: ".to_owned();
                message.append(text.as_str());
                message
            } else {
                text
            }
        },
    }
}

/// A start under way, with what it has found out so far.
pub struct VulkanInit {
    pub kind: InitKind,
    pub window: u64,
    pub width: u32,
    pub height: u32,
    pub steps: Vec<InitStep>,
    pub done: usize,
    pub acquired: Vec<InitAcquired>,
    /// The surface that was made; null for an OpenXR session.
    pub surface: u64,
    /// The queue families of the device that was picked.
    pub families: Vec<QueueFamily>,
    pub queue_family_index: u32,
    /// The device draws both eyes in one pass.
    pub multiview: bool,
}

/// The step is decided by what the device answers.
pub open spec fn takes_answer(step: InitStep) -> bool {
    step is PickDevice || step is PickQueueFamily || step is RequireMultiview
}

/// What a step acquired: an OpenXR session starts with a null surface.
pub open spec fn acquired_handle(step: InitStep, handle: u64) -> u64 {
    if step is NoSurface {
        0
    } else {
        handle
    }
}

/// One more step is done, and nothing was acquired.
pub open spec fn answered(before: VulkanInit, after: VulkanInit) -> bool {
    &&& after.wf()
    &&& after.kind == before.kind
    &&& after.window == before.window
    &&& after.width == before.width
    &&& after.height == before.height
    &&& after.done == before.done + 1
    &&& after.acquired@ == before.acquired@
    &&& after.surface == before.surface
}

/// What is left of a start that failed.
pub struct VulkanInitFailure {
    pub releases: Vec<InitAcquired>,
    pub message: String,
}

impl VulkanInit {
    /// What is held is what the steps done so far acquire, and what they had to find out
    /// is found out: the queue family, for an OpenXR session the device's multiview.
    pub open spec fn wf(&self) -> bool {
        &&& self.steps@ == init_steps(self.kind)
        &&& self.done <= self.steps@.len()
        &&& init_held(self.acquired@) == init_owed(self.steps@.take(self.done as int))
        &&& self.facts_wf()
    }

    /// The queue family is that of the device, and an OpenXR session has multiview and no
    /// surface.
    pub open spec fn facts_wf(&self) -> bool {
        &&& self.kind is OpenXr ==> self.surface == 0
        &&& self.families@.len() <= u32::MAX
        &&& self.kind is OpenXr && self.done > 7 ==> graphics_family(self.families@, 0) == Some(
            self.queue_family_index,
        )
        &&& self.kind is Window && self.done > 6 ==> presenting_family(self.families@, 0)
            == QueueFamilySearch::Found(self.queue_family_index)
        &&& self.kind is OpenXr && self.done > 8 ==> self.multiview
    }

    /// Begins a start. A null window is refused.
    pub fn begin(kind: InitKind, window: u64, width: u32, height: u32) -> (result: Result<
        VulkanInit,
        String,
    >)
        ensures
            if window == 0 {
                result matches Err(message) && message@ == init_prefix(kind)
                    + "null ANativeWindow"@
            } else {
                &&& result matches Ok(init)
                &&& init.wf()
                &&& init.kind == kind
                &&& init.window == window
                &&& init.width == width
                &&& init.height == height
                &&& init.done == 0
                &&& init.acquired@.len() == 0
                &&& init.surface == 0
            },
    {
        if window == 0 {
            let mut message: String = prefix_text(kind).to_owned();
            message.append("null ANativeWindow");
            return Err(message);
        }
        let init = VulkanInit {
            kind,
            window,
            width,
            height,
            steps: list_init_steps(kind),
            done: 0,
            acquired: Vec::new(),
            surface: 0,
            families: Vec::new(),
            queue_family_index: 0,
            multiview: false,
        };
        assert(init.steps@.take(0) =~= Seq::<InitStep>::empty());
        assert(init_held(init.acquired@) =~= Seq::<InitResource>::empty());
        Ok(init)
    }

    /// The step to perform, or nothing where the start is complete.
    pub fn next(&self) -> (step: Option<InitStep>)
        requires
            self.wf(),
        ensures
            step == (if self.done < self.steps@.len() {
                Some(init_steps(self.kind)[self.done as int])
            } else {
                None
            }),
    {
        if self.done < self.steps.len() {
            Some(self.steps[self.done])
        } else {
            None
        }
    }

    /// Records that the current step succeeded; `handle` is what it acquired.
    pub fn succeed(&mut self, handle: u64)
        requires
            old(self).wf(),
            old(self).done < old(self).steps@.len(),
            !takes_answer(old(self).steps@[old(self).done as int]),
        ensures
            final(self).wf(),
            final(self).kind == old(self).kind,
            final(self).window == old(self).window,
            final(self).width == old(self).width,
            final(self).height == old(self).height,
            final(self).done == old(self).done + 1,
            final(self).families@ == old(self).families@,
            final(self).queue_family_index == old(self).queue_family_index,
            final(self).multiview == old(self).multiview,
            ({
                let step = old(self).steps@[old(self).done as int];
                &&& final(self).acquired@ == (match init_acquires(step) {
                    Some(resource) => old(self).acquired@.push(
                        (InitAcquired { resource, handle: acquired_handle(step, handle) }),
                    ),
                    None => old(self).acquired@,
                })
                &&& final(self).surface == (if step is CreateSurface {
                    handle
                } else {
                    old(self).surface
                })
            }),
    {
        let count: usize = self.steps.len();
        assert(self.done < count);
        let step: InitStep = self.steps[self.done];
        let kept: u64 = if step == InitStep::NoSurface {
            0
        } else {
            handle
        };
        match find_init_resource(step) {
            Some(resource) => {
                self.acquired.push(InitAcquired { resource, handle: kept });
            },
            None => {},
        }
        if step == InitStep::CreateSurface {
            self.surface = handle;
        }
        self.done = self.done + 1;
        proof {
            let now = self.steps@.take(self.done as int);
            assert(now.drop_last() =~= self.steps@.take(self.done - 1));
            assert(now.last() == step);
            assert(init_held(self.acquired@) =~= init_owed(now));
        }
    }

    /// Takes the queue families of every device, or why there are none. The first device
    /// that draws and presents is picked, else the start ends.
    pub fn device_picked(self, devices: Result<Vec<Vec<QueueFamily>>, i32>) -> (result: Result<
        (VulkanInit, usize),
        VulkanInitFailure,
    >)
        requires
            self.wf(),
            self.done < self.steps@.len(),
            self.steps@[self.done as int] is PickDevice,
            devices matches Ok(list) ==> forall|i: int|
                0 <= i < list@.len() ==> (#[trigger] list@[i])@.len() <= u32::MAX,
        ensures
            match devices {
                Err(code) => result matches Err(left) && left.releases@ == self.acquired@.reverse()
                    && left.message@ == call_failed_text("enumerate_physical_devices"@, code),
                Ok(list) => match presenting_device(list@, 0) {
                    Some((device, family)) => {
                        &&& result matches Ok((init, picked))
                        &&& picked == device
                        &&& answered(self, init)
                        &&& init.families@ == list@[device]@
                        &&& init.queue_family_index == family
                    },
                    None => result matches Err(left) && left.releases@ == self.acquired@.reverse()
                        && left.message@
                        == "No Vulkan physical device with graphics+present support found"@,
                },
            },
    {
        match devices {
            Err(code) => Err(
                self.fail(InitFailure::Message(call_failed("enumerate_physical_devices", code))),
            ),
            Ok(list) => {
                let mut copies: Vec<Vec<QueueFamily>> = Vec::new();
                let mut i: usize = 0;
                while i < list.len()
                    invariant
                        i <= list@.len(),
                        copies@.len() == i,
                        forall|j: int| 0 <= j < i ==> (#[trigger] copies@[j])@ == list@[j]@,
                    decreases list@.len() - i,
                {
                    copies.push(list[i].clone());
                    assert(copies@[i as int]@ =~= list@[i as int]@);
                    i = i + 1;
                }
                match pick_device_and_queue_family(Ok(list)) {
                    Err(message) => Err(self.fail(InitFailure::Message(message))),
                    Ok((picked, family)) => {
                        proof {
                            lemma_presenting_device(list@, 0);
                        }
                        let families: Vec<QueueFamily> = copies.remove(picked);
                        let mut init: VulkanInit = self;
                        init.families = families;
                        init.queue_family_index = family;
                        init.step_past();
                        Ok((init, picked))
                    },
                }
            },
        }
    }

    /// Takes the queue families of the device that an OpenXR runtime chose. The first
    /// that draws is picked, else the start ends.
    pub fn families_listed(self, families: Vec<QueueFamily>) -> (result: Result<
        VulkanInit,
        VulkanInitFailure,
    >)
        requires
            self.wf(),
            self.done < self.steps@.len(),
            self.steps@[self.done as int] is PickQueueFamily,
            families@.len() <= u32::MAX,
        ensures
            match graphics_family(families@, 0) {
                Some(family) => {
                    &&& result matches Ok(init)
                    &&& answered(self, init)
                    &&& init.families@ == families@
                    &&& init.queue_family_index == family
                },
                None => result matches Err(left) && left.releases@ == self.acquired@.reverse()
                    && left.message@ == "No graphics queue family found for OpenXR Vulkan device"@,
            },
    {
        match pick_graphics_queue_family_for_device(families.as_slice()) {
            Err(message) => Err(self.fail(InitFailure::Message(message))),
            Ok(family) => {
                let mut init: VulkanInit = self;
                init.families = families;
                init.queue_family_index = family;
                init.step_past();
                Ok(init)
            },
        }
    }

    /// Takes whether the device draws several views in one pass, and how many. A device
    /// that does not draw two ends the start.
    pub fn multiview_answered(self, multiview: bool, max_view_count: u32) -> (result: Result<
        VulkanInit,
        VulkanInitFailure,
    >)
        requires
            self.wf(),
            self.done < self.steps@.len(),
            self.steps@[self.done as int] is RequireMultiview,
        ensures
            if multiview && max_view_count >= 2 {
                &&& result matches Ok(init)
                &&& answered(self, init)
                &&& init.families@ == self.families@
                &&& init.queue_family_index == self.queue_family_index
                &&& init.multiview
            } else {
                result matches Err(left) && left.releases@ == self.acquired@.reverse()
                    && left.message@ == init_prefix(self.kind)
                    + "the OpenXR Vulkan backend requires multiview support"@
            },
    {
        if !query_multiview_support(multiview, max_view_count) {
            let refusal: String = "".to_owned();
            return Err(self.fail(InitFailure::Message(refusal)));
        }
        let mut init: VulkanInit = self;
        init.multiview = true;
        init.step_past();
        Ok(init)
    }

    fn step_past(&mut self)
        requires
            old(self).steps@ == init_steps(old(self).kind),
            old(self).done < old(self).steps@.len(),
            takes_answer(old(self).steps@[old(self).done as int]),
            init_held(old(self).acquired@) == init_owed(
                old(self).steps@.take(old(self).done as int),
            ),
            (VulkanInit { done: (old(self).done + 1) as usize, ..*old(self) }).facts_wf(),
        ensures
            *final(self) == (VulkanInit { done: (old(self).done + 1) as usize, ..*old(self) }),
            final(self).wf(),
    {
        let count: usize = self.steps.len();
        assert(self.done < count);
        self.done = self.done + 1;
        proof {
            let now = self.steps@.take(self.done as int);
            assert(now.drop_last() =~= self.steps@.take(self.done - 1));
            assert(init_owed(now) == init_owed(now.drop_last()));
        }
    }

    /// Ends the start at a failed step: what is held is given back, the latest
    /// first. An OpenXR runtime that refuses to make the device leaves everything as
    /// it is.
    pub fn fail(self, failure: InitFailure) -> (left: VulkanInitFailure)
        requires
            self.wf(),
            self.done < self.steps@.len(),
        ensures
            left.releases@ == (if self.steps@[self.done as int] is CreateDevice
                && failure is Runtime {
                seq![]
            } else {
                self.acquired@.reverse()
            }),
            left.message@ == init_failure_text(
                self.kind,
                self.steps@[self.done as int],
                failure,
            ),
    {
        let step: InitStep = self.steps[self.done];
        let kept: bool = match failure {
            InitFailure::Runtime(_) => step == InitStep::CreateDevice,
            _ => false,
        };
        let mut releases: Vec<InitAcquired> = Vec::new();
        if !kept {
            let mut i: usize = self.acquired.len();
            while i > 0
                invariant
                    i <= self.acquired@.len(),
                    releases@ == self.acquired@.skip(i as int).reverse(),
                decreases i,
            {
                i = i - 1;
                releases.push(self.acquired[i]);
                assert(releases@ =~= self.acquired@.skip(i as int).reverse());
            }
            assert(self.acquired@.skip(0) =~= self.acquired@);
        } else {
            assert(releases@ =~= seq![]);
        }
        VulkanInitFailure { releases, message: init_failure_message(self.kind, step, failure) }
    }
}

proof fn lemma_presenting_device(devices: Seq<Vec<QueueFamily>>, from: int)
    requires
        0 <= from,
    ensures
        presenting_device(devices, from) matches Some((device, family)) ==> from <= device
            < devices.len() && presenting_family(devices[device]@, 0) == QueueFamilySearch::Found(
            family,
        ),
    decreases devices.len() - from,
{
    if from < devices.len() {
        lemma_presenting_device(devices, from + 1);
    }
}

/// The message of a start that could not make its first swapchain.
pub fn first_swapchain_failed(error: &str) -> (message: String)
    ensures
        message@ == init_prefix(InitKind::Window) + "recreate_swapchain: "@ + error@,
{
    let mut message: String = prefix_text(InitKind::Window).to_owned();
    message.append("recreate_swapchain: ");
    message.append(error);
    message
}

/// A start that fails gives back each thing that it acquired once, and in the
/// opposite order, unless an OpenXR runtime refused to make the device.
pub proof fn law_init_failure_gives_back_all(
    init: VulkanInit,
    failure: InitFailure,
    releases: Seq<InitAcquired>,
)
    requires
        init.wf(),
        init.done < init.steps@.len(),
        !(init.steps@[init.done as int] is CreateDevice && failure is Runtime),
        releases == init.acquired@.reverse(),
    ensures
        init_held(releases) == init_owed(init_steps(init.kind).take(init.done as int)).reverse(),
        releases.len() == init.acquired@.len(),
{
    assert(init_held(releases) =~= init_held(init.acquired@).reverse());
}

/// Both kinds of start end up with the same things.
pub proof fn law_starts_acquire_the_same()
    ensures
        init_owed(init_steps(InitKind::Window)) == init_owed(init_steps(InitKind::OpenXr)),
        init_owed(init_steps(InitKind::Window)) == seq![
            InitResource::Instance,
            InitResource::Window,
            InitResource::Surface,
            InitResource::Device,
            InitResource::CommandPool,
            InitResource::CommandBuffer,
            InitResource::ImageSemaphore,
            InitResource::RenderSemaphore,
            InitResource::Fence,
        ],
{
    let all = seq![
        InitResource::Instance,
        InitResource::Window,
        InitResource::Surface,
        InitResource::Device,
        InitResource::CommandPool,
        InitResource::CommandBuffer,
        InitResource::ImageSemaphore,
        InitResource::RenderSemaphore,
        InitResource::Fence,
    ];
    reveal_with_fuel(init_owed, 16);
    assert(init_owed(init_steps(InitKind::Window)) =~= all);
    assert(init_owed(init_steps(InitKind::OpenXr)) =~= all);
}

/// A start makes the instance before anything that needs it, holds on to the window before
/// it makes a surface for it, and has a device before its pool, its pool before its
/// commands, and all of them at its end; an OpenXR start asks for multiview before it makes
/// its device.
pub proof fn law_start_makes_things_in_order(kind: InitKind)
    ensures
        ({
            let steps = init_steps(kind);
            let n = steps.len() as int;
            &&& steps[0] is LoadEntry
            &&& steps[3] is CreateInstance && steps[4] is AcquireWindow
            &&& kind is Window ==> steps[5] is CreateSurface && steps[6] is PickDevice && n == 13
            &&& kind is OpenXr ==> steps[5] is NoSurface && steps[6] is GetGraphicsDevice
                && steps[7] is PickQueueFamily && steps[8] is RequireMultiview && n == 15
            &&& steps[n - 6] is CreateDevice && steps[n - 5] is CreateCommandPool
            &&& steps[n - 4] is AllocateCommandBuffer
            &&& steps[n - 3] is CreateImageSemaphore && steps[n - 2] is CreateRenderSemaphore
            &&& steps[n - 1] is CreateFence
            &&& kind is Window ==> !steps.contains(InitStep::RequireMultiview)
            &&& kind is OpenXr ==> !steps.contains(InitStep::CreateSurface)
        }),
{
}

/// A step that makes something holds it, as what it is; questions hold nothing.
pub proof fn law_start_holds_what_it_makes(step: InitStep)
    ensures
        step is CreateInstance ==> init_acquires(step) == Some(InitResource::Instance),
        step is AcquireWindow ==> init_acquires(step) == Some(InitResource::Window),
        step is CreateSurface || step is NoSurface ==> init_acquires(step) == Some(
            InitResource::Surface,
        ),
        step is CreateDevice ==> init_acquires(step) == Some(InitResource::Device),
        step is CreateCommandPool ==> init_acquires(step) == Some(InitResource::CommandPool),
        step is AllocateCommandBuffer ==> init_acquires(step) == Some(InitResource::CommandBuffer),
        step is CreateImageSemaphore ==> init_acquires(step) == Some(InitResource::ImageSemaphore),
        step is CreateRenderSemaphore ==> init_acquires(step) == Some(
            InitResource::RenderSemaphore,
        ),
        step is CreateFence ==> init_acquires(step) == Some(InitResource::Fence),
        step is LoadEntry || step is EnumerateLayers || step is EnumerateExtensions
            || step is PickDevice || step is GetGraphicsDevice || step is PickQueueFamily
            || step is RequireMultiview ==> init_acquires(step) is None,
        takes_answer(step) ==> init_acquires(step) is None,
{
}

/// A start that has come past a question has its answer: the family draws, and for an
/// OpenXR session the device draws both eyes in one pass and there is no surface.
pub proof fn law_answers_are_kept(init: VulkanInit)
    requires
        init.wf(),
    ensures
        init.kind is OpenXr ==> init.surface == 0,
        init.kind is OpenXr && init.done >= 9 ==> init.multiview,
        init.kind is OpenXr && init.done >= 8 ==> init.queue_family_index < init.families@.len()
            && has_flags(init.families@[init.queue_family_index as int].flags, 1),
        init.kind is Window && init.done >= 7 ==> init.queue_family_index < init.families@.len()
            && has_flags(init.families@[init.queue_family_index as int].flags, 1)
            && init.families@[init.queue_family_index as int].supports_surface == Ok::<bool, i32>(
            true,
        ),
{
    law_picked_family_draws(init.families@, 0);
    law_presenting_family_is_the_first(init.families@, 0);
}

/// A handle is kept as it came, unless there is no surface; a step that acquires nothing
/// leaves what is held and all that was asked for.
pub proof fn law_answers_keep_what_is_held(
    before: VulkanInit,
    after: VulkanInit,
    step: InitStep,
    handle: u64,
)
    ensures
        !(step is NoSurface) ==> acquired_handle(step, handle) == handle,
        step is NoSurface ==> acquired_handle(step, handle) == 0,
        answered(before, after) ==> after.wf() && after.done == before.done + 1
            && after.acquired@ == before.acquired@ && after.surface == before.surface && after.kind
            == before.kind && after.window == before.window && after.width == before.width
            && after.height == before.height,
{
}

/// A call that fails is named with what was started and with its error.
pub proof fn law_failed_starts_name_their_call(kind: InitKind, step: InitStep, code: i32)
    ensures
        ({
            let text = init_failure_text(kind, step, InitFailure::Code(code));
            let what = if kind is Window {
                "Android Vulkan init failed: "@
            } else {
                "Android Vulkan XR init failed: "@
            };
            let error = vk_result_debug(code);
            &&& step is LoadEntry ==> text == what + "Entry::load: "@ + error
            &&& step is EnumerateLayers ==> text == what + "enumerate layers: "@ + error
            &&& step is EnumerateExtensions ==> text == what + "enumerate extensions: "@ + error
            &&& step is CreateInstance && kind is Window ==> text == what + "create_instance: "@
                + error
            &&& step is CreateInstance && kind is OpenXr ==> text == what
                + "xrCreateVulkanInstanceKHR returned Vulkan error "@ + error
            &&& step is CreateDevice && kind is Window ==> text == what + "create_device: "@ + error
            &&& step is CreateDevice && kind is OpenXr ==> text == what
                + "xrCreateVulkanDeviceKHR returned Vulkan error "@ + error
            &&& step is CreateCommandPool ==> text == what + "create_command_pool: "@ + error
            &&& step is AllocateCommandBuffer ==> text == what + "allocate_command_buffers: "@
                + error
            &&& step is CreateImageSemaphore ==> text == what + "create image semaphore: "@ + error
            &&& step is CreateRenderSemaphore ==> text == what + "create render semaphore: "@
                + error
            &&& step is CreateFence ==> text == what + "create_fence: "@ + error
            &&& step is CreateSurface ==> text == "create_android_surface"@ + " failed: "@ + error
        }),
{
}

/// A failure that comes with a message is told with it, and what the runtime says stays as
/// it is.
pub proof fn law_failed_starts_keep_their_message(kind: InitKind, step: InitStep, message: String)
    ensures
        step is LoadEntry && kind is Window ==> init_failure_text(
            kind,
            step,
            InitFailure::Message(message),
        ) == "Android Vulkan init failed: "@ + "Entry::load: "@ + message@,
        !(step is LoadEntry || step is RequireMultiview) ==> init_failure_text(
            kind,
            step,
            InitFailure::Message(message),
        ) == message@,
        step is GetGraphicsDevice ==> init_failure_text(kind, step, InitFailure::Runtime(message))
            == "OpenXR error in xrGetVulkanGraphicsDevice2KHR: "@ + message@,
        !(step is GetGraphicsDevice) ==> init_failure_text(
            kind,
            step,
            InitFailure::Runtime(message),
        ) == message@,
{
}

/// A step takes an answer exactly where the device decides: on itself, on its queues and on
/// drawing both eyes at once. Such a step acquires nothing.
pub proof fn law_answers_are_taken_where_the_device_decides(step: InitStep)
    ensures
        step is PickDevice ==> takes_answer(step),
        step is PickQueueFamily ==> takes_answer(step),
        step is RequireMultiview ==> takes_answer(step),
        takes_answer(step) ==> init_acquires(step) is None,
        step is CreateInstance || step is CreateDevice || step is CreateSurface || step
            is CreateFence ==> !takes_answer(step),
{
}

} // verus!

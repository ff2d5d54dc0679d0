//! Which instance options, device and queue family are used.

use ash::vk;
use vstd::prelude::*;

use crate::vulkan::codes::QUEUE_GRAPHICS;
use crate::vulkan::failure::call_failed;
#[allow(unused_imports)]
use crate::vulkan::failure::call_failed_text;
#[allow(unused_imports)]
use crate::vulkan::flags::has_flags;
use crate::vulkan::flags::queue_flags_contain;

verus! {

/// An extension of the instance.
#[derive(Clone, Copy, PartialEq, Eq, Structural, Debug)]
pub enum InstanceExtension {
    Surface,
    AndroidSurface,
    DebugUtils,
}

/// An extension of the device.
#[derive(Clone, Copy, PartialEq, Eq, Structural, Debug)]
pub enum DeviceExtension {
    Swapchain,
    AndroidHardwareBuffer,
    FragmentDensityMap,
}

/// One of the names is `wanted`.
pub open spec fn lists_name(names: Seq<String>, wanted: Seq<char>) -> bool {
    exists|i: int| 0 <= i < names.len() && #[trigger] names[i]@ == wanted
}

/// Whether one of the names is `wanted`.
pub fn find_name(names: &Vec<String>, wanted: &String) -> (found: bool)
    ensures
        found == lists_name(names@, wanted@),
{
    let mut i: usize = 0;
    while i < names.len()
        invariant
            i <= names@.len(),
            forall|j: int| 0 <= j < i ==> #[trigger] names@[j]@ != wanted@,
        decreases names@.len() - i,
    {
        if names[i] == *wanted {
            return true;
        }
        i = i + 1;
    }
    false
}

/// The name `vk::EXT_DEBUG_UTILS_NAME` of ash.
#[verifier::external_body]
fn debug_utils_name() -> (name: String)
    ensures
        name@ == "VK_EXT_debug_utils"@,
{
    vk::EXT_DEBUG_UTILS_NAME.to_string_lossy().into_owned()
}

/// What the instance is made with.
pub struct InstanceOptions {
    pub extensions: Vec<InstanceExtension>,
    pub validation_layer: bool,
    pub debug_utils: bool,
}

/// The extensions of the instance: the debug extension joins the two that are
/// needed where it is there.
pub open spec fn instance_extensions(debug_utils: bool) -> Seq<InstanceExtension> {
    if debug_utils {
        seq![
            InstanceExtension::Surface,
            InstanceExtension::AndroidSurface,
            InstanceExtension::DebugUtils,
        ]
    } else {
        seq![InstanceExtension::Surface, InstanceExtension::AndroidSurface]
    }
}

/// Chooses what the instance is made with, from the names of the layers and
/// extensions that there are.
pub fn choose_instance_options(layers: &Vec<String>, extensions: &Vec<String>) -> (options:
    InstanceOptions)
    ensures
        options.validation_layer == lists_name(layers@, "VK_LAYER_KHRONOS_validation"@),
        options.debug_utils == lists_name(extensions@, "VK_EXT_debug_utils"@),
        options.extensions@ == instance_extensions(options.debug_utils),
{
    let layer: String = "VK_LAYER_KHRONOS_validation".to_owned();
    let validation_layer: bool = find_name(layers, &layer);
    let debug_utils: bool = find_name(extensions, &debug_utils_name());
    let mut chosen: Vec<InstanceExtension> = vec![
        InstanceExtension::Surface,
        InstanceExtension::AndroidSurface,
    ];
    if debug_utils {
        chosen.push(InstanceExtension::DebugUtils);
    }
    assert(chosen@ =~= instance_extensions(debug_utils));
    InstanceOptions { extensions: chosen, validation_layer, debug_utils }
}

/// The extensions of the device.
pub open spec fn device_extensions(fragment_density_map: bool) -> Seq<DeviceExtension> {
    if fragment_density_map {
        seq![
            DeviceExtension::Swapchain,
            DeviceExtension::AndroidHardwareBuffer,
            DeviceExtension::FragmentDensityMap,
        ]
    } else {
        seq![DeviceExtension::Swapchain, DeviceExtension::AndroidHardwareBuffer]
    }
}

/// Chooses the extensions of the device.
pub fn choose_device_extensions(fragment_density_map: bool) -> (chosen: Vec<DeviceExtension>)
    ensures
        chosen@ == device_extensions(fragment_density_map),
{
    let mut chosen: Vec<DeviceExtension> = vec![
        DeviceExtension::Swapchain,
        DeviceExtension::AndroidHardwareBuffer,
    ];
    if fragment_density_map {
        chosen.push(DeviceExtension::FragmentDensityMap);
    }
    assert(chosen@ =~= device_extensions(fragment_density_map));
    chosen
}

/// A queue family: its flags, how many bits its timestamps have, and what the
/// question whether it can present to the surface was answered.
#[derive(Clone, Copy, PartialEq, Eq, Debug)]
pub struct QueueFamily {
    pub flags: u32,
    pub timestamp_valid_bits: u32,
    pub supports_surface: Result<bool, i32>,
}

/// What the search for a queue family found.
pub enum QueueFamilySearch {
    Found(u32),
    SupportFailed(i32),
    NotFound,
}

/// The first family from `from` on that draws and presents. A failed question ends
/// the search.
pub open spec fn presenting_family(families: Seq<QueueFamily>, from: int) -> QueueFamilySearch
    decreases families.len() - from,
{
    if from < 0 || from >= families.len() {
        QueueFamilySearch::NotFound
    } else if !has_flags(families[from].flags, QUEUE_GRAPHICS) {
        presenting_family(families, from + 1)
    } else {
        match families[from].supports_surface {
            Err(code) => QueueFamilySearch::SupportFailed(code),
            Ok(true) => QueueFamilySearch::Found(from as u32),
            Ok(false) => presenting_family(families, from + 1),
        }
    }
}

/// Picks the queue family of a device that presents to a surface.
pub fn pick_queue_family_for_device(families: &[QueueFamily]) -> (result: Result<u32, String>)
    requires
        families@.len() <= u32::MAX,
    ensures
        match presenting_family(families@, 0) {
            QueueFamilySearch::Found(index) => result == Ok::<u32, String>(index),
            QueueFamilySearch::SupportFailed(code) => result matches Err(message) && message@
                == call_failed_text("get_physical_device_surface_support"@, code),
            QueueFamilySearch::NotFound => result matches Err(message) && message@
                == "No Vulkan queue family with graphics+present support found"@,
        },
{
    let mut i: usize = 0;
    while i < families.len()
        invariant
            i <= families@.len() <= u32::MAX,
            presenting_family(families@, 0) == presenting_family(families@, i as int),
        decreases families@.len() - i,
    {
        let family: QueueFamily = families[i];
        if queue_flags_contain(family.flags, QUEUE_GRAPHICS) {
            match family.supports_surface {
                Err(code) => {
                    return Err(call_failed("get_physical_device_surface_support", code));
                },
                Ok(supported) => {
                    if supported {
                        return Ok(i as u32);
                    }
                },
            }
        }
        i = i + 1;
    }
    Err("No Vulkan queue family with graphics+present support found".to_owned())
}

/// The first device from `from` on with a queue family that draws and presents.
pub open spec fn presenting_device(devices: Seq<Vec<QueueFamily>>, from: int) -> Option<(int, u32)>
    decreases devices.len() - from,
{
    if from < 0 || from >= devices.len() {
        None
    } else {
        match presenting_family(devices[from]@, 0) {
            QueueFamilySearch::Found(index) => Some((from, index)),
            _ => presenting_device(devices, from + 1),
        }
    }
}

/// Picks the device and its queue family, given the families of each device. A
/// device for which the question failed is passed over.
pub fn pick_device_and_queue_family(devices: Result<Vec<Vec<QueueFamily>>, i32>) -> (result: Result<
    (usize, u32),
    String,
>)
    requires
        devices matches Ok(list) ==> forall|i: int|
            0 <= i < list@.len() ==> (#[trigger] list@[i])@.len() <= u32::MAX,
    ensures
        match devices {
            Err(code) => result matches Err(message) && message@ == call_failed_text(
                "enumerate_physical_devices"@,
                code,
            ),
            Ok(list) => match presenting_device(list@, 0) {
                Some((device, family)) => result matches Ok(pick) && pick.0 == device && pick.1
                    == family && pick.0 < list@.len(),
                None => result matches Err(message) && message@
                    == "No Vulkan physical device with graphics+present support found"@,
            },
        },
{
    match devices {
        Err(code) => Err(call_failed("enumerate_physical_devices", code)),
        Ok(list) => {
            let mut i: usize = 0;
            while i < list.len()
                invariant
                    i <= list@.len(),
                    devices == Ok::<Vec<Vec<QueueFamily>>, i32>(list),
                    presenting_device(list@, 0) == presenting_device(list@, i as int),
                    forall|j: int|
                        0 <= j < list@.len() ==> (#[trigger] list@[j])@.len() <= u32::MAX,
                decreases list@.len() - i,
            {
                match pick_queue_family_for_device(list[i].as_slice()) {
                    Ok(family) => {
                        return Ok((i, family));
                    },
                    Err(_) => {},
                }
                i = i + 1;
            }
            Err("No Vulkan physical device with graphics+present support found".to_owned())
        },
    }
}

/// The first family from `from` on that draws.
pub open spec fn graphics_family(families: Seq<QueueFamily>, from: int) -> Option<u32>
    decreases families.len() - from,
{
    if from < 0 || from >= families.len() {
        None
    } else if has_flags(families[from].flags, QUEUE_GRAPHICS) {
        Some(from as u32)
    } else {
        graphics_family(families, from + 1)
    }
}

/// Picks the queue family of the device that an OpenXR runtime chose.
pub fn pick_graphics_queue_family_for_device(families: &[QueueFamily]) -> (result: Result<
    u32,
    String,
>)
    requires
        families@.len() <= u32::MAX,
    ensures
        match graphics_family(families@, 0) {
            Some(index) => result == Ok::<u32, String>(index),
            None => result matches Err(message) && message@
                == "No graphics queue family found for OpenXR Vulkan device"@,
        },
{
    let mut i: usize = 0;
    while i < families.len()
        invariant
            i <= families@.len() <= u32::MAX,
            graphics_family(families@, 0) == graphics_family(families@, i as int),
        decreases families@.len() - i,
    {
        if queue_flags_contain(families[i].flags, QUEUE_GRAPHICS) {
            return Ok(i as u32);
        }
        i = i + 1;
    }
    Err("No graphics queue family found for OpenXR Vulkan device".to_owned())
}

/// The queue family is there and has timestamps.
pub open spec fn has_timestamps(families: Seq<QueueFamily>, queue_family_index: u32) -> bool {
    queue_family_index < families.len()
        && families[queue_family_index as int].timestamp_valid_bits > 0
}

/// Whether the chosen queue family has timestamps.
pub fn supports_gpu_timestamps(families: &[QueueFamily], queue_family_index: u32) -> (supported:
    bool)
    ensures
        supported == has_timestamps(families@, queue_family_index),
{
    let index: usize = queue_family_index as usize;
    (queue_family_index as u64) < (families.len() as u64) && families[index].timestamp_valid_bits > 0
}

/// A picked family draws, and whoever presents can present.
pub proof fn law_picked_family_draws(families: Seq<QueueFamily>, from: int)
    requires
        0 <= from,
        families.len() <= u32::MAX,
    ensures
        presenting_family(families, from) matches QueueFamilySearch::Found(index) ==> {
            &&& from <= index < families.len()
            &&& has_flags(families[index as int].flags, QUEUE_GRAPHICS)
            &&& families[index as int].supports_surface == Ok::<bool, i32>(true)
        },
        graphics_family(families, from) matches Some(index) ==> {
            &&& from <= index < families.len()
            &&& has_flags(families[index as int].flags, QUEUE_GRAPHICS)
            &&& forall|i: int|
                from <= i < index ==> !has_flags((#[trigger] families[i]).flags, QUEUE_GRAPHICS)
        },
        graphics_family(families, from) is None ==> forall|i: int|
            from <= i < families.len() ==> !has_flags(
                (#[trigger] families[i]).flags,
                QUEUE_GRAPHICS,
            ),
    decreases families.len() - from,
{
    if from < families.len() {
        law_picked_family_draws(families, from + 1);
    }
}

/// The family that is picked to present draws and presents, and no family before it does
/// both; a question that failed for a family that draws ends the search there, and nothing
/// is found exactly where no family does both.
pub proof fn law_presenting_family_is_the_first(families: Seq<QueueFamily>, from: int)
    requires
        0 <= from <= families.len() <= u32::MAX,
    ensures
        match presenting_family(families, from) {
            QueueFamilySearch::Found(found) => {
                &&& from <= found < families.len()
                &&& has_flags(families[found as int].flags, 1)
                &&& families[found as int].supports_surface == Ok::<bool, i32>(true)
                &&& forall|i: int|
                    from <= i < found ==> !(has_flags((#[trigger] families[i]).flags, 1)
                        && families[i].supports_surface != Ok::<bool, i32>(false))
            },
            QueueFamilySearch::SupportFailed(code) => exists|i: int|
                from <= i < families.len() && has_flags((#[trigger] families[i]).flags, 1)
                    && families[i].supports_surface == Err::<bool, i32>(code),
            QueueFamilySearch::NotFound => forall|i: int|
                from <= i < families.len() ==> !(has_flags((#[trigger] families[i]).flags, 1)
                    && families[i].supports_surface == Ok::<bool, i32>(true)),
        },
    decreases families.len() - from,
{
    if from < families.len() {
        law_presenting_family_is_the_first(families, from + 1);
        if has_flags(families[from].flags, 1) && families[from].supports_surface is Err {
            assert(families[from].supports_surface == Err::<bool, i32>(
                families[from].supports_surface->Err_0,
            ));
        }
    }
}

/// The device that is picked draws and presents with the family, and no device before it
/// does; none is picked exactly where none does.
pub proof fn law_presenting_device_is_the_first(devices: Seq<Vec<QueueFamily>>, from: int)
    requires
        0 <= from <= devices.len(),
    ensures
        match presenting_device(devices, from) {
            Some((device, family)) => {
                &&& from <= device < devices.len()
                &&& presenting_family(devices[device]@, 0) == QueueFamilySearch::Found(family)
                &&& forall|i: int|
                    from <= i < device ==> !(presenting_family((#[trigger] devices[i])@, 0)
                        is Found)
            },
            None => forall|i: int|
                from <= i < devices.len() ==> !(presenting_family((#[trigger] devices[i])@, 0)
                    is Found),
        },
    decreases devices.len() - from,
{
    if from < devices.len() {
        law_presenting_device_is_the_first(devices, from + 1);
    }
}

/// The device's work is timed exactly where the family is there and counts time.
pub proof fn law_timestamps_need_bits(families: Seq<QueueFamily>, index: u32)
    ensures
        index >= families.len() ==> !has_timestamps(families, index),
        index < families.len() ==> (has_timestamps(families, index)
            <==> families[index as int].timestamp_valid_bits != 0),
{
}

/// What draws to a window is always asked for; the rest exactly where it is wanted.
pub proof fn law_extensions_are_those_wanted(wanted: bool)
    ensures
        instance_extensions(wanted).contains(InstanceExtension::Surface),
        instance_extensions(wanted).contains(InstanceExtension::AndroidSurface),
        instance_extensions(wanted).contains(InstanceExtension::DebugUtils) <==> wanted,
        device_extensions(wanted).contains(DeviceExtension::Swapchain),
        device_extensions(wanted).contains(DeviceExtension::AndroidHardwareBuffer),
        device_extensions(wanted).contains(DeviceExtension::FragmentDensityMap) <==> wanted,
{
    let a = instance_extensions(wanted);
    let b = device_extensions(wanted);
    assert(a[0] == InstanceExtension::Surface && a[1] == InstanceExtension::AndroidSurface);
    assert(b[0] == DeviceExtension::Swapchain && b[1] == DeviceExtension::AndroidHardwareBuffer);
    if wanted {
        assert(a[2] == InstanceExtension::DebugUtils);
        assert(b[2] == DeviceExtension::FragmentDensityMap);
    }
}

/// Every name of a list is listed, no other is, and a longer list still has it.
pub proof fn law_names_are_listed(names: Seq<String>, name: String, wanted: Seq<char>)
    ensures
        lists_name(names.push(name), name@),
        lists_name(names, wanted) ==> lists_name(names.push(name), wanted),
        lists_name(names.push(name), wanted) && name@ != wanted ==> lists_name(names, wanted),
        !lists_name(Seq::empty(), wanted),
{
    let more = names.push(name);
    assert(more[names.len() as int]@ == name@);
    if lists_name(names, wanted) {
        let i = choose|i: int| 0 <= i < names.len() && #[trigger] names[i]@ == wanted;
        assert(more[i]@ == wanted);
    }
    if lists_name(more, wanted) && name@ != wanted {
        let i = choose|i: int| 0 <= i < more.len() && #[trigger] more[i]@ == wanted;
        assert(names[i]@ == wanted);
    }
}

} // verus!

use makepad_platform::vulkan::codes;
use makepad_platform::vulkan::cx_vulkan::{
    plan_teardown, CxVulkan, DeviceFacts, SurfaceRelease, SurfaceUpdate, SwapchainParts,
    SwapchainRelease, TeardownHandles,
    TeardownStage,
};
use makepad_platform::vulkan::device_pick::{
    choose_device_extensions, choose_instance_options, pick_device_and_queue_family,
    pick_graphics_queue_family_for_device, pick_queue_family_for_device, supports_gpu_timestamps,
    DeviceExtension, InstanceExtension, QueueFamily,
};
use makepad_platform::vulkan::init::{first_swapchain_failed, InitFailure, InitResource, InitStep, VulkanInit};
use makepad_platform::vulkan::offscreen::{
    ensure_pass_color_target, ensure_pass_depth_target, offscreen_failed, takes_initial, ClearMode,
    OffscreenStage, PassColorTarget, PassDepthTarget, TargetAlloc, TargetPlan, TargetState,
    TextureTable,
};
use makepad_platform::vulkan::pass_state::{PassRect, PassState, ONE};
use makepad_platform::vulkan::present::{FrameEvent, FrameOutcome, FrameStage};
use makepad_platform::vulkan::readback::{
    frame_to_rgba, read_swapchain_color_image_rgba, swap_red_and_blue,
};
use makepad_platform::vulkan::render_pass::{
    find_texture_dependency, find_window_dependency,
    main_render_pass_key, RenderPassCache, RenderPassLookup, VulkanRenderPassKey,
};
use makepad_platform::vulkan::swapchain::{
    choose_swapchain, Extent, SurfaceCapabilities, SurfaceFormat, TargetStep,
};
use makepad_platform::vulkan::swapchain_run::{plan_window_attachments, SwapchainRun};
use makepad_platform::vulkan::teardown::{
    destroy_external_ycbcr_samplers, destroy_texture_resources, wait_for_window_frame_fence,
    AllTextures, TextureResource, VulkanExternalYcbcrSampler, YcbcrRelease,
};

fn facts() -> DeviceFacts {
    DeviceFacts {
        min_uniform_buffer_offset_alignment: 64,
        debug_utils: false,
        fragment_density_map: true,
    }
}

fn presents(flags: u32) -> QueueFamily {
    QueueFamily {
        flags,
        timestamp_valid_bits: 0,
        supports_surface: Ok(true),
    }
}

/// Goes on with a start; a step that makes something makes `handle`.
fn step_on(mut init: VulkanInit, handle: u64) -> VulkanInit {
    match init.next() {
        Some(InitStep::PickDevice) => {
            let devices = vec![vec![presents(2)], vec![presents(2), presents(1)]];
            match init.device_picked(Ok(devices)) {
                Ok((next, device)) => {
                    assert_eq!(device, 1);
                    next
                }
                Err(left) => panic!("{}", left.message),
            }
        }
        Some(InitStep::PickQueueFamily) => match init.families_listed(vec![presents(1)]) {
            Ok(next) => next,
            Err(left) => panic!("{}", left.message),
        },
        _ => {
            init.succeed(handle);
            init
        }
    }
}

fn started() -> CxVulkan {
    let mut init = match CxVulkan::new(9, 640, 0) {
        Ok(init) => init,
        Err(message) => panic!("{message}"),
    };
    let mut handle = 35;
    while init.next().is_some() {
        init = step_on(init, handle);
        handle += 1;
    }
    CxVulkan::started(&init, facts())
}

fn capabilities() -> SurfaceCapabilities {
    SurfaceCapabilities {
        min_image_count: 2,
        max_image_count: 3,
        current_extent: Extent {
            width: u32::MAX,
            height: u32::MAX,
        },
        min_image_extent: Extent {
            width: 1,
            height: 1,
        },
        max_image_extent: Extent {
            width: 500,
            height: 500,
        },
        supported_usage: 0x12,
        supported_transforms: 1,
        current_transform: 2,
        supported_composite_alpha: 0x8,
    }
}

fn formats() -> Vec<SurfaceFormat> {
    vec![
        SurfaceFormat {
            format: 37,
            color_space: 0,
        },
        SurfaceFormat {
            format: 44,
            color_space: 0,
        },
    ]
}

fn rect(width: f64, height: f64) -> Option<PassRect> {
    Some(PassRect {
        x: 1.0f64.to_bits(),
        y: 2.0f64.to_bits(),
        width: width.to_bits(),
        height: height.to_bits(),
    })
}

fn dirty_pass() -> PassState {
    PassState {
        paint_dirty: true,
        keep_camera_matrix: false,
        dpi_factor: Some(2.0f64.to_bits()),
        matrix_rect: None,
        scale: 0,
    }
}

fn with_swapchain() -> CxVulkan {
    let mut vulkan = started();
    let mut run = SwapchainRun::recreate_swapchain(&vulkan).expect("there is a surface");
    run.answered(&mut vulkan, Ok(capabilities()), Ok(formats()), Ok(vec![2]))
        .expect("it can be made");
    run.created(&vulkan, Ok(70)).expect("it was made");
    assert_eq!(run.images_listed(&mut vulkan, Ok(2)), Ok(0));
    run.depth_format_picked(&mut vulkan, codes::FORMAT_D32_SFLOAT);
    let mut handle = 200;
    while run.next().is_some() {
        run.step_done(&mut vulkan, handle);
        handle += 1;
    }
    vulkan
}

fn parts() -> SwapchainParts {
    SwapchainParts {
        render_pass: 200,
        xr_render_pass: 201,
        has_readback_buffer: true,
        swapchain: 70,
    }
}

#[test]
fn start_needs_a_window() {
    assert!(matches!(
        CxVulkan::new(0, 1, 1),
        Err(message) if message == "Android Vulkan init failed: null ANativeWindow"
    ));
    assert!(matches!(
        CxVulkan::new_from_openxr(0, 1, 1),
        Err(message) if message == "Android Vulkan XR init failed: null ANativeWindow"
    ));
}

#[test]
fn failed_start_gives_back_all_in_reverse() {
    let mut init = CxVulkan::new(9, 1, 1).ok().expect("there is a window");
    let mut handle = 1;
    while init.next() != Some(InitStep::CreateCommandPool) {
        init = step_on(init, handle);
        handle += 1;
    }
    let held: Vec<u64> = init.acquired.iter().map(|held| held.handle).collect();
    let left = init.fail(InitFailure::Code(-4));
    let given: Vec<u64> = left.releases.iter().map(|held| held.handle).collect();
    assert_eq!(given.len(), held.len());
    assert!(held.iter().all(|handle| given.contains(handle)));
    assert!(left
        .releases
        .iter()
        .any(|held| held.resource == InitResource::Window));
    assert!(left.message.starts_with("Android Vulkan init failed: "));
}

#[test]
fn xr_start_needs_multiview() {
    let mut init = CxVulkan::new_from_openxr(9, 1, 1)
        .ok()
        .expect("there is a window");
    while init.next() != Some(InitStep::RequireMultiview) {
        init = step_on(init, 5);
    }
    let held = init.acquired.len();
    let left = match init.multiview_answered(true, 1) {
        Ok(_) => panic!("one view is not enough"),
        Err(left) => left,
    };
    assert_eq!(
        left.message,
        "Android Vulkan XR init failed: the OpenXR Vulkan backend requires multiview support"
    );
    assert_eq!(left.releases.len(), held);
    assert_eq!(left.releases[0].resource, InitResource::Surface);
    assert_eq!(left.releases[0].handle, 0);
}

#[test]
fn start_needs_a_queue_family() {
    let at = |wanted: InitStep, xr: bool| {
        let begun = if xr {
            CxVulkan::new_from_openxr(9, 1, 1)
        } else {
            CxVulkan::new(9, 1, 1)
        };
        let mut init = begun.ok().expect("there is a window");
        while init.next() != Some(wanted) {
            init = step_on(init, 5);
        }
        init
    };
    let refused = at(InitStep::PickDevice, false).device_picked(Ok(vec![vec![presents(2)]]));
    assert!(matches!(
        refused,
        Err(left) if left.message == "No Vulkan physical device with graphics+present support found"
    ));
    let failed = at(InitStep::PickDevice, false).device_picked(Err(-4));
    assert!(matches!(
        failed,
        Err(left) if left.message == "enumerate_physical_devices failed: ERROR_DEVICE_LOST"
    ));
    let refused = at(InitStep::PickQueueFamily, true).families_listed(vec![presents(2)]);
    assert!(matches!(
        refused,
        Err(left) if left.message == "No graphics queue family found for OpenXR Vulkan device"
    ));
    assert_eq!(
        first_swapchain_failed("no images"),
        "Android Vulkan init failed: recreate_swapchain: no images"
    );
}

#[test]
fn started_backend_has_the_facts() {
    let vulkan = started();
    assert_eq!(vulkan.requested.width, 640);
    assert_eq!(vulkan.requested.height, 1);
    assert!(!vulkan.xr_multiview_enabled);
    assert_eq!(vulkan.queue_family_index, 1);
    assert_eq!(vulkan.surface, 40);
    assert!(!vulkan.has_drawable_surface());
}

#[test]
fn instance_options_follow_the_names() {
    let options = choose_instance_options(
        &vec!["VK_LAYER_KHRONOS_validation".to_string()],
        &vec!["VK_EXT_debug_utils".to_string()],
    );
    assert!(options.validation_layer && options.debug_utils);
    assert_eq!(options.extensions.len(), 3);
    assert_eq!(options.extensions[2], InstanceExtension::DebugUtils);
    let plain = choose_instance_options(&Vec::new(), &vec!["VK_EXT_debug_util".to_string()]);
    assert!(!plain.validation_layer && !plain.debug_utils);
    assert_eq!(
        choose_device_extensions(true)[2],
        DeviceExtension::FragmentDensityMap
    );
    assert_eq!(choose_device_extensions(false).len(), 2);
}

#[test]
fn queue_families_are_picked() {
    let family = |flags, supports_surface| QueueFamily {
        flags,
        timestamp_valid_bits: 0,
        supports_surface,
    };
    assert_eq!(
        pick_queue_family_for_device(&[family(2, Ok(true)), family(3, Ok(false)), family(1, Ok(true))]),
        Ok(2)
    );
    assert!(matches!(
        pick_queue_family_for_device(&[family(1, Err(-4))]),
        Err(message) if message == "get_physical_device_surface_support failed: ERROR_DEVICE_LOST"
    ));
    assert_eq!(
        pick_device_and_queue_family(Ok(vec![
            vec![family(1, Err(-4))],
            vec![family(1, Ok(true))]
        ])),
        Ok((1, 0))
    );
    assert!(pick_device_and_queue_family(Ok(Vec::new())).is_err());
    assert_eq!(
        pick_graphics_queue_family_for_device(&[family(4, Ok(false)), family(5, Ok(false))]),
        Ok(1)
    );
    assert!(!supports_gpu_timestamps(&[family(1, Ok(true))], 0));
    assert!(!supports_gpu_timestamps(&[family(1, Ok(true))], 7));
}

#[test]
fn another_window_replaces_the_surface() {
    let mut vulkan = with_swapchain();
    assert!(vulkan.has_drawable_surface());
    assert_eq!(
        vulkan.update_surface(9, 300, 200),
        Ok(SurfaceUpdate::Keep)
    );
    assert_eq!(vulkan.requested.width, 300);
    assert_eq!(
        vulkan.update_surface(10, 300, 200),
        Ok(SurfaceUpdate::Replace {
            acquire: 10,
            swapchain: parts(),
            surface: 40,
            release: 9
        })
    );
    assert_eq!(vulkan.surface, 0);
    assert!(vulkan.create_surface(Err(-4)).is_err());
    assert!(vulkan.create_surface(Ok(41)).is_ok());
    assert!(vulkan.update_surface(0, 1, 1).is_err());
}

#[test]
fn suspended_surface_is_given_back() {
    let mut vulkan = with_swapchain();
    assert_eq!(
        vulkan.suspend_surface(),
        SurfaceRelease {
            swapchain: parts(),
            surface: 40,
            window: 9
        }
    );
    assert!(!vulkan.has_drawable_surface());
    assert!(matches!(
        vulkan.update_surface(9, 1, 1),
        Ok(SurfaceUpdate::Replace { acquire: 9, .. })
    ));
}

#[test]
fn swapchain_is_chosen_from_what_is_offered() {
    let requested = Extent {
        width: 640,
        height: 480,
    };
    let choice = choose_swapchain(Ok(capabilities()), Ok(formats()), Ok(vec![3]), requested)
        .expect("it can be made");
    assert_eq!(choice.format.format, 44);
    assert_eq!(
        choice.extent,
        Extent {
            width: 500,
            height: 480
        }
    );
    assert_eq!(choice.image_count, 3);
    assert_eq!(choice.present_mode, 3);
    assert_eq!(choice.image_usage, 0x12);
    assert_eq!(choice.pre_transform, 1);
    assert_eq!(choice.composite_alpha, 8);
    let refusals = [
        choose_swapchain(Err(-4), Ok(formats()), Ok(vec![2]), requested),
        choose_swapchain(Ok(capabilities()), Err(-4), Ok(vec![2]), requested),
        choose_swapchain(Ok(capabilities()), Ok(Vec::new()), Ok(vec![2]), requested),
        choose_swapchain(Ok(capabilities()), Ok(formats()), Err(-4), requested),
        choose_swapchain(
            Ok(SurfaceCapabilities {
                supported_usage: 2,
                ..capabilities()
            }),
            Ok(formats()),
            Ok(vec![2]),
            requested,
        ),
    ];
    let texts = [
        "get_surface_capabilities failed: ERROR_DEVICE_LOST",
        "get_surface_formats failed: ERROR_DEVICE_LOST",
        "No Vulkan surface formats available",
        "get_surface_present_modes failed: ERROR_DEVICE_LOST",
        "Vulkan surface does not support COLOR_ATTACHMENT usage",
    ];
    for (refusal, text) in refusals.into_iter().zip(texts) {
        assert_eq!(refusal.err(), Some(text.to_string()));
    }
}

#[test]
fn swapchain_run_makes_all_targets() {
    let vulkan = with_swapchain();
    assert_eq!(vulkan.swapchain, 70);
    assert_eq!(vulkan.swapchain_image_count, 2);
    assert_eq!(vulkan.render_pass, 200);
    assert_eq!(vulkan.xr_render_pass, 201);
    assert!(vulkan.has_readback_buffer);
    let attachments = plan_window_attachments(&vulkan, false);
    assert_eq!(attachments[0].final_layout, codes::LAYOUT_PRESENT);
    assert_eq!(
        plan_window_attachments(&vulkan, true)[0].final_layout,
        codes::LAYOUT_COLOR_ATTACHMENT
    );
}

#[test]
fn swapchain_run_reports_failures() {
    let mut vulkan = started();
    let mut run = SwapchainRun::recreate_swapchain(&vulkan).expect("there is a surface");
    assert!(run
        .answered(&mut vulkan, Err(-4), Ok(formats()), Ok(vec![2]))
        .is_err());
    run.answered(&mut vulkan, Ok(capabilities()), Ok(formats()), Ok(vec![2]))
        .expect("it can be made");
    assert_eq!(
        run.created(&vulkan, Err(-4)).err(),
        Some("create_swapchain failed: ERROR_DEVICE_LOST".to_string())
    );
    run.created(&vulkan, Ok(70)).expect("it was made");
    assert!(run.images_listed(&mut vulkan, Err(-4)).is_err());
    run.images_listed(&mut vulkan, Ok(1)).expect("one image");
    run.depth_format_picked(&mut vulkan, codes::FORMAT_D32_SFLOAT);
    assert_eq!(
        run.step_failed(-4),
        "create_render_pass failed: ERROR_DEVICE_LOST"
    );
    run.step_done(&mut vulkan, 1);
    assert_eq!(
        run.step_failed(-4),
        "create_render_pass(openxr) failed: ERROR_DEVICE_LOST"
    );
    run.step_done(&mut vulkan, 2);
    assert_eq!(run.next(), Some(TargetStep::ImageView { image: 0 }));
    let bare = CxVulkan {
        surface: 0,
        ..started()
    };
    assert!(SwapchainRun::recreate_swapchain(&bare).is_none());
}

#[test]
fn frame_runs_to_its_presentation() {
    let mut vulkan = with_swapchain();
    let mut pass = dirty_pass();
    let size = rect(100.0, 50.0);
    let mut run = vulkan
        .draw_pass_and_present(&mut pass, true, size, 2, 33)
        .expect("there is something to draw");
    for _ in 0..4 {
        assert!(matches!(
            run.advance(&mut vulkan, FrameEvent::Done),
            FrameOutcome::Continue
        ));
    }
    assert_eq!(run.stage, FrameStage::Acquire);
    run.advance(
        &mut vulkan,
        FrameEvent::Acquired {
            image_index: 1,
            suboptimal: false,
        },
    );
    run.advance(&mut vulkan, FrameEvent::Capture(true));
    while run.stage != FrameStage::Present {
        assert!(matches!(
            run.advance(&mut vulkan, FrameEvent::Done),
            FrameOutcome::Continue
        ));
    }
    assert_eq!(vulkan.serials.submitted, 1);
    assert_eq!(vulkan.serials.completed, 1);
    assert!(matches!(
        run.advance(&mut vulkan, FrameEvent::Presented { suboptimal: false }),
        FrameOutcome::Finished(true)
    ));
}

#[test]
fn lost_surface_and_stale_swapchain() {
    let mut pass = dirty_pass();
    let size = rect(100.0, 50.0);
    let mut vulkan = with_swapchain();
    let mut run = vulkan
        .draw_pass_and_present(&mut pass, true, size, 2, 33)
        .expect("there is something to draw");
    while run.stage != FrameStage::Acquire {
        run.advance(&mut vulkan, FrameEvent::Done);
    }
    let mut again = vulkan
        .draw_pass_and_present(&mut pass, true, size, 2, 33)
        .expect("there is something to draw");
    while again.stage != FrameStage::Acquire {
        again.advance(&mut vulkan, FrameEvent::Done);
    }
    assert!(matches!(
        again.advance(
            &mut vulkan,
            FrameEvent::Failed(codes::RESULT_OUT_OF_DATE)
        ),
        FrameOutcome::Continue
    ));
    assert_eq!(again.stage, FrameStage::RecreateSwapchain { drawn: false });
    assert!(matches!(
        again.advance(&mut vulkan, FrameEvent::Done),
        FrameOutcome::Finished(false)
    ));
    assert!(matches!(
        run.advance(
            &mut vulkan,
            FrameEvent::Failed(codes::RESULT_SURFACE_LOST)
        ),
        FrameOutcome::SurfaceLost(release) if release.window == 9
    ));
    assert!(vulkan.draw_pass_and_present(&mut pass, true, size, 2, 33).is_none());
}

#[test]
fn frames_fail_with_their_messages() {
    let mut pass = dirty_pass();
    let size = rect(100.0, 50.0);
    let mut vulkan = CxVulkan {
        has_readback_buffer: false,
        ..with_swapchain()
    };
    assert!(vulkan.draw_pass_and_present(&mut pass, false, size, 2, 33).is_none());
    assert!(vulkan
        .draw_pass_and_present(&mut pass, true, rect(0.4, 9.0), 2, 33)
        .is_none());
    let mut run = vulkan
        .draw_pass_and_present(&mut pass, true, size, 2, 33)
        .expect("there is something to draw");
    while run.stage != FrameStage::Acquire {
        run.advance(&mut vulkan, FrameEvent::Done);
    }
    let mut other = vulkan
        .draw_pass_and_present(&mut pass, true, size, 2, 33)
        .expect("there is something to draw");
    while other.stage != FrameStage::Acquire {
        other.advance(&mut vulkan, FrameEvent::Done);
    }
    assert!(matches!(
        run.advance(&mut vulkan, FrameEvent::Acquired { image_index: 7, suboptimal: false }),
        FrameOutcome::Failed(message) if message == "invalid swapchain image index 7"
    ));
    other.advance(
        &mut vulkan,
        FrameEvent::Acquired {
            image_index: 0,
            suboptimal: false,
        },
    );
    assert!(matches!(
        other.advance(&mut vulkan, FrameEvent::Capture(true)),
        FrameOutcome::Failed(message)
            if message == "swapchain capture requested but readback buffer is unavailable"
    ));
}

#[test]
fn pixels_are_turned_into_rgba() {
    assert_eq!(
        swap_red_and_blue(vec![1, 2, 3, 4, 5]),
        vec![3, 2, 1, 4, 5]
    );
    assert_eq!(
        swap_red_and_blue(swap_red_and_blue(vec![9, 8, 7, 6])),
        vec![9, 8, 7, 6]
    );
    assert_eq!(frame_to_rgba(vec![1, 2, 3, 4], 44), Ok(vec![3, 2, 1, 4]));
    assert_eq!(frame_to_rgba(vec![1, 2, 3, 4], 43), Ok(vec![1, 2, 3, 4]));
    assert_eq!(
        frame_to_rgba(vec![1], 126).err(),
        Some("swapchain color readback does not support format D32_SFLOAT".to_string())
    );
    let extent = Extent {
        width: 3,
        height: 2,
    };
    assert_eq!(read_swapchain_color_image_rgba(0, 1, true, extent), Ok(24));
    assert!(read_swapchain_color_image_rgba(1, 1, true, extent).is_err());
    assert!(read_swapchain_color_image_rgba(0, 1, false, extent).is_err());
    let flat = Extent {
        width: 0,
        height: 2,
    };
    assert!(read_swapchain_color_image_rgba(0, 1, true, flat).is_err());
}

#[test]
fn render_passes_are_kept_by_their_formats() {
    let vulkan = with_swapchain();
    let mut cache = RenderPassCache::new();
    let main = main_render_pass_key(&vulkan);
    assert!(matches!(
        cache.get_or_create_pipeline_render_pass(&vulkan, &main),
        RenderPassLookup::Ready(200)
    ));
    let key = VulkanRenderPassKey::new(&[37], None);
    match cache.get_or_create_pipeline_render_pass(&vulkan, &key) {
        RenderPassLookup::Create(attachments) => assert_eq!(attachments.len(), 1),
        _ => panic!("it was not made yet"),
    }
    cache.insert(key, 300);
    let key = VulkanRenderPassKey::new(&[37], None);
    assert!(matches!(
        cache.get_or_create_pipeline_render_pass(&vulkan, &key),
        RenderPassLookup::Ready(300)
    ));
    let bare = CxVulkan {
        render_pass: 0,
        xr_render_pass: 0,
        ..vulkan
    };
    assert!(matches!(
        cache.get_or_create_pipeline_render_pass(&bare, &main),
        RenderPassLookup::Failed(message) if message == "main/XR Vulkan render pass is not ready"
    ));
}

#[test]
fn targets_of_a_pass_are_kept_or_made() {
    let alloc = TargetAlloc {
        width: 8,
        height: 0,
        is_cube: false,
        format: Some(37),
    };
    let plan = ensure_pass_color_target(None, false, Some(alloc), 5);
    assert_eq!(
        plan,
        Ok(TargetPlan::Create {
            width: 8,
            height: 1,
            format: 37,
            is_cube: false,
            retire: false
        })
    );
    let state = TargetState {
        width: 8,
        height: 1,
        layers: 1,
        is_cube: false,
        format: 37,
        layout: 0,
        view: 50,
        face_views: [0; 6],
    };
    assert_eq!(
        ensure_pass_color_target(Some(state), false, Some(alloc), 5),
        Ok(TargetPlan::Keep)
    );
    assert!(matches!(
        ensure_pass_color_target(Some(state), true, Some(alloc), 5),
        Ok(TargetPlan::Create { retire: true, .. })
    ));
    assert!(ensure_pass_color_target(None, false, None, 5).is_err());
    assert!(ensure_pass_depth_target(None, false, Some(alloc), false, 5).is_err());
}

#[test]
fn pass_leaves_its_colors_readable() {
    let state = TargetState {
        width: 8,
        height: 8,
        layers: 1,
        is_cube: false,
        format: 37,
        layout: 0,
        view: 50,
        face_views: [0; 6],
    };
    let mut table = TextureTable::new();
    table.insert(5, state);
    table.insert(
        6,
        TargetState {
            format: 126,
            view: 60,
            ..state
        },
    );
    let targets = vec![PassColorTarget {
        texture_key: 5,
        cube_face: None,
        mode: ClearMode::ClearWith,
        initial: true,
        label: "color".to_string(),
    }];
    let depth = Some(PassDepthTarget {
        texture_key: 6,
        mode: ClearMode::InitWith,
        initial: true,
        label: "depth".to_string(),
    });
    let attachments = match table.collect_attachments(&targets, &depth, false) {
        Ok(attachments) => attachments,
        Err(message) => panic!("{message}"),
    };
    assert_eq!(attachments.framebuffer_views(), vec![50, 60]);
    assert_eq!(attachments.describe().len(), 2);
    let key = attachments.render_pass_key();
    assert_eq!(key.color_vk_formats(), &vec![37]);
    assert_eq!(key.depth_vk_format(), Some(126));
    table.finish_pass(&attachments);
    assert_eq!(
        table.get(5).map(|state| state.layout),
        Some(codes::LAYOUT_SHADER_READ_ONLY)
    );
    let missing = vec![PassColorTarget {
        texture_key: 99,
        cube_face: None,
        mode: ClearMode::ClearWith,
        initial: true,
        label: "color".to_string(),
    }];
    assert!(table.collect_attachments(&missing, &None, false).is_err());
    assert!(takes_initial(ClearMode::InitWith, false));
}

#[test]
fn pass_to_textures_runs_through_its_stages() {
    let vulkan = with_swapchain();
    let mut pass = dirty_pass();
    let size = rect(8.0, 8.0);
    assert!(vulkan.draw_pass_to_texture(&mut pass, true, size, 0, true).is_none());
    let mut run = vulkan
        .draw_pass_to_texture(&mut pass, true, size, 2, true)
        .expect("there is something to draw to");
    run.advance();
    assert_eq!(run.stage, OffscreenStage::EnsureColorTarget { index: 1 });
    run.advance();
    assert_eq!(run.stage, OffscreenStage::EnsureDepthTarget);
    let mut stages = 0;
    while run.stage != OffscreenStage::Ended {
        run.advance();
        stages += 1;
    }
    assert_eq!(stages, 17);
    assert_eq!(
        offscreen_failed(OffscreenStage::Submit, -4),
        "queue_submit(offscreen) failed: ERROR_DEVICE_LOST"
    );
}

#[test]
fn teardown_skips_what_is_not_there() {
    let handles = TeardownHandles {
        fence: 0,
        render_semaphore: 1,
        image_semaphore: 1,
        command_pool: 1,
        surface: 0,
        debug_messenger: 0,
        window: 9,
    };
    let stages = plan_teardown(handles);
    assert_eq!(stages.first(), Some(&TeardownStage::WaitIdle));
    assert_eq!(stages.last(), Some(&TeardownStage::Window));
    assert!(!stages.contains(&TeardownStage::Fence));
    assert!(stages.contains(&TeardownStage::Device));
    let place = |stage| stages.iter().position(|other| *other == stage);
    assert!(place(TeardownStage::ForceProbes) < place(TeardownStage::SkinningProbes));
    assert!(place(TeardownStage::SkinningProbes) < place(TeardownStage::SkinningMeshProbes));
    assert!(place(TeardownStage::FieldForceProgram) < place(TeardownStage::FieldSampleProbes));
    assert!(place(TeardownStage::FieldSampleProgram) < place(TeardownStage::MeshSdfProbes));
    assert!(place(TeardownStage::MeshSdfProgram) < place(TeardownStage::VolumeProbes));
    assert!(place(TeardownStage::VolumeRaymarchPreview) < place(TeardownStage::Geometries));
    assert_eq!(stages.len(), 28);
}

#[test]
fn swapchain_goes_back_in_order() {
    let mut vulkan = with_swapchain();
    assert_eq!(
        vulkan.destroy_swapchain().plan_release(),
        [
            SwapchainRelease::FrameResources,
            SwapchainRelease::Pipelines,
            SwapchainRelease::Framebuffers,
            SwapchainRelease::DepthTargets,
            SwapchainRelease::ImageViews,
            SwapchainRelease::RenderPass(200),
            SwapchainRelease::RenderPass(201),
            SwapchainRelease::ReadbackBuffer,
            SwapchainRelease::Swapchain(70),
            SwapchainRelease::Images,
        ]
    );
    assert_eq!(
        vulkan.destroy_swapchain().plan_release(),
        [
            SwapchainRelease::FrameResources,
            SwapchainRelease::Pipelines,
            SwapchainRelease::Framebuffers,
            SwapchainRelease::DepthTargets,
            SwapchainRelease::ImageViews,
            SwapchainRelease::Images,
        ]
    );
}

#[test]
fn targets_and_pipelines_go_before_a_renewal() {
    let mut vulkan = with_swapchain();
    let mut run = SwapchainRun::recreate_swapchain(&vulkan).expect("there is a surface");
    let parts = run
        .answered(&mut vulkan, Ok(capabilities()), Ok(formats()), Ok(vec![2]))
        .expect("it can be made");
    assert_eq!(parts.swapchain, 70);
    let releases = parts.plan_renewal();
    assert_eq!(releases.first(), Some(&SwapchainRelease::Framebuffers));
    assert_eq!(releases.last(), Some(&SwapchainRelease::Pipelines));
    assert!(!releases.contains(&SwapchainRelease::Swapchain(70)));
    assert_eq!(vulkan.render_pass, 0);
    vulkan.depth_format_picked(codes::FORMAT_D32_SFLOAT);
    assert_eq!(vulkan.depth_format, codes::FORMAT_D32_SFLOAT);
}

#[test]
fn textures_go_back_views_first() {
    let texture = |id, owns_image| TextureResource { id, owns_image };
    let order = destroy_texture_resources(AllTextures {
        retired: vec![texture(1, true)],
        cached: vec![texture(2, true)],
        textures: vec![texture(3, true), texture(4, false), texture(5, true)],
        xr_depth_dummy: None,
        xr_depth_dummy_multiview: Some(texture(6, true)),
    });
    let ids: Vec<u64> = order.iter().map(|texture| texture.id).collect();
    assert_eq!(ids, vec![1, 2, 4, 3, 5, 6]);
    assert_eq!(
        destroy_external_ycbcr_samplers(vec![VulkanExternalYcbcrSampler {
            sampler: 7,
            conversion: 8
        }]),
        vec![YcbcrRelease::Sampler(7), YcbcrRelease::Conversion(8)]
    );
}

#[test]
fn window_fence_is_waited_for_if_there_is_one() {
    assert_eq!(wait_for_window_frame_fence(0, Err(-4), "drain"), Ok(()));
    assert_eq!(wait_for_window_frame_fence(1, Ok(()), "drain"), Ok(()));
    assert_eq!(
        wait_for_window_frame_fence(1, Err(-4), "drain"),
        Err("wait_for_fences(drain) failed: ERROR_DEVICE_LOST".to_string())
    );
}

#[test]
fn pass_is_painted_where_it_is_drawn() {
    let vulkan = with_swapchain();
    let mut pass = dirty_pass();
    assert!(vulkan
        .draw_pass_and_present(&mut pass, true, rect(0.4, 9.0), 2, 33)
        .is_none());
    assert!(vulkan
        .draw_pass_to_texture(&mut pass, false, rect(9.0, 9.0), 1, false)
        .is_none());
    assert!(vulkan
        .draw_pass_to_texture(&mut pass, true, None, 1, false)
        .is_none());
    assert_eq!(pass, dirty_pass());
    let lost = CxVulkan {
        surface: 0,
        ..with_swapchain()
    };
    assert!(lost
        .draw_pass_and_present(&mut pass, true, rect(9.0, 9.0), 2, 33)
        .is_none());
    assert_eq!(pass, dirty_pass());

    assert!(vulkan
        .draw_pass_and_present(&mut pass, true, rect(9.0, 8.0), 2, 33)
        .is_some());
    assert_eq!(
        pass,
        PassState {
            paint_dirty: false,
            matrix_rect: rect(9.0, 8.0),
            scale: 2.0f64.to_bits(),
            ..dirty_pass()
        }
    );
    let mut kept = PassState {
        keep_camera_matrix: true,
        dpi_factor: None,
        ..dirty_pass()
    };
    assert!(vulkan
        .draw_pass_to_texture(&mut kept, true, rect(9.0, 8.0), 0, false)
        .is_none());
    assert!(!kept.paint_dirty);
    assert_eq!(kept.matrix_rect, None);
    assert_eq!(kept.scale, ONE);
    assert_eq!(ONE, 1.0f64.to_bits());
}

#[test]
fn own_extent_needs_no_bounds() {
    let offered = SurfaceCapabilities {
        current_extent: Extent {
            width: 30,
            height: 20,
        },
        min_image_extent: Extent {
            width: 9,
            height: 9,
        },
        max_image_extent: Extent {
            width: 1,
            height: 1,
        },
        ..capabilities()
    };
    let requested = Extent {
        width: 5,
        height: 5,
    };
    let choice = choose_swapchain(Ok(offered), Ok(formats()), Ok(vec![2]), requested)
        .ok()
        .expect("it can be chosen");
    assert_eq!(
        choice.extent,
        Extent {
            width: 30,
            height: 20
        }
    );
}

#[test]
fn replaced_target_is_taken_out() {
    let mut table = TextureTable::new();
    let state = TargetState {
        width: 4,
        height: 4,
        layers: 1,
        is_cube: false,
        format: 37,
        layout: 0,
        view: 8,
        face_views: [0; 6],
    };
    table.insert(5, state);
    assert!(matches!(table.take(5), Some(taken) if taken.view == 8));
    assert!(table.get(5).is_none());
    assert!(table.take(5).is_none());
}

#[test]
fn passes_wait_for_what_came_before() {
    let window = find_window_dependency();
    assert_eq!((window.before, window.after), (0x500, 0x500));
    assert_eq!((window.access_before, window.access_after), (0, 0x500));
    let texture = find_texture_dependency();
    assert_eq!((texture.before, texture.after), (0x580, 0x500));
    assert_eq!((texture.access_before, texture.access_after), (0x520, 0x780));
}

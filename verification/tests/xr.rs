use makepad_platform::vulkan::device_pick::QueueFamily;
use makepad_platform::vulkan::init::{InitStep, VulkanInit};
use makepad_platform::vulkan::buffers::VulkanBuffer;
use makepad_platform::vulkan::cx_vulkan::{CxVulkan, DeviceFacts};
use makepad_platform::vulkan::draw_list::DrawPlan;
use makepad_platform::vulkan::frame_resources::FrameResources;
use makepad_platform::vulkan::serials::SubmitSerials;
use makepad_platform::vulkan::xr_frames::{
    create_xr_timestamp_query_pool, recycle_failed, swap_frame, xr_in_flight_frame_is_ready,
    CurrentFrame, FrameChoice, FrameRelease, RecycleStage, XrFrames, XrFramesBuild,
};
use makepad_platform::vulkan::xr_session::{
    create_openxr_depth_array_view, create_openxr_depth_view, destroy_openxr_session_data,
    openxr_color_to_rgba, query_fragment_density_map_support, query_multiview_support,
    read_openxr_color_image_rgba, read_openxr_depth_image, session_uses_density_map,
    CxVulkanOpenXrDepthImage, CxVulkanOpenXrSessionData, CxVulkanOpenXrSwapchainImage,
    CxVulkanOpenXrMultiviewTarget, DensityQuery, MultiviewTargetBuild, ReadbackStage,
    SessionBuild, SessionFailure, SessionRelease, SessionSize, SessionStep, TargetStage,
    XrDepthTarget,
};
use makepad_platform::vulkan::xr_view::{draw_openxr_view, repaint_counts, FrameCounters, ViewStage};

fn buffer(id: u64) -> VulkanBuffer {
    VulkanBuffer {
        buffer: id,
        memory: id + 1,
        size: 64,
    }
}

fn frames(count: usize) -> XrFrames {
    let command_buffers: Vec<u64> = (0..count as u64).map(|i| 10 + i).collect();
    let mut build = match XrFramesBuild::create_xr_in_flight_frames(Ok(command_buffers)) {
        Ok(build) => build,
        Err(message) => panic!("{message}"),
    };
    for i in 0..count as u64 {
        build.fence_created(100 + i, if i == 0 { 0 } else { 200 + i });
    }
    let mut frames = XrFrames::new();
    frames.append_xr_in_flight_frames(build);
    frames
}

fn xr_start() -> VulkanInit {
    let mut init = CxVulkan::new_from_openxr(9, 640, 480)
        .ok()
        .expect("there is a window");
    while let Some(step) = init.next() {
        init = match step {
            InitStep::PickQueueFamily => init
                .families_listed(vec![family(4), family(1), family(1)])
                .ok()
                .expect("a family draws"),
            InitStep::RequireMultiview => init
                .multiview_answered(true, 2)
                .ok()
                .expect("both eyes are drawn"),
            _ => {
                init.succeed(3);
                init
            }
        };
    }
    init
}

fn family(flags: u32) -> QueueFamily {
    QueueFamily {
        flags,
        timestamp_valid_bits: 64,
        supports_surface: Ok(false),
    }
}

fn xr_vulkan() -> CxVulkan {
    CxVulkan::started(
        &xr_start(),
        DeviceFacts {
            min_uniform_buffer_offset_alignment: 1,
            debug_utils: false,
            fragment_density_map: true,
        },
    )
}

fn depth_target() -> XrDepthTarget {
    XrDepthTarget {
        image: 1,
        memory: 2,
        view: 3,
    }
}

fn session() -> CxVulkanOpenXrSessionData {
    let size = SessionSize {
        width: 4,
        height: 2,
        depth_width: 3,
        depth_height: 3,
    };
    let mut session = CxVulkanOpenXrSessionData::create_openxr_session_data(
        size,
        44,
        Some(buffer(70)),
        Some(buffer(80)),
    );
    let mut build = MultiviewTargetBuild::create_openxr_multiview_target(true);
    build.color_view_created(5);
    build.depth_target_created(depth_target());
    build.density_view_created(6);
    assert_eq!(build.framebuffer_attachments(), vec![5, 3, 6]);
    build.framebuffer_created(7);
    session.color_images.push(CxVulkanOpenXrSwapchainImage {
        image: 50,
        target: build.target,
    });
    session.depth_images.push(CxVulkanOpenXrDepthImage {
        image: 60,
        left_view: 61,
        right_view: 62,
        multiview_view: 63,
    });
    session
}

#[test]
fn frames_are_asked_in_turn() {
    let mut frames = frames(3);
    frames.index = 2;
    assert!(matches!(
        frames.select_frame(&vec![]),
        FrameChoice::Ask(2)
    ));
    assert!(matches!(
        frames.select_frame(&vec![false]),
        FrameChoice::Ask(0)
    ));
    assert!(matches!(
        frames.select_frame(&vec![false, true]),
        FrameChoice::Use(0)
    ));
    assert!(matches!(
        frames.select_frame(&vec![false, false, false]),
        FrameChoice::Append
    ));
    assert!(matches!(
        XrFrames::new().select_frame(&vec![]),
        FrameChoice::Own
    ));
}

#[test]
fn no_more_frames_than_the_limit() {
    let mut frames = frames(8);
    frames.index = 5;
    assert!(matches!(
        frames.select_frame(&vec![false; 8]),
        FrameChoice::Use(5)
    ));
}

#[test]
fn fences_tell_whether_a_frame_is_done() {
    assert_eq!(xr_in_flight_frame_is_ready(0, Err(-4)), Ok(true));
    assert_eq!(xr_in_flight_frame_is_ready(1, Ok(false)), Ok(false));
    assert_eq!(xr_in_flight_frame_is_ready(1, Err(1)), Ok(false));
    assert_eq!(
        xr_in_flight_frame_is_ready(1, Err(-4)),
        Err("get_fence_status(openxr inflight) failed: ERROR_DEVICE_LOST".to_string())
    );
    assert_eq!(create_xr_timestamp_query_pool(false, Ok(4)), 0);
    assert_eq!(create_xr_timestamp_query_pool(true, Err(-4)), 0);
    assert_eq!(create_xr_timestamp_query_pool(true, Ok(4)), 4);
}

#[test]
fn failed_fence_gives_back_frames_and_commands() {
    let mut build = match XrFramesBuild::create_xr_in_flight_frames(Ok(vec![10, 11, 12])) {
        Ok(build) => build,
        Err(message) => panic!("{message}"),
    };
    build.fence_created(100, 200);
    build.fence_created(101, 0);
    let failure = build.fence_failed(-1);
    assert_eq!(
        failure.releases,
        vec![
            FrameRelease::QueryPool(200),
            FrameRelease::Fence(100),
            FrameRelease::Fence(101)
        ]
    );
    assert_eq!(failure.command_buffers, vec![10, 11, 12]);
    assert_eq!(
        failure.message,
        "create_fence(openxr inflight) failed: ERROR_OUT_OF_HOST_MEMORY"
    );
    assert!(XrFramesBuild::create_xr_in_flight_frames(Err(-1)).is_err());
}

#[test]
fn frame_is_recycled() {
    let mut frames = frames(2);
    let mut serials = SubmitSerials {
        submitted: 0,
        completed: 0,
    };
    frames.frame_recorded(1, true, &mut serials);
    assert_eq!(serials.submitted, 1);
    assert_eq!(frames.index, 0);
    assert_eq!(frames.wait_for_openxr_idle(0), Some(0));
    let frame = &mut frames.frames[1];
    assert!(frame.pending_timestamp_query);
    frame.fence_waited(&mut serials);
    assert_eq!(serials.completed, 1);
    assert_eq!(
        frame.next_stage(RecycleStage::CollectRetired),
        RecycleStage::ReadTimestamps
    );
    assert_eq!(frame.timestamps_read(Ok((5, 12))), Some(7));
    assert_eq!(frame.timestamps_read(Ok((12, 5))), None);
    assert_eq!(
        frame.next_stage(RecycleStage::CollectRetired),
        RecycleStage::ReplaceQueryPool
    );
    assert_eq!(frame.query_pool_replaced(0), 201);
    assert_eq!(
        frame.next_stage(RecycleStage::CollectRetired),
        RecycleStage::ResetPools
    );
    assert!(frame.pools_reset().is_empty());
    assert_eq!(
        recycle_failed(RecycleStage::ResetFence, -4),
        "reset_fences(openxr inflight) failed: ERROR_DEVICE_LOST"
    );
}

#[test]
fn frames_go_back_with_their_objects() {
    let mut frames = frames(2);
    frames.frames[0].frame_resources.descriptor_pools.push(7);
    frames.frames[1].frame_resources.buffers.push(buffer(8));
    let mut listed = frames.frames[0].list_releases();
    listed.append(&mut frames.frames[1].list_releases());
    let releases = frames.destroy_xr_in_flight_frames();
    assert_eq!(releases, listed);
    assert_eq!(
        releases,
        vec![
            FrameRelease::DescriptorPool(7),
            FrameRelease::Fence(100),
            FrameRelease::Buffer(buffer(8)),
            FrameRelease::QueryPool(201),
            FrameRelease::Fence(101)
        ]
    );
    assert!(frames.frames.is_empty());
    assert_eq!(frames.wait_for_openxr_idle(0), None);
}

#[test]
fn swapping_twice_changes_nothing() {
    let mut frames = frames(1);
    let mut current = CurrentFrame {
        frame_resources: FrameResources::new(),
        command_buffer: 1,
        in_flight_fence: 2,
    };
    swap_frame(&mut current, &mut frames.frames[0]);
    assert_eq!(current.command_buffer, 10);
    assert_eq!(frames.frames[0].fence, 2);
    swap_frame(&mut current, &mut frames.frames[0]);
    assert_eq!(current.command_buffer, 1);
    assert_eq!(frames.frames[0].fence, 100);
}

#[test]
fn support_is_asked_step_by_step() {
    assert!(query_multiview_support(true, 2));
    assert!(!query_multiview_support(true, 1));
    assert!(!query_multiview_support(false, 6));
    let names = vec!["VK_EXT_fragment_density_map".to_string()];
    let other = vec!["VK_EXT_fragment_density_map2".to_string()];
    assert_eq!(
        query_fragment_density_map_support(None, None, None),
        DensityQuery::Answer(false)
    );
    assert_eq!(
        query_fragment_density_map_support(Some(&other), None, None),
        DensityQuery::Answer(false)
    );
    assert_eq!(
        query_fragment_density_map_support(Some(&names), None, None),
        DensityQuery::AskFeature
    );
    assert_eq!(
        query_fragment_density_map_support(Some(&names), Some(true), None),
        DensityQuery::AskFormat
    );
    assert_eq!(
        query_fragment_density_map_support(Some(&names), Some(true), Some(0x100_0001)),
        DensityQuery::Answer(true)
    );
    assert_eq!(
        query_fragment_density_map_support(Some(&names), Some(true), Some(1)),
        DensityQuery::Answer(false)
    );
}

#[test]
fn xr_pass_is_made_for_its_format() {
    let mut vulkan = xr_vulkan();
    assert!(vulkan.needs_depth_format());
    assert!(vulkan.supports_openxr_fixed_foveation());
    vulkan.depth_format = 126;
    let plan = vulkan
        .ensure_xr_render_pass_for_format(44, true)
        .expect("there is no pass yet");
    assert_eq!(plan.replaced, 0);
    assert_eq!(plan.attachments.len(), 3);
    assert_eq!(plan.stages, 0x80_0500);
    assert_eq!(plan.access, 0x100_0500);
    assert!(plan.multiview && plan.density_map);
    assert!(vulkan.xr_render_pass_created(Err(-4)).is_err());
    assert!(vulkan.xr_render_pass_created(Ok(8)).is_ok());
    assert!(vulkan.ensure_xr_render_pass_for_format(44, true).is_none());
    let plan = vulkan
        .ensure_xr_render_pass_for_format(44, false)
        .expect("the pass does not fit");
    assert_eq!(plan.replaced, 8);
    assert_eq!(plan.attachments.len(), 2);
    assert_eq!(plan.stages, 0x500);
}

#[test]
fn failed_target_gives_back_its_parts() {
    let mut build = MultiviewTargetBuild::create_openxr_multiview_target(true);
    assert!(build.failed(-1).releases.is_empty());
    build.color_view_created(5);
    let failure = build.depth_target_failed("no memory");
    assert_eq!(failure.releases, vec![SessionRelease::View(5)]);
    assert_eq!(
        failure.message,
        "create_depth_target(openxr multiview) failed: no memory"
    );
    build.depth_target_created(depth_target());
    assert_eq!(build.stage, TargetStage::DensityView);
    assert_eq!(
        build.failed(-1).message,
        "create_image_view(openxr fragment density map) failed: ERROR_OUT_OF_HOST_MEMORY"
    );
    build.density_view_created(6);
    assert_eq!(
        build.failed(-1).releases,
        vec![
            SessionRelease::View(6),
            SessionRelease::View(5),
            SessionRelease::DepthTarget(depth_target())
        ]
    );
}

#[test]
fn depth_views_come_together_or_not_at_all() {
    assert!(matches!(
        create_openxr_depth_view(Ok(1), Ok(2)),
        Ok((1, 2))
    ));
    match create_openxr_depth_view(Err(-1), Err(-4)) {
        Ok(_) => panic!("both failed"),
        Err(failure) => assert_eq!(
            failure.message,
            "create_image_view(openxr depth eye 0) failed: ERROR_OUT_OF_HOST_MEMORY; \
             create_image_view(openxr depth eye 1) failed: ERROR_DEVICE_LOST"
        ),
    }
    match create_openxr_depth_view(Ok(1), Err(-4)) {
        Ok(_) => panic!("one failed"),
        Err(failure) => assert_eq!(failure.releases, vec![SessionRelease::View(1)]),
    }
    match create_openxr_depth_array_view(60, (1, 2), Err(-4)) {
        Ok(_) => panic!("it failed"),
        Err(failure) => assert_eq!(
            failure.releases,
            vec![SessionRelease::View(1), SessionRelease::View(2)]
        ),
    }
    assert!(create_openxr_depth_array_view(60, (1, 2), Ok(3)).is_ok());
}

#[test]
fn session_sizes_and_readback() {
    let size = SessionSize {
        width: 4,
        height: 2,
        depth_width: 0,
        depth_height: 3,
    };
    let sizes = size.readback_sizes();
    assert_eq!(sizes.depth, None);
    assert_eq!(sizes.color, Some(32));
    assert!(session_uses_density_map(true, 3, Some(3)));
    assert!(!session_uses_density_map(true, 3, Some(2)));
    assert!(!session_uses_density_map(true, 3, None));
    assert!(!session_uses_density_map(false, 3, Some(3)));

    let session = session();
    let mut run = read_openxr_depth_image(&session, 0, 1).expect("it can be read");
    assert_eq!(run.byte_len, 18);
    assert_eq!(run.image, 60);
    run.advance();
    run.advance();
    assert_eq!(run.stage, ReadbackStage::ReleaseFrameResources);
    assert_eq!(
        run.failed(-4),
        "(depth readback) failed: ERROR_DEVICE_LOST"
    );
    let mut run = read_openxr_color_image_rgba(&session, 0, 0).expect("it can be read");
    assert_eq!(run.byte_len, 32);
    run.advance();
    assert_eq!(
        run.failed(-4),
        "reset_fences(color readback) failed: ERROR_DEVICE_LOST"
    );
    run.advance();
    assert_eq!(run.stage, ReadbackStage::ResetCommands);
    assert!(matches!(
        read_openxr_depth_image(&session, 4, 0),
        Err(message) if message == "invalid OpenXR depth image index 4"
    ));
    assert!(matches!(
        read_openxr_color_image_rgba(&session, 1, 0),
        Err(message) if message == "invalid OpenXR color image index 1"
    ));
    assert_eq!(openxr_color_to_rgba(vec![1, 2, 3, 4], 50), Ok(vec![3, 2, 1, 4]));
    assert!(openxr_color_to_rgba(vec![1, 2, 3, 4], 0).is_err());
}

#[test]
fn readback_needs_a_buffer_and_pixels() {
    let no_buffer = CxVulkanOpenXrSessionData {
        depth_readback_buffer: None,
        color_readback_buffer: None,
        ..session()
    };
    assert!(matches!(
        read_openxr_depth_image(&no_buffer, 0, 0),
        Err(message) if message == "OpenXR depth readback buffer unavailable"
    ));
    assert!(matches!(
        read_openxr_color_image_rgba(&no_buffer, 0, 0),
        Err(message) if message == "OpenXR color readback buffer unavailable"
    ));
    let flat = CxVulkanOpenXrSessionData {
        width: 0,
        depth_width: 0,
        ..session()
    };
    assert!(matches!(
        read_openxr_depth_image(&flat, 0, 0),
        Err(message) if message == "OpenXR depth swapchain has invalid dimensions"
    ));
    assert!(matches!(
        read_openxr_color_image_rgba(&flat, 0, 0),
        Err(message) if message == "OpenXR color readback dimensions are zero"
    ));
}

#[test]
fn session_is_given_back_whole() {
    assert_eq!(
        destroy_openxr_session_data(session()),
        vec![
            SessionRelease::Framebuffer(7),
            SessionRelease::View(6),
            SessionRelease::View(5),
            SessionRelease::DepthTarget(depth_target()),
            SessionRelease::View(61),
            SessionRelease::View(62),
            SessionRelease::View(63),
            SessionRelease::Buffer(buffer(70)),
            SessionRelease::Buffer(buffer(80)),
        ]
    );
}

#[test]
fn view_is_drawn_with_a_frame_in_flight() {
    let session = session();
    let mut frames = frames(2);
    let mut serials = SubmitSerials {
        submitted: 4,
        completed: 0,
    };
    let mut run = draw_openxr_view(&session, 0, Some(0), 99, true, Some(1)).expect("it is there");
    assert_eq!(run.framebuffer, 7);
    assert_eq!(run.depth_view, 63);
    assert_eq!(run.clear_values, 3);
    assert_eq!(
        run.failed(-4),
        "begin_command_buffer(openxr) failed: ERROR_DEVICE_LOST"
    );
    run.finish(&mut frames, &mut serials);
    assert_eq!(serials.submitted, 4);
    while run.stage != ViewStage::Submitted {
        run.advance();
    }
    run.finish(&mut frames, &mut serials);
    assert_eq!(serials.submitted, 5);
    assert_eq!(frames.frames[1].submit_serial, 5);
    assert_eq!(frames.index, 0);
    let dummy = draw_openxr_view(&session, 0, Some(4), 99, false, None).expect("it is there");
    assert_eq!(dummy.depth_view, 99);
    assert_eq!(dummy.clear_values, 2);
    assert!(matches!(
        draw_openxr_view(&session, 3, None, 99, false, None),
        Err(message) if message == "invalid OpenXR color image index 3"
    ));
}

#[test]
fn repaints_are_counted() {
    let mut counters = FrameCounters::new();
    counters.packet_written(64);
    counters.packet_written(100);
    let plan = DrawPlan::new();
    let counts = repaint_counts(counters, &plan.stats);
    assert_eq!(counts.sent.packet_buffer_count, 2);
    assert_eq!(counts.sent.packet_buffer_bytes, 164);
    assert_eq!(counts.packets, 0);
}

#[test]
fn openxr_start_has_its_frames_and_no_surface() {
    let init = xr_start();
    assert_eq!(init.queue_family_index, 1);
    let vulkan = xr_vulkan();
    assert!(vulkan.xr_multiview_enabled && vulkan.xr_gpu_timestamps_supported);
    assert_eq!(vulkan.queue_family_index, 1);
    assert_eq!(vulkan.surface, 0);
    assert!(!vulkan.has_drawable_surface());
    let mut build = match XrFramesBuild::create_xr_in_flight_frames(Ok(vec![1, 2, 3])) {
        Ok(build) => build,
        Err(message) => panic!("{message}"),
    };
    for fence in 0..3 {
        build.fence_created(100 + fence, 0);
    }
    let frames = XrFrames::started(&init, build);
    assert_eq!(frames.frames.len(), 3);
    assert_eq!(frames.frames[2].command_buffer, 3);
    assert_eq!(frames.index, 0);
}

#[test]
fn frame_goes_through_its_stages() {
    let mut frames = frames(2);
    frames.frames[1].pending_timestamp_query = true;
    let mut stages = Vec::new();
    let mut stage = RecycleStage::WaitFence;
    while stage != RecycleStage::Done {
        stages.push(stage);
        stage = frames.frames[1].next_stage(stage);
    }
    assert_eq!(
        stages,
        [
            RecycleStage::WaitFence,
            RecycleStage::CollectRetired,
            RecycleStage::ReadTimestamps,
            RecycleStage::ReplaceQueryPool,
            RecycleStage::ResetPools,
            RecycleStage::ResetFence,
            RecycleStage::ResetCommands,
        ]
    );
    assert_eq!(
        frames.frames[0].next_stage(RecycleStage::CollectRetired),
        RecycleStage::ResetPools
    );
}

fn target(framebuffer: u64) -> CxVulkanOpenXrMultiviewTarget {
    CxVulkanOpenXrMultiviewTarget {
        framebuffer,
        color_view: 2,
        depth_target: depth_target(),
        fragment_density_view: 0,
    }
}

fn session_build(foveation: Option<Vec<u64>>, density_map: bool) -> SessionBuild {
    let size = SessionSize {
        width: 0,
        height: 8,
        depth_width: 2,
        depth_height: 2,
    };
    let session = CxVulkanOpenXrSessionData::create_openxr_session_data(size, 37, None, None);
    SessionBuild::new(session, vec![50, 51], vec![60, 61, 62], foveation, density_map)
}

#[test]
fn session_has_a_target_for_each_color_image() {
    let mut build = session_build(Some(vec![70, 71]), true);
    assert_eq!(
        build.next(),
        SessionStep::Target {
            image: 50,
            foveation: Some(70)
        }
    );
    assert_eq!(build.target_created(Ok(target(1))), Ok(()));
    assert_eq!(
        build.target_created(Err("no target".to_string())),
        Err("no target".to_string())
    );
    assert_eq!(build.session.color_images.len(), 1);
    assert_eq!(
        session_build(Some(vec![70, 71]), false).next(),
        SessionStep::Target {
            image: 50,
            foveation: None
        }
    );
}

#[test]
fn failed_depth_image_ends_the_depth_images() {
    let mut build = session_build(None, false);
    assert_eq!(build.target_created(Ok(target(1))), Ok(()));
    assert_eq!(build.target_created(Ok(target(2))), Ok(()));
    assert_eq!(build.next(), SessionStep::DepthViews { image: 60 });
    let views = create_openxr_depth_array_view(60, (3, 4), Ok(5));
    assert!(build.depth_views_created(views).is_none());
    assert_eq!(build.next(), SessionStep::DepthViews { image: 61 });
    let failure = build
        .depth_views_created(Err(SessionFailure {
            releases: vec![SessionRelease::View(6)],
            message: "no view".to_string(),
        }))
        .expect("it is handed on");
    assert_eq!(failure.releases, vec![SessionRelease::View(6)]);
    assert_eq!(
        failure.message,
        "OpenXR Vulkan: environment depth image views unavailable, disabling XR depth sampling: no view"
    );
    assert_eq!(build.next(), SessionStep::Done);
    let session = build.finish();
    assert_eq!(session.color_images.len(), 2);
    assert_eq!(session.color_images[1].image, 51);
    assert_eq!(session.depth_images.len(), 1);
    assert_eq!(session.width, 1);
}

#[test]
fn what_a_frame_sends_is_counted() {
    let mut counters = FrameCounters::new();
    counters.texture_upload_count = 3;
    counters.texture_upload_bytes = 99;
    counters.geometry_uploaded(40);
    counters.geometry_uploaded(2);
    counters.descriptor_set_allocated();
    counters.packet_written(16);
    counters.textures_started();
    assert_eq!(counters.geometry_upload_bytes, 42);
    assert_eq!(counters.descriptor_set_count, 1);
    assert_eq!(counters.packet_buffer_bytes, 16);
    assert_eq!(counters.texture_upload_count, 0);
    assert_eq!(counters.texture_upload_bytes, 0);
}

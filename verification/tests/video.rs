use makepad_platform::android::camera_player::{
    diagnostic_time_ns, swap_r8_plane_texture, AndroidCameraHardwareBufferFrame,
    AndroidCameraPlayer, AndroidCameraTextureMode, CameraRegistration, CameraRequest,
    HardwareBufferInbox, PlaneChange, PlaneFrame, PlaneTexture, TextureUpdated,
};
use makepad_platform::android::messages::{FromJavaMessage, HardwareBufferFrame};
use makepad_platform::android::video::{
    buffer_imported, eye_imported, stereo_imported, ImportedBuffer, VideoAction, VideoConfig, VideoState,
};
use makepad_platform::event::video_playback::{
    BrokerH264VideoSource, VideoSource, VideoTextureDescriptorShape, VideoTextureResourcePath,
    VideoTextureUpdateMetadata, VideoTextureYcbcrConversionMetadata, VideoYuvMetadata,
};
use makepad_platform::ids::{
    LiveId, MediaPlaybackSessionId, TextureId, VideoFormatId, VideoFrameSessionId, VideoInputId,
};

fn frame(video_id: u64, hardware_buffer: u64) -> HardwareBufferFrame {
    HardwareBufferFrame {
        video_id,
        width: 4,
        height: 4,
        position_ms: 17,
        frame_sequence: 0,
        timestamp_ns: 0,
        hardware_buffer,
    }
}

fn imported() -> ImportedBuffer {
    ImportedBuffer {
        yuv: VideoYuvMetadata::disabled(),
        metadata: VideoTextureUpdateMetadata::default(),
    }
}

fn playing(source: VideoSource) -> VideoState {
    let mut state = VideoState::new(true);
    state.has_vulkan = true;
    state.configs.insert(
        5,
        VideoConfig {
            texture_id: TextureId(1),
            tex_y_id: TextureId(2),
            tex_u_id: TextureId(3),
            tex_v_id: TextureId(4),
            source,
            autoplay: true,
            should_loop: false,
        },
    );
    state
}

fn request() -> CameraRequest {
    CameraRequest {
        video_id: LiveId(5),
        texture_id: TextureId(1),
        tex_y_id: TextureId(2),
        tex_u_id: TextureId(3),
        tex_v_id: TextureId(4),
        input_id: VideoInputId(LiveId(6)),
        format_id: VideoFormatId(LiveId(7)),
        native_preview: false,
        use_hardware_buffer_texture: true,
        use_cpu_plane_textures: true,
    }
}

fn buffer_frame(hardware_buffer: u64) -> AndroidCameraHardwareBufferFrame {
    AndroidCameraHardwareBufferFrame {
        hardware_buffer,
        width: 8,
        height: 6,
        sequence: 0,
        timestamp_ns: 50,
        acquire_time_ns: 0,
    }
}

#[test]
fn prepared_video_has_its_tracks() {
    let mut state = playing(VideoSource::Network("http://example".to_string()));
    let actions = state.handle_android_video_message(
        FromJavaMessage::VideoPlaybackPrepared {
            video_id: 5,
            video_width: 10,
            video_height: 0,
            duration: 3,
            surface_texture: 90,
        },
        false,
    );
    match &actions[0] {
        VideoAction::Prepared(event) => {
            assert!(event.is_seekable);
            assert!(event.video_tracks.is_empty());
            assert_eq!(event.audio_tracks, vec!["audio".to_string()]);
        }
        _ => panic!("the video is prepared"),
    }
    assert_eq!(state.surfaces.get(&5), Some(&90));
    let released = state
        .handle_android_video_message(FromJavaMessage::VideoPlayerReleased { video_id: 5 }, false);
    assert_eq!(released.len(), 2);
    assert!(matches!(released[0], VideoAction::CleanupDecoder(90)));
    assert!(state.configs.is_empty() && state.surfaces.is_empty());
}

#[test]
fn planes_go_into_their_textures() {
    let mut state = playing(VideoSource::Network("http://example".to_string()));
    let planes = |video_id| FromJavaMessage::VideoYuvFrame {
        video_id,
        width: 5,
        height: 0,
        position_ms: 8,
        y: vec![1],
        u: vec![2],
        v: vec![3],
    };
    assert!(state
        .handle_android_video_message(planes(6), false)
        .is_empty());
    let actions = state.handle_android_video_message(planes(5), false);
    assert_eq!(actions.len(), 4);
    assert!(matches!(
        &actions[0],
        VideoAction::ReplacePlane { texture: TextureId(2), width: 5, height: 1, data } if data == &[1]
    ));
    assert!(matches!(
        &actions[2],
        VideoAction::ReplacePlane { texture: TextureId(4), width: 3, height: 1, data } if data == &[3]
    ));
    match &actions[3] {
        VideoAction::Updated(event) => {
            assert_eq!(event.yuv.matrix, 1.0f32.to_bits());
            assert_eq!(event.current_position_ms, 8);
        }
        _ => panic!("the texture is updated"),
    }
}

#[test]
fn buffers_are_released_once() {
    let message = || FromJavaMessage::VideoHardwareBufferFrame(frame(5, 70));
    let mut state = playing(VideoSource::Network("http://example".to_string()));
    let start = state.handle_android_video_message(message(), false);
    assert!(matches!(
        start[0],
        VideoAction::ImportBuffer { texture: TextureId(1), frame } if frame.hardware_buffer == 70
    ));
    assert_eq!(start.len(), 1);
    let end = buffer_imported(frame(5, 70), Ok(imported()), 30, 31);
    match &end[0] {
        VideoAction::Updated(event) => {
            assert_eq!(event.metadata.camera_frame_sequence, Some(1));
            assert_eq!(event.metadata.camera_timestamp_ns, Some(30));
            assert_eq!(event.metadata.import_time_ns, Some(31));
        }
        _ => panic!("the texture is updated"),
    }
    assert!(matches!(end[1], VideoAction::ReleaseBuffer(70)));
    let failed = buffer_imported(frame(5, 70), Err("lost".to_string()), 30, 31);
    assert!(matches!(&failed[0], VideoAction::DecodingError(event) if event.error == "lost"));

    state.has_vulkan = false;
    let refused = state.handle_android_video_message(message(), false);
    assert!(matches!(
        &refused[0],
        VideoAction::DecodingError(event) if event.error
            == "Android broker H.264 hardware-buffer texture requested without Vulkan backend"
    ));
    assert!(matches!(refused[1], VideoAction::ReleaseBuffer(70)));
    state.configs.clear();
    let unknown = state.handle_android_video_message(message(), false);
    assert!(matches!(
        &unknown[0],
        VideoAction::DecodingError(event) if event.error
            == "Android broker H.264 hardware-buffer frame for unknown video_id=5"
    ));
    let mut gl = VideoState::new(false);
    let refused = gl.handle_android_video_message(message(), false);
    assert!(matches!(refused[0], VideoAction::ReleaseBuffer(70)));
    assert!(matches!(
        &refused[1],
        VideoAction::DecodingError(event) if event.error
            == "Android broker H.264 hardware-buffer texture requires Vulkan backend"
    ));
}

#[test]
fn each_eye_is_imported_as_its_frame_says() {
    let mut state = playing(VideoSource::Network("x".to_string()));
    state.backend_reported(false);
    assert_eq!(
        state.plan_import(frame(6, 70)),
        Err("Android broker H.264 hardware-buffer frame for unknown video_id=6".to_string())
    );
    assert_eq!(
        state.plan_import(frame(5, 70)),
        Err(
            "Android broker H.264 hardware-buffer texture requested without Vulkan backend"
                .to_string()
        )
    );
    state.backend_reported(true);
    assert_eq!(state.plan_import(frame(5, 70)), Ok(TextureId(1)));
    let mut eye = frame(5, 70);
    eye.frame_sequence = 0;
    eye.timestamp_ns = 0;
    let described = match eye_imported(eye, Ok(imported()), 40, 50) {
        Ok(described) => described,
        Err(error) => panic!("{error}"),
    };
    assert_eq!(described.metadata.camera_frame_sequence, Some(1));
    assert_eq!(described.metadata.camera_timestamp_ns, Some(40));
    assert_eq!(described.metadata.import_time_ns, Some(50));
    assert!(matches!(
        eye_imported(eye, Err("no".to_string()), 40, 50),
        Err(error) if error == "no"
    ));
}

#[test]
fn both_eyes_are_updated_or_none() {
    let message = FromJavaMessage::VideoHardwareBufferStereoFrame {
        left: frame(5, 70),
        right: frame(6, 71),
        pair_delta_ns: 0,
        pair_index: 0,
    };
    let mut gl = VideoState::new(false);
    let refused = gl.handle_android_video_message(message, false);
    assert!(matches!(refused[0], VideoAction::ReleaseBuffer(70)));
    assert!(matches!(refused[1], VideoAction::ReleaseBuffer(71)));
    assert!(matches!(
        &refused[3],
        VideoAction::DecodingError(event) if event.error
            == "Android broker H.264 stereo hardware-buffer texture requires Vulkan backend"
    ));
    let end = stereo_imported(frame(5, 70), frame(6, 71), Ok(imported()), Ok(imported()));
    assert_eq!(end.len(), 4);
    assert!(matches!(&end[1], VideoAction::Updated(event) if event.video_id == LiveId(6)));
    let end = stereo_imported(
        frame(5, 70),
        frame(6, 71),
        Ok(imported()),
        Err("right".to_string()),
    );
    assert_eq!(end.len(), 3);
    assert!(matches!(
        &end[0],
        VideoAction::DecodingError(event) if event.video_id == LiveId(6) && event.error == "right"
    ));
    assert!(matches!(end[2], VideoAction::ReleaseBuffer(71)));
    let end = stereo_imported(
        frame(5, 70),
        frame(6, 71),
        Err("left".to_string()),
        Err("right".to_string()),
    );
    assert_eq!(end.len(), 4);
    let end = stereo_imported(
        frame(5, 70),
        frame(6, 71),
        Err("left".to_string()),
        Ok(imported()),
    );
    assert!(matches!(
        &end[0],
        VideoAction::DecodingError(event) if event.video_id == LiveId(5) && event.error == "left"
    ));
}

#[test]
fn software_is_fallen_back_to_once() {
    let error = || FromJavaMessage::VideoDecodingError {
        video_id: 5,
        error: "codec".to_string(),
    };
    let mut state = playing(VideoSource::Network("http://example".to_string()));
    assert!(matches!(
        state.handle_android_video_message(error(), true)[0],
        VideoAction::DecodingError(_)
    ));
    let fallback = state.handle_android_video_message(error(), false);
    assert!(matches!(
        fallback[0],
        VideoAction::StartSoftwarePlayer(LiveId(5))
    ));
    assert!(matches!(fallback[1], VideoAction::RedrawAll));
    let again = state.handle_android_video_message(error(), false);
    assert!(matches!(&again[0], VideoAction::DecodingError(event) if event.error == "codec"));
    let mut camera = playing(VideoSource::Camera(
        VideoInputId(LiveId(1)),
        VideoFormatId(LiveId(2)),
    ));
    assert!(matches!(
        camera.handle_android_video_message(error(), false)[0],
        VideoAction::DecodingError(_)
    ));
}

#[test]
fn preview_windows_are_kept_for_later() {
    let mut state = VideoState::new(true);
    let ready = |window| FromJavaMessage::CameraPreviewSurfaceReady {
        video_id: 5,
        window,
        width: 1,
        height: 1,
    };
    assert!(state
        .handle_android_video_message(ready(80), false)
        .is_empty());
    assert!(matches!(
        state.handle_android_video_message(ready(81), false)[0],
        VideoAction::ReleaseWindow(80)
    ));
    state.camera_players.insert(5);
    assert!(matches!(
        state.handle_android_video_message(ready(82), false)[0],
        VideoAction::SetPreviewWindow { window: 82, .. }
    ));
    let ended = state.handle_android_video_message(
        FromJavaMessage::CameraPreviewSurfaceDestroyed { video_id: 5 },
        false,
    );
    assert!(matches!(
        ended[0],
        VideoAction::SetPreviewWindow { window: 0, .. }
    ));
    assert!(matches!(ended[1], VideoAction::ReleaseWindow(81)));
}

#[test]
fn other_video_messages_are_handed_on() {
    let mut state = VideoState::new(true);
    assert!(matches!(
        state.handle_android_video_message(
            FromJavaMessage::VideoHardwareBufferStereoFrameReady { pair_index: 1 },
            false
        )[0],
        VideoAction::HandleLatestStereo
    ));
    assert!(matches!(
        state.handle_android_video_message(
            FromJavaMessage::VideoPlaybackCompleted { video_id: 3 },
            false
        )[0],
        VideoAction::Completed(event) if event.video_id == LiveId(3)
    ));
    assert!(matches!(
        &state.handle_android_video_message(
            FromJavaMessage::VideoPlaybackMetadata {
                video_id: 3,
                metadata_json: "{}".to_string()
            },
            false
        )[0],
        VideoAction::Metadata(event) if event.metadata_json == "{}"
    ));
}

#[test]
fn camera_is_ready_with_its_first_frame() {
    let mut player = AndroidCameraPlayer::new(request(), Some((640, 480)), -90);
    assert_eq!(player.registration(), CameraRegistration::HardwareBuffers);
    assert_eq!(player.yuv_rotation_steps(), 3.0f32.to_bits());
    assert!(player.uses_textures() && !player.needs_gl_upload());
    assert!(!player.asks_plane_size() && !player.takes_planes());
    assert!(player.check_prepared(None, Some((1, 1)), true).is_none());
    assert!(player.warned_waiting_for_first_frame);
    let prepared = player
        .check_prepared(Some((8, 6)), None, false)
        .expect("a frame came");
    assert_eq!((prepared.width, prepared.height), (8, 6));
    assert_eq!(prepared.video_tracks, vec!["camera".to_string()]);
    assert!(player.check_prepared(Some((8, 6)), None, false).is_none());
    assert_eq!(player.texture_id(), TextureId(1));
    assert_eq!(player.tex_y_id(), TextureId(2));
    assert_eq!(player.tex_u_id(), TextureId(3));
    assert_eq!(player.tex_v_id(), TextureId(4));
}

#[test]
fn native_preview_is_ready_at_once() {
    let mut player = AndroidCameraPlayer::new(
        CameraRequest {
            native_preview: true,
            ..request()
        },
        None,
        450,
    );
    assert_eq!(player.registration(), CameraRegistration::WindowOnly);
    assert_eq!(player.yuv_rotation_steps(), 1.0f32.to_bits());
    assert!(player.check_prepared(None, None, false).is_some());
    assert!(!player.uses_hardware_buffer_texture());
    assert!(player.set_preview_window());
    assert!(player.cleanup());
    assert!(!player.cleanup());
    assert!(!player.set_preview_window());
}

#[test]
fn latest_buffer_is_taken_once() {
    let mut inbox = HardwareBufferInbox::new();
    assert_eq!(inbox.arrive(buffer_frame(1), 100), None);
    let replaced = inbox.arrive(buffer_frame(2), 101).expect("one was there");
    assert_eq!((replaced.hardware_buffer, replaced.sequence), (1, 1));
    let mut player = AndroidCameraPlayer::new(request(), None, 0);
    let taken = player
        .take_hardware_buffer_frame(&mut inbox)
        .expect("one was there");
    assert_eq!(
        (taken.hardware_buffer, taken.sequence, taken.acquire_time_ns),
        (2, 2, 101)
    );
    assert!(player.take_hardware_buffer_frame(&mut inbox).is_none());
    let metadata =
        player.hardware_buffer_update_metadata(VideoTextureUpdateMetadata::default(), &taken, 102);
    assert_eq!(metadata.import_sequence, Some(1));
    assert_eq!(metadata.import_time_ns, Some(102));
    assert_eq!(metadata.acquire_time_ns, Some(101));
    assert_eq!(player.hardware_buffer_update_seq, 1);
}

#[test]
fn planes_are_the_fallback_of_buffers() {
    let mut player = AndroidCameraPlayer::new(request(), None, 0);
    assert!(player.should_try_hardware_buffer_yuv_plane_import());
    player.disable_hardware_buffer_yuv_plane_import();
    assert!(!player.should_try_hardware_buffer_yuv_plane_import());
    let planes = Some(PlaneFrame {
        width: 7,
        height: 4,
        plane_count: 3,
        sequence: 9,
        timestamp_ns: 10,
        acquire_time_ns: 0,
    });
    assert!(player.poll_frame(planes, true, 1).is_none());
    assert!(!player.takes_planes());
    assert_eq!(player.fallback_to_cpu_yuv(), Ok(true));
    assert!(player.takes_planes() && player.asks_plane_size());
    assert_eq!(player.fallback_to_cpu_yuv(), Ok(false));
    assert_eq!(player.texture_mode, AndroidCameraTextureMode::CpuYuv);
    let upload = player.poll_frame(planes, false, 55).expect("it is usable");
    assert!(upload.by_copy);
    assert_eq!((upload.chroma_width, upload.chroma_height), (4, 2));
    assert_eq!(upload.metadata.upload_sequence, Some(1));
    assert_eq!(upload.metadata.upload_time_ns, Some(55));
    assert_eq!(upload.metadata.acquire_time_ns, None);
    assert!(player
        .poll_frame(
            Some(PlaneFrame {
                plane_count: 2,
                ..planes.expect("it is there")
            }),
            false,
            56
        )
        .is_none());
    let mut lost = AndroidCameraPlayer::new(request(), None, 0);
    lost.cleanup();
    assert_eq!(
        lost.fallback_to_cpu_yuv(),
        Err("Android headset camera fallback failed: missing camera access".to_string())
    );
}

#[test]
fn gl_takes_planes_where_it_is_there() {
    let mut player = AndroidCameraPlayer::new(
        CameraRequest {
            use_hardware_buffer_texture: false,
            use_cpu_plane_textures: false,
            ..request()
        },
        None,
        0,
    );
    assert!(player.needs_gl_upload());
    let planes = Some(PlaneFrame {
        width: 1,
        height: 1,
        plane_count: 3,
        sequence: 9,
        timestamp_ns: 10,
        acquire_time_ns: 11,
    });
    assert!(player.poll_frame(planes, false, 1).is_none());
    let upload = player.poll_frame(planes, true, 1).expect("it is usable");
    assert!(!upload.by_copy);
    assert_eq!(
        upload.metadata.resource_path,
        VideoTextureResourcePath::SoftwareYuvPlanes
    );
    assert_eq!((upload.chroma_width, upload.chroma_height), (1, 1));
}

#[test]
fn planes_are_swapped_into_textures() {
    let mut texture = PlaneTexture::Placeholder;
    let mut data = vec![1, 2];
    assert_eq!(
        swap_r8_plane_texture(&mut texture, 2, 1, &mut data),
        PlaneChange::Replaced
    );
    assert!(data.is_empty());
    data = vec![3, 4];
    assert_eq!(
        swap_r8_plane_texture(&mut texture, 1, 2, &mut data),
        PlaneChange::Merged
    );
    assert_eq!(data, vec![1, 2]);
    assert!(matches!(
        &texture,
        PlaneTexture::Bytes {
            width: 1,
            height: 2,
            data: Some(bytes),
            unpack_row_length: None,
            updated: TextureUpdated::Merged(before),
        } if bytes == &[3, 4] && matches!(**before, TextureUpdated::Full)
    ));
    let mut padded = PlaneTexture::Bytes {
        width: 1,
        height: 1,
        data: None,
        unpack_row_length: Some(8),
        updated: TextureUpdated::Marked(6),
    };
    let mut plane = vec![7];
    swap_r8_plane_texture(&mut padded, 1, 1, &mut plane);
    assert!(plane.is_empty());
    assert!(matches!(
        &padded,
        PlaneTexture::Bytes {
            unpack_row_length: Some(8),
            updated: TextureUpdated::Merged(before),
            ..
        } if matches!(**before, TextureUpdated::Marked(6))
    ));
    let mut other = PlaneTexture::Other;
    assert_eq!(
        swap_r8_plane_texture(&mut other, 1, 2, &mut data),
        PlaneChange::Refused
    );
    assert_eq!(data, vec![1, 2]);
}

#[test]
fn diagnostic_times_are_bounded() {
    assert_eq!(diagnostic_time_ns(None), 0);
    assert_eq!(diagnostic_time_ns(Some(12)), 12);
    assert_eq!(diagnostic_time_ns(Some(u128::MAX)), u64::MAX);
}

#[test]
fn names_of_paths_and_shapes() {
    assert_eq!(
        VideoTextureResourcePath::HardwareBufferYuvPlanes.as_str(),
        "hardware-buffer-yuv-planes"
    );
    assert_eq!(VideoTextureResourcePath::default().as_str(), "unspecified");
    assert_eq!(
        VideoTextureDescriptorShape::CombinedImmutableSamplerYcbcrConversion.as_str(),
        "combined-immutable-sampler-ycbcr-conversion"
    );
    assert_eq!(
        VideoTextureDescriptorShape::default().as_str(),
        "unspecified"
    );
}

#[test]
fn shader_switches_are_one_or_zero() {
    let metadata = VideoYuvMetadata {
        enabled: true,
        matrix: 0,
        biplanar: false,
        rotation_steps: 0,
    };
    assert_eq!(f32::from_bits(metadata.shader_enabled()), 1.0);
    assert_eq!(f32::from_bits(metadata.shader_biplanar()), 0.0);
    assert_eq!(VideoYuvMetadata::default(), VideoYuvMetadata::disabled());
}

#[test]
fn updates_are_described_step_by_step() {
    let conversion = VideoTextureYcbcrConversionMetadata {
        suggested_model: "601".to_string(),
        suggested_range: "narrow".to_string(),
        effective_model: "601".to_string(),
        effective_range: "narrow".to_string(),
        components: "identity".to_string(),
        suggested_x_chroma_offset: "midpoint".to_string(),
        suggested_y_chroma_offset: "midpoint".to_string(),
        conversion_mode: "external".to_string(),
        sampler_binding_mode: "immutable".to_string(),
        sampler_binding_compliance: "full".to_string(),
        shader_sample_lowering: "combined".to_string(),
    };
    let metadata = VideoTextureUpdateMetadata::default()
        .with_resource(
            VideoTextureResourcePath::HardwareBufferExternal,
            VideoTextureDescriptorShape::SampledImageAndSampler,
            4,
            3,
        )
        .with_camera_source(VideoInputId(LiveId(1)), VideoFormatId(LiveId(2)))
        .with_camera_frame(3, 4, Some(5))
        .with_cpu_yuv_upload(6, 7)
        .with_hardware_buffer_import(8, 9)
        .with_vulkan_format("R8".to_string(), Some(10))
        .with_ycbcr_conversion(conversion.clone())
        .with_resource_reused(true)
        .with_fallback("why".to_string());
    assert_eq!((metadata.width, metadata.height), (4, 3));
    assert_eq!(metadata.camera_input_id, Some(VideoInputId(LiveId(1))));
    assert_eq!(metadata.acquire_time_ns, Some(5));
    assert_eq!(metadata.upload_sequence, Some(6));
    assert_eq!(metadata.import_time_ns, Some(9));
    assert_eq!(metadata.texture_update_sequence, Some(8));
    assert_eq!(metadata.vulkan_format.as_deref(), Some("R8"));
    assert_eq!(metadata.vulkan_external_format, Some(10));
    assert_eq!(metadata.ycbcr_conversion, Some(conversion));
    assert_eq!(metadata.resource_reused, Some(true));
    assert!(metadata.fallback_active);
    assert_eq!(metadata.fallback_reason.as_deref(), Some("why"));
}

#[test]
fn sources_and_their_fallbacks() {
    let sessions = [
        VideoSource::PlaybackSession(MediaPlaybackSessionId(1)),
        VideoSource::Session(VideoFrameSessionId(2)),
    ];
    for session in sessions {
        assert!(session.is_session() && session.supports_software_fallback());
    }
    let broker = VideoSource::BrokerH264(BrokerH264VideoSource::default());
    assert!(!broker.is_session() && !broker.supports_software_fallback());
    assert!(VideoSource::Filesystem("a".to_string()).supports_software_fallback());
    let defaults = BrokerH264VideoSource::default();
    assert_eq!(defaults.broker_host, "127.0.0.1");
    assert_eq!(defaults.broker_port, 8765);
    assert_eq!(defaults.stream_port, 8879);
    assert_eq!(defaults.decode_output_mode, "auto");
}

#[test]
fn unknown_conversion_says_nothing() {
    let conversion = VideoTextureYcbcrConversionMetadata::default();
    assert_eq!(conversion.suggested_model, "");
    assert_eq!(conversion.effective_model, "");
    assert_eq!(conversion.shader_sample_lowering, "");
}

#[test]
fn fallback_is_active_exactly_with_a_reason() {
    let metadata = VideoTextureUpdateMetadata::default()
        .with_camera_frame(1, 2, None)
        .with_resource_reused(false);
    assert!(!metadata.fallback_active && metadata.fallback_reason.is_none());
    let metadata = metadata
        .with_fallback("slow".to_string())
        .with_cpu_yuv_upload(3, 4);
    assert!(metadata.fallback_active);
    assert_eq!(metadata.fallback_reason.as_deref(), Some("slow"));
}

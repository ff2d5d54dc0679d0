use makepad_platform::android::amidi_sys::{
    AMidiDevice_fromJava, AMidiDevice_getNumInputPorts, AMidiDevice_getNumOutputPorts,
    AMidiDevice_release, AMidiInputPort_open, AMidiInputPort_send, AMidiOutputPort_open,
    AMidiOutputPort_receive, Opened, Received, AMEDIA_ERROR_UNKNOWN,
};
use makepad_platform::android::coalesce::{Coalescer, DropReport};
use makepad_platform::android::input::{
    begin_touch, drag_touch, find_touch, pasted, DragAction, ImeState, InputAction, InputContext,
    KeyCode, KeyModifiers, MetaMasks,
};
use makepad_platform::android::lifecycle::{LifecycleAction, LifecycleState};
use makepad_platform::android::messages::{
    FromJavaMessage, HardwareBufferFrame, MessageGroup, TouchPoint, TouchState,
};
use makepad_platform::android::network::{
    forward_websocket, permission_status, NetworkAction, NetworkState, ParsedMessage,
    PermissionStatus, WebSocketMessage,
};
use makepad_platform::android::surface::{insets_changed, SurfaceAction, SurfaceState};
use makepad_platform::display_context::SafeAreaInsets;

fn touch(state: TouchState, time: f64) -> TouchPoint {
    TouchPoint {
        state,
        uid: 1,
        x: 10.0f64.to_bits(),
        y: 20.0f64.to_bits(),
        radius_x: 0,
        radius_y: 0,
        time: time.to_bits(),
    }
}

fn frame(hardware_buffer: u64) -> HardwareBufferFrame {
    HardwareBufferFrame {
        video_id: 5,
        width: 4,
        height: 4,
        position_ms: 0,
        frame_sequence: 1,
        timestamp_ns: 1,
        hardware_buffer,
    }
}

fn stereo(left: u64, right: u64) -> FromJavaMessage {
    FromJavaMessage::VideoHardwareBufferStereoFrame {
        left: frame(left),
        right: frame(right),
        pair_delta_ns: 0,
        pair_index: 0,
    }
}

fn surface() -> SurfaceState {
    SurfaceState {
        use_vulkan: true,
        in_xr_mode: false,
        has_xr_session: false,
        has_vulkan: true,
        has_display: true,
        window: 7,
        display_width: 640,
        display_height: -3,
        surface_alive: true,
        needs_first_draw: false,
        hide_surface_cover_after_first_present: false,
        refresh_surface_snapshot_after_first_present: false,
        xr_retry_surface_after_destroy: false,
        xr_pending_window: 0,
        xr_pending_width: 0,
        xr_pending_height: 0,
        first_after_resize: false,
        native_safe_area_insets: SafeAreaInsets {
            top: 0,
            right: 0,
            bottom: 0,
            left: 0,
        },
    }
}

fn context(key: KeyCode) -> InputContext {
    InputContext {
        key,
        masks: MetaMasks {
            control: 0x7000,
            alt: 0x32,
            shift: 0xc1,
        },
        keyboard_height: 300.0f64.to_bits(),
        keyboard_change: 300.0f64.to_bits(),
    }
}

#[test]
fn messages_fall_into_groups() {
    assert_eq!(
        FromJavaMessage::SurfaceDestroyed { ack: 1 }.handle_message(),
        MessageGroup::Surface
    );
    assert_eq!(
        FromJavaMessage::BackPressed.handle_message(),
        MessageGroup::Input
    );
    assert_eq!(
        FromJavaMessage::WebSocketClosed { sender: 1 }.handle_message(),
        MessageGroup::Network
    );
    assert_eq!(stereo(1, 2).handle_message(), MessageGroup::Video);
    assert_eq!(
        FromJavaMessage::RenderLoop.handle_message(),
        MessageGroup::Lifecycle
    );
}

#[test]
fn moving_touches_are_told_from_others() {
    assert!(FromJavaMessage::Touch(vec![touch(TouchState::Move, 0.0)]).is_pure_touch_move_message());
    assert!(FromJavaMessage::Touch(vec![]).is_pure_touch_move_message());
    assert!(!FromJavaMessage::Touch(vec![
        touch(TouchState::Move, 0.0),
        touch(TouchState::Stop, 0.0)
    ])
    .is_pure_touch_move_message());
    assert!(!FromJavaMessage::Pause.is_pure_touch_move_message());
}

#[test]
fn latest_frame_is_kept_and_the_others_are_released() {
    let mut coalescer = Coalescer::new();
    assert!(coalescer
        .handle_coalesced_android_java_message(stereo(1, 2))
        .released
        .is_empty());
    let second = coalescer.handle_coalesced_android_java_message(stereo(3, 4));
    assert_eq!(second.released, vec![1, 2]);
    assert!(second.handled.is_empty());
    coalescer.handle_coalesced_android_java_message(FromJavaMessage::Touch(vec![touch(
        TouchState::Move,
        1.0,
    )]));
    coalescer.handle_coalesced_android_java_message(FromJavaMessage::Touch(vec![touch(
        TouchState::Move,
        2.0,
    )]));
    let all = coalescer.handle_coalesced_android_java_message(FromJavaMessage::Pause);
    assert_eq!(all.handled.len(), 3);
    match &all.handled[0] {
        FromJavaMessage::Touch(touches) => assert_eq!(touches[0].time, 2.0f64.to_bits()),
        _ => panic!("the touch comes first"),
    }
    assert_eq!(
        all.handled[1].release_coalesced_video_hardware_buffer_stereo_message(),
        vec![3, 4]
    );
    assert!(matches!(all.handled[2], FromJavaMessage::Pause));
    assert_eq!(
        all.report,
        Some(DropReport {
            dropped: 1,
            kept: 1
        })
    );
    let nothing = coalescer.flush_coalesced_android_java_messages();
    assert!(nothing.handled.is_empty() && nothing.report.is_none());
}

#[test]
fn notice_of_a_frame_has_no_buffers() {
    let mut coalescer = Coalescer::new();
    let notice = FromJavaMessage::VideoHardwareBufferStereoFrameReady { pair_index: 3 };
    assert!(notice.is_video_hardware_buffer_stereo_frame_message());
    coalescer.handle_coalesced_android_java_message(notice);
    let replaced = coalescer.handle_coalesced_android_java_message(stereo(1, 2));
    assert!(replaced.released.is_empty());
    assert_eq!(coalescer.dropped, 1);
}

#[test]
fn destroyed_surface_is_told_last() {
    let mut state = surface();
    let actions = state
        .handle_android_surface_message(&FromJavaMessage::SurfaceDestroyed { ack: 33 });
    assert_eq!(
        actions,
        vec![
            SurfaceAction::ReleaseWindow(7),
            SurfaceAction::SuspendVulkanSurface,
            SurfaceAction::SignalDestroyed(33)
        ]
    );
    assert!(!state.surface_alive && state.needs_first_draw);
    assert_eq!(state.window, 0);
}

#[test]
fn session_is_made_again_after_a_surface_ended() {
    let mut state = SurfaceState {
        in_xr_mode: true,
        xr_retry_surface_after_destroy: true,
        xr_pending_window: 8,
        xr_pending_width: 3,
        xr_pending_height: 4,
        ..surface()
    };
    let actions =
        state.handle_android_surface_message(&FromJavaMessage::SurfaceDestroyed { ack: 33 });
    assert_eq!(
        actions[2],
        SurfaceAction::CreateXrSession {
            window: 8,
            width: 3,
            height: 4,
            retry: true
        }
    );
    let mut state = SurfaceState {
        has_xr_session: true,
        ..state
    };
    let actions =
        state.handle_android_surface_message(&FromJavaMessage::SurfaceDestroyed { ack: 33 });
    assert_eq!(actions, vec![SurfaceAction::SignalDestroyed(33)]);
}

#[test]
fn window_that_comes_again_is_kept() {
    let mut state = surface();
    let message = FromJavaMessage::SurfaceCreated { window: 9 };
    let actions = state.handle_android_surface_message(&message);
    assert_eq!(
        actions,
        vec![
            SurfaceAction::ReleaseWindow(7),
            SurfaceAction::UpdateVulkanSurface {
                window: 9,
                width: 640,
                height: 1
            },
            SurfaceAction::SyncSurface
        ]
    );
    let again = state.handle_android_surface_message(&message);
    assert!(!again
        .iter()
        .any(|action| matches!(action, SurfaceAction::ReleaseWindow(_))));
    assert!(state.surface_synced(true));
    assert!(!state.surface_synced(false));
    state.backend_reported(true, false);
    assert!(state.has_vulkan && !state.has_xr_session);
}

#[test]
fn changed_insets_are_reported_with_the_geometry() {
    assert_eq!(
        insets_changed(true),
        [SurfaceAction::ReportGeometry, SurfaceAction::RedrawAll]
    );
    assert!(insets_changed(false).is_empty());
}

#[test]
fn changed_surface_starts_vulkan() {
    let mut state = SurfaceState {
        has_vulkan: false,
        ..surface()
    };
    let message = FromJavaMessage::SurfaceChanged {
        window: 7,
        width: 0,
        height: 5,
    };
    assert_eq!(
        state.handle_android_surface_message(&message),
        vec![
            SurfaceAction::StartVulkan {
                window: 7,
                width: 1,
                height: 5
            },
            SurfaceAction::SyncSurface,
            SurfaceAction::ChangeGeometry {
                width: 0,
                height: 5
            },
            SurfaceAction::RedrawMainPass,
            SurfaceAction::RedrawAll,
            SurfaceAction::ClearAtlasses
        ]
    );
    assert!(state.first_after_resize);
    let mut gl = SurfaceState {
        use_vulkan: false,
        in_xr_mode: true,
        ..surface()
    };
    assert_eq!(
        gl.handle_android_surface_message(&message)[0],
        SurfaceAction::CreateGlXrSession
    );
    assert_eq!(gl.window, 7);
}

#[test]
fn same_insets_change_nothing() {
    let mut state = surface();
    let insets = |top: f64| FromJavaMessage::SafeAreaInsets {
        top: top.to_bits(),
        right: 0,
        bottom: 0,
        left: 0,
    };
    assert!(state.handle_android_surface_message(&insets(-0.0)).is_empty());
    assert_eq!(state.handle_android_surface_message(&insets(24.0)).len(), 1);
    assert!(state.handle_android_surface_message(&insets(24.0)).is_empty());
    assert_eq!(
        state.handle_android_surface_message(&insets(f64::NAN)).len(),
        1
    );
    assert_eq!(
        state.handle_android_surface_message(&insets(f64::NAN)).len(),
        1
    );
}

#[test]
fn keys_lead_to_their_actions() {
    let mut ime = ImeState::new();
    let down = |meta_state| FromJavaMessage::KeyDown {
        keycode: 31,
        meta_state,
    };
    assert!(ime
        .handle_android_input_message(down(0), context(KeyCode::Unknown))
        .is_empty());
    assert!(matches!(
        ime.handle_android_input_message(down(0x1000), context(KeyCode::KeyC))[0],
        InputAction::Copy
    ));
    assert!(matches!(
        ime.handle_android_input_message(down(0x2), context(KeyCode::KeyX))[0],
        InputAction::Cut
    ));
    assert!(matches!(
        ime.handle_android_input_message(down(0x1000), context(KeyCode::KeyV))[0],
        InputAction::Paste
    ));
    assert!(ime
        .handle_android_input_message(down(0x1000), context(KeyCode::KeyA))
        .is_empty());
    let back = ime.handle_android_input_message(down(0), context(KeyCode::Back));
    assert_eq!(back.len(), 2);
    assert!(matches!(back[0], InputAction::BackPressed));
    let up = FromJavaMessage::KeyUp {
        keycode: 31,
        meta_state: 1,
    };
    assert!(matches!(
        ime.handle_android_input_message(up, context(KeyCode::Other(31)))[0],
        InputAction::KeyUp {
            key: KeyCode::Other(31),
            modifiers: KeyModifiers {
                shift: true,
                control: false,
                alt: false,
                logo: false
            }
        }
    ));
}

#[test]
fn characters_have_to_be_unicode() {
    let mut ime = ImeState::new();
    let mut typed = |character| {
        ime.handle_android_input_message(
            FromJavaMessage::Character { character },
            context(KeyCode::Unknown),
        )
        .len()
    };
    for character in [0, 0x41, 0xd7ff, 0xe000, 0x10_ffff] {
        assert_eq!(typed(character), 1);
        assert!(char::from_u32(character).is_some());
    }
    for character in [0xd800, 0xdfff, 0x11_0000, u32::MAX] {
        assert_eq!(typed(character), 0);
        assert!(char::from_u32(character).is_none());
    }
}

#[test]
fn keyboard_is_reported_once_and_hidden_once() {
    let mut ime = ImeState::new();
    let resize = |is_open| FromJavaMessage::ResizeTextIME {
        keyboard_height: 600,
        is_open,
    };
    let shown = ime.handle_android_input_message(resize(true), context(KeyCode::Unknown));
    assert!(matches!(
        shown[0],
        InputAction::KeyboardShown { height } if height == 300.0f64.to_bits()
    ));
    let unchanged = InputContext {
        keyboard_change: 0.4f64.to_bits(),
        ..context(KeyCode::Unknown)
    };
    assert!(ime
        .handle_android_input_message(resize(true), unchanged)
        .is_empty());
    let hidden = ime.handle_android_input_message(resize(false), unchanged);
    assert_eq!(hidden.len(), 3);
    assert!(matches!(hidden[2], InputAction::KeyboardHidden));
    assert_eq!(ime.height, 0);
    let again = ime.handle_android_input_message(resize(false), unchanged);
    assert_eq!(again.len(), 1);
    assert!(matches!(again[0], InputAction::ForgetImeConfig));
}

#[test]
fn clipboard_actions_and_pasting() {
    let mut ime = ImeState::new();
    let mut act = |action: &str| {
        ime.handle_android_input_message(
            FromJavaMessage::ClipboardAction {
                action: action.to_string(),
            },
            context(KeyCode::Unknown),
        )
    };
    assert!(matches!(act("copy")[0], InputAction::CopyToClipboard));
    assert!(matches!(act("cut")[0], InputAction::CutToClipboard));
    assert!(matches!(
        act("select_all")[0],
        InputAction::KeyDown {
            key: KeyCode::KeyA,
            modifiers: KeyModifiers { control: true, .. }
        }
    ));
    assert!(act("paste").is_empty());
    assert!(pasted(String::new()).is_none());
    assert!(matches!(
        pasted("text".to_string()),
        Some(InputAction::Text { text, was_paste: true }) if text == "text"
    ));
}

#[test]
fn composed_part_needs_both_ends() {
    let mut ime = ImeState::new();
    let mut part = |composing_start, composing_end| {
        let message = FromJavaMessage::ImeTextStateChanged {
            full_text: "abc".to_string(),
            selection_start: 1,
            selection_end: 2,
            composing_start,
            composing_end,
        };
        match ime
            .handle_android_input_message(message, context(KeyCode::Unknown))
            .pop()
        {
            Some(InputAction::TextState { composition, .. }) => composition,
            _ => panic!("the text is reported"),
        }
    };
    assert_eq!(part(0, 2), Some((0, 2)));
    assert_eq!(part(-1, 2), None);
    assert_eq!(part(0, -1), None);
}

#[test]
fn touches_begin_and_drag() {
    let touches = vec![
        touch(TouchState::Move, 3.0),
        touch(TouchState::Start, 4.0),
        touch(TouchState::Stop, 5.0),
    ];
    let beginning = begin_touch(&touches);
    assert_eq!(beginning.time, 3.0f64.to_bits());
    assert!(beginning.dismisses_popup);
    assert_eq!(find_touch(&touches, TouchState::Stop), Some(2));
    assert_eq!(find_touch(&touches, TouchState::Stable), None);
    assert!(drag_touch(&touches, false).is_empty());
    assert_eq!(
        drag_touch(&touches, true),
        vec![
            DragAction::Drop(2),
            DragAction::Cycle,
            DragAction::DragEnd,
            DragAction::Cycle
        ]
    );
    assert_eq!(
        drag_touch(&touches[..2].to_vec(), true),
        vec![DragAction::Drag(0), DragAction::Cycle]
    );
}

#[test]
fn parsers_follow_their_sockets() {
    let mut network = NetworkState::new();
    let bytes = |sender| FromJavaMessage::WebSocketMessage {
        message: vec![1, 2],
        sender,
    };
    let first = network.handle_android_network_message(bytes(4), None);
    assert!(matches!(first[0], NetworkAction::StartParser(4)));
    assert!(matches!(&first[1], NetworkAction::Parse { sender: 4, message } if message == &[1, 2]));
    assert_eq!(
        network.handle_android_network_message(bytes(4), None).len(),
        1
    );
    let failed = network.handle_android_network_message(
        FromJavaMessage::WebSocketError {
            error: "reset".to_string(),
            sender: 4,
        },
        None,
    );
    assert!(matches!(failed[0], NetworkAction::DropParser(4)));
    assert!(matches!(&failed[1], NetworkAction::SendError { error, .. } if error == "reset"));
    let closed = network
        .handle_android_network_message(FromJavaMessage::WebSocketClosed { sender: 4 }, None);
    assert_eq!(closed.len(), 1);
    assert!(matches!(closed[0], NetworkAction::SendClosed(4)));
}

#[test]
fn unknown_permission_codes_are_denied() {
    assert_eq!(permission_status(0), PermissionStatus::NotDetermined);
    assert_eq!(permission_status(1), PermissionStatus::Granted);
    assert_eq!(permission_status(2), PermissionStatus::DeniedCanRetry);
    assert_eq!(permission_status(3), PermissionStatus::DeniedPermanent);
    assert_eq!(permission_status(-7), PermissionStatus::DeniedPermanent);
    let mut network = NetworkState::new();
    let result = || FromJavaMessage::PermissionResult {
        permission: "android.permission.CAMERA".to_string(),
        request_id: 2,
        status: 1,
    };
    assert!(network
        .handle_android_network_message(result(), None)
        .is_empty());
    assert!(matches!(
        network.handle_android_network_message(result(), Some(6))[0],
        NetworkAction::Permission {
            permission: 6,
            request_id: 2,
            status: PermissionStatus::Granted
        }
    ));
}

#[test]
fn sockets_forward_messages_only() {
    assert!(matches!(
        forward_websocket(ParsedMessage::Text("a".to_string())),
        Some(WebSocketMessage::String(text)) if text == "a"
    ));
    assert!(matches!(
        forward_websocket(ParsedMessage::Binary(vec![7])),
        Some(WebSocketMessage::Binary(data)) if data == [7]
    ));
    assert!(forward_websocket(ParsedMessage::Control).is_none());
    assert!(forward_websocket(ParsedMessage::Failed).is_none());
}

#[test]
fn responses_and_devices_are_handed_on() {
    let mut network = NetworkState::new();
    let response = FromJavaMessage::HttpResponse {
        request_id: 1,
        metadata_id: 2,
        status_code: 404,
        headers: "a: b".to_string(),
        body: vec![9],
    };
    assert!(matches!(
        &network.handle_android_network_message(response, None)[0],
        NetworkAction::HttpResponse { status_code: 404, body, .. } if body == &[9]
    ));
    let error = FromJavaMessage::HttpRequestError {
        request_id: 1,
        metadata_id: 2,
        error: "timeout".to_string(),
        url: "http://example".to_string(),
    };
    assert!(matches!(
        &network.handle_android_network_message(error, None)[0],
        NetworkAction::HttpError { error, .. } if error == "timeout"
    ));
    let device = FromJavaMessage::MidiDeviceOpened {
        name: "keys".to_string(),
        midi_device: 3,
    };
    assert!(matches!(
        network.handle_android_network_message(device, None)[0],
        NetworkAction::OpenMidiDevice { midi_device: 3, .. }
    ));
}

#[test]
fn second_destroy_quits() {
    let mut state = LifecycleState {
        activity_thread_id: None,
        fullscreen: true,
        ignore_destroy: true,
        quit: false,
    };
    let mut surface = surface();
    let mut handle = |message| state.handle_android_lifecycle_message(&mut surface, &message);
    assert_eq!(
        handle(FromJavaMessage::Destroy),
        vec![LifecycleAction::ClearLatestStereo]
    );
    assert_eq!(
        handle(FromJavaMessage::Destroy),
        vec![LifecycleAction::ClearLatestStereo, LifecycleAction::Shutdown]
    );
    assert_eq!(
        handle(FromJavaMessage::Resume),
        vec![
            LifecycleAction::SetFullScreen,
            LifecycleAction::RedrawAll,
            LifecycleAction::ReinitialiseMedia,
            LifecycleAction::Resume
        ]
    );
    assert_eq!(
        handle(FromJavaMessage::WindowFocusChanged { has_focus: false }),
        vec![LifecycleAction::WindowLostFocus]
    );
    assert!(handle(FromJavaMessage::SwitchedActivity {
        activity: 1,
        thread_id: 2
    })
    .is_empty());
    assert!(handle(FromJavaMessage::RenderLoop).is_empty());
    assert!(state.quit);
    assert_eq!(state.activity_thread_id, Some(2));
    assert!(surface.hide_surface_cover_after_first_present);
}

#[test]
fn midi_calls_without_the_library() {
    let nothing = Opened {
        status: AMEDIA_ERROR_UNKNOWN,
        address: Some(0),
    };
    assert_eq!(AMidiDevice_fromJava(None, true), nothing);
    assert_eq!(AMidiInputPort_open(None, true), nothing);
    assert_eq!(AMidiOutputPort_open(None, false).address, None);
    let opened = Opened {
        status: 0,
        address: Some(44),
    };
    assert_eq!(AMidiOutputPort_open(Some(opened), true), opened);
    assert_eq!(AMidiDevice_release(None), AMEDIA_ERROR_UNKNOWN);
    assert_eq!(AMidiDevice_release(Some(0)), 0);
    assert_eq!(AMidiDevice_getNumInputPorts(None), 0);
    assert_eq!(AMidiDevice_getNumOutputPorts(Some(3)), 3);
    assert_eq!(AMidiInputPort_send(None), -1);
    assert_eq!(AMidiInputPort_send(Some(12)), 12);
    assert_eq!(
        AMidiOutputPort_receive(None, true),
        Received {
            messages: -1,
            bytes: Some(0)
        }
    );
}

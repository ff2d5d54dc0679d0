//! The messages that the Java side sends.

use vstd::prelude::*;

verus! {

/// What a finger does.
#[derive(Clone, Copy, PartialEq, Eq, Structural, Debug)]
pub enum TouchState {
    Start,
    Stop,
    Move,
    Stable,
}

/// A finger. Places and times are the bits of double-precision numbers.
#[derive(Clone, Copy, PartialEq, Eq, Structural, Debug)]
pub struct TouchPoint {
    pub state: TouchState,
    pub uid: u64,
    pub x: u64,
    pub y: u64,
    pub radius_x: u64,
    pub radius_y: u64,
    pub time: u64,
}

/// A hardware buffer with a frame of a video.
#[derive(Clone, Copy, PartialEq, Eq, Structural, Debug)]
pub struct HardwareBufferFrame {
    pub video_id: u64,
    pub width: u32,
    pub height: u32,
    pub position_ms: u128,
    pub frame_sequence: u64,
    pub timestamp_ns: u64,
    /// The buffer itself, by its address.
    pub hardware_buffer: u64,
}

/// A message of the Java side. Windows, buffers and other objects are addresses or
/// numbers; places and times are the bits of double-precision numbers.
pub enum FromJavaMessage {
    SurfaceCreated { window: u64 },
    /// `ack` is what the sender waits for.
    SurfaceDestroyed { ack: u64 },
    SurfaceChanged { window: u64, width: i32, height: i32 },
    SafeAreaInsets { top: u64, right: u64, bottom: u64, left: u64 },
    BackPressed,
    LongClick { x: u64, y: u64, pointer_id: u64, time: u64 },
    Touch(Vec<TouchPoint>),
    Character { character: u32 },
    KeyDown { keycode: u32, meta_state: u32 },
    KeyUp { keycode: u32, meta_state: u32 },
    ResizeTextIME { keyboard_height: u32, is_open: bool },
    ClipboardAction { action: String },
    ClipboardPaste { content: String },
    SelectionHandleDrag { handle: u32, phase: u32, x: u64, y: u64, time: u64 },
    ImeTextStateChanged {
        full_text: String,
        selection_start: i32,
        selection_end: i32,
        composing_start: i32,
        composing_end: i32,
    },
    ImeEditorAction { action_code: i32 },
    HttpResponse {
        request_id: u64,
        metadata_id: u64,
        status_code: u16,
        headers: String,
        body: Vec<u8>,
    },
    HttpRequestError { request_id: u64, metadata_id: u64, error: String, url: String },
    WebSocketMessage { message: Vec<u8>, sender: u64 },
    WebSocketClosed { sender: u64 },
    WebSocketError { error: String, sender: u64 },
    MidiDeviceOpened { name: String, midi_device: u64 },
    PermissionResult { permission: String, request_id: i32, status: i32 },
    VideoPlaybackPrepared {
        video_id: u64,
        video_width: u32,
        video_height: u32,
        duration: u128,
        surface_texture: u64,
    },
    VideoPlaybackMetadata { video_id: u64, metadata_json: String },
    VideoYuvFrame {
        video_id: u64,
        width: u32,
        height: u32,
        position_ms: u128,
        y: Vec<u8>,
        u: Vec<u8>,
        v: Vec<u8>,
    },
    VideoHardwareBufferFrame(HardwareBufferFrame),
    VideoHardwareBufferStereoFrame {
        left: HardwareBufferFrame,
        right: HardwareBufferFrame,
        pair_delta_ns: u64,
        pair_index: u64,
    },
    VideoHardwareBufferStereoFrameReady { pair_index: u64 },
    VideoPlaybackCompleted { video_id: u64 },
    VideoPlayerReleased { video_id: u64 },
    VideoDecodingError { video_id: u64, error: String },
    CameraPreviewSurfaceReady { video_id: u64, window: u64, width: i32, height: i32 },
    CameraPreviewSurfaceDestroyed { video_id: u64 },
    SwitchedActivity { activity: u64, thread_id: u64 },
    RenderLoop,
    Pause,
    Resume,
    Start,
    Stop,
    Destroy,
    WindowFocusChanged { has_focus: bool },
    Init { parameters: u64 },
}

/// What a message is about.
#[derive(Clone, Copy, PartialEq, Eq, Structural, Debug)]
pub enum MessageGroup {
    Surface,
    Input,
    Network,
    Video,
    Lifecycle,
}

impl FromJavaMessage {
    /// What the message is about.
    pub open spec fn group(&self) -> MessageGroup {
        match self {
            FromJavaMessage::SurfaceCreated { .. }
            | FromJavaMessage::SurfaceDestroyed { .. }
            | FromJavaMessage::SurfaceChanged { .. }
            | FromJavaMessage::SafeAreaInsets { .. } => MessageGroup::Surface,
            FromJavaMessage::BackPressed
            | FromJavaMessage::LongClick { .. }
            | FromJavaMessage::Touch(_)
            | FromJavaMessage::Character { .. }
            | FromJavaMessage::KeyDown { .. }
            | FromJavaMessage::KeyUp { .. }
            | FromJavaMessage::ResizeTextIME { .. }
            | FromJavaMessage::ClipboardAction { .. }
            | FromJavaMessage::ClipboardPaste { .. }
            | FromJavaMessage::SelectionHandleDrag { .. }
            | FromJavaMessage::ImeTextStateChanged { .. }
            | FromJavaMessage::ImeEditorAction { .. } => MessageGroup::Input,
            FromJavaMessage::HttpResponse { .. }
            | FromJavaMessage::HttpRequestError { .. }
            | FromJavaMessage::WebSocketMessage { .. }
            | FromJavaMessage::WebSocketClosed { .. }
            | FromJavaMessage::WebSocketError { .. }
            | FromJavaMessage::MidiDeviceOpened { .. }
            | FromJavaMessage::PermissionResult { .. } => MessageGroup::Network,
            FromJavaMessage::VideoPlaybackPrepared { .. }
            | FromJavaMessage::VideoPlaybackMetadata { .. }
            | FromJavaMessage::VideoYuvFrame { .. }
            | FromJavaMessage::VideoHardwareBufferFrame(_)
            | FromJavaMessage::VideoHardwareBufferStereoFrame { .. }
            | FromJavaMessage::VideoHardwareBufferStereoFrameReady { .. }
            | FromJavaMessage::VideoPlaybackCompleted { .. }
            | FromJavaMessage::VideoPlayerReleased { .. }
            | FromJavaMessage::VideoDecodingError { .. }
            | FromJavaMessage::CameraPreviewSurfaceReady { .. }
            | FromJavaMessage::CameraPreviewSurfaceDestroyed { .. } => MessageGroup::Video,
            _ => MessageGroup::Lifecycle,
        }
    }

    /// Whether the message is about the surface.
    pub fn is_android_surface_message(&self) -> (is: bool)
        ensures
            is == (self.group() == MessageGroup::Surface),
    {
        match self {
            FromJavaMessage::SurfaceCreated { .. }
            | FromJavaMessage::SurfaceDestroyed { .. }
            | FromJavaMessage::SurfaceChanged { .. }
            | FromJavaMessage::SafeAreaInsets { .. } => true,
            _ => false,
        }
    }

    /// Whether the message is about input.
    pub fn is_android_input_message(&self) -> (is: bool)
        ensures
            is == (self.group() == MessageGroup::Input),
    {
        match self {
            FromJavaMessage::BackPressed
            | FromJavaMessage::LongClick { .. }
            | FromJavaMessage::Touch(_)
            | FromJavaMessage::Character { .. }
            | FromJavaMessage::KeyDown { .. }
            | FromJavaMessage::KeyUp { .. }
            | FromJavaMessage::ResizeTextIME { .. }
            | FromJavaMessage::ClipboardAction { .. }
            | FromJavaMessage::ClipboardPaste { .. }
            | FromJavaMessage::SelectionHandleDrag { .. }
            | FromJavaMessage::ImeTextStateChanged { .. }
            | FromJavaMessage::ImeEditorAction { .. } => true,
            _ => false,
        }
    }

    /// Whether the message is about the network, devices or permissions.
    pub fn is_android_network_message(&self) -> (is: bool)
        ensures
            is == (self.group() == MessageGroup::Network),
    {
        match self {
            FromJavaMessage::HttpResponse { .. }
            | FromJavaMessage::HttpRequestError { .. }
            | FromJavaMessage::WebSocketMessage { .. }
            | FromJavaMessage::WebSocketClosed { .. }
            | FromJavaMessage::WebSocketError { .. }
            | FromJavaMessage::MidiDeviceOpened { .. }
            | FromJavaMessage::PermissionResult { .. } => true,
            _ => false,
        }
    }

    /// Whether the message is about video.
    pub fn is_android_video_message(&self) -> (is: bool)
        ensures
            is == (self.group() == MessageGroup::Video),
    {
        match self {
            FromJavaMessage::VideoPlaybackPrepared { .. }
            | FromJavaMessage::VideoPlaybackMetadata { .. }
            | FromJavaMessage::VideoYuvFrame { .. }
            | FromJavaMessage::VideoHardwareBufferFrame(_)
            | FromJavaMessage::VideoHardwareBufferStereoFrame { .. }
            | FromJavaMessage::VideoHardwareBufferStereoFrameReady { .. }
            | FromJavaMessage::VideoPlaybackCompleted { .. }
            | FromJavaMessage::VideoPlayerReleased { .. }
            | FromJavaMessage::VideoDecodingError { .. }
            | FromJavaMessage::CameraPreviewSurfaceReady { .. }
            | FromJavaMessage::CameraPreviewSurfaceDestroyed { .. } => true,
            _ => false,
        }
    }

    /// Finds what the message is about.
    pub fn handle_message(&self) -> (group: MessageGroup)
        ensures
            group == self.group(),
    {
        if self.is_android_surface_message() {
            MessageGroup::Surface
        } else if self.is_android_input_message() {
            MessageGroup::Input
        } else if self.is_android_network_message() {
            MessageGroup::Network
        } else if self.is_android_video_message() {
            MessageGroup::Video
        } else {
            MessageGroup::Lifecycle
        }
    }

    /// A touch in which every finger moves.
    pub open spec fn pure_touch_move(&self) -> bool {
        match self {
            FromJavaMessage::Touch(touches) => forall|i: int|
                0 <= i < touches@.len() ==> (#[trigger] touches@[i]).state == TouchState::Move,
            _ => false,
        }
    }

    /// Whether the message is a touch in which every finger moves.
    pub fn is_pure_touch_move_message(&self) -> (is: bool)
        ensures
            is == self.pure_touch_move(),
    {
        match self {
            FromJavaMessage::Touch(touches) => {
                let mut i: usize = 0;
                while i < touches.len()
                    invariant
                        i <= touches@.len(),
                        *self == FromJavaMessage::Touch(*touches),
                        forall|j: int|
                            0 <= j < i ==> (#[trigger] touches@[j]).state == TouchState::Move,
                    decreases touches@.len() - i,
                {
                    if touches[i].state != TouchState::Move {
                        assert(touches@[i as int].state != TouchState::Move);
                        return false;
                    }
                    i = i + 1;
                }
                true
            },
            _ => false,
        }
    }

    /// A frame for both eyes, or the notice that there is one.
    pub open spec fn stereo_frame(&self) -> bool {
        self is VideoHardwareBufferStereoFrame || self is VideoHardwareBufferStereoFrameReady
    }

    /// Whether the message is a frame for both eyes, or the notice that there is one.
    pub fn is_video_hardware_buffer_stereo_frame_message(&self) -> (is: bool)
        ensures
            is == self.stereo_frame(),
    {
        match self {
            FromJavaMessage::VideoHardwareBufferStereoFrame { .. }
            | FromJavaMessage::VideoHardwareBufferStereoFrameReady { .. } => true,
            _ => false,
        }
    }

    /// The buffers of a frame for both eyes.
    pub open spec fn stereo_buffers(&self) -> Seq<u64> {
        match self {
            FromJavaMessage::VideoHardwareBufferStereoFrame { left, right, .. } => seq![
                left.hardware_buffer,
                right.hardware_buffer,
            ],
            _ => seq![],
        }
    }

    /// The buffers that are released of a frame that is dropped.
    pub fn release_coalesced_video_hardware_buffer_stereo_message(&self) -> (buffers: Vec<u64>)
        ensures
            buffers@ == self.stereo_buffers(),
    {
        match self {
            FromJavaMessage::VideoHardwareBufferStereoFrame { left, right, .. } => {
                let buffers: Vec<u64> = vec![left.hardware_buffer, right.hardware_buffer];
                assert(buffers@ =~= self.stereo_buffers());
                buffers
            },
            _ => Vec::new(),
        }
    }
}

/// Only touches that all move are held back as a move: a finger that comes down, is lifted
/// or rests is never held back.
pub proof fn law_only_moves_are_held_back(touches: Vec<TouchPoint>, i: int)
    requires
        0 <= i < touches@.len(),
        !(touches@[i].state is Move),
    ensures
        !FromJavaMessage::Touch(touches).pure_touch_move(),
{
}

/// A move that is held back is a touch message of moves only, and each such is.
pub proof fn law_moves_are_touches(message: FromJavaMessage)
    ensures
        message.pure_touch_move() ==> message is Touch,
        message is Touch && (forall|i: int|
            0 <= i < message->Touch_0@.len() ==> (#[trigger] message->Touch_0@[i]).state is Move)
            ==> message.pure_touch_move(),
        message.stereo_frame() ==> message.group() is Video,
        message.pure_touch_move() ==> message.group() is Input,
        message is VideoHardwareBufferStereoFrame ==> message.stereo_frame()
            && message.stereo_buffers().len() == 2 && message.stereo_buffers()[0]
            == message->VideoHardwareBufferStereoFrame_left.hardware_buffer && message.stereo_buffers()[1]
            == message->VideoHardwareBufferStereoFrame_right.hardware_buffer,
        !(message is VideoHardwareBufferStereoFrame) ==> message.stereo_buffers().len() == 0,
{
}

/// Every message goes to those that handle it.
pub proof fn law_messages_go_to_their_group(message: FromJavaMessage)
    ensures
        message is Touch || message is KeyDown || message is KeyUp || message is Character
            || message is BackPressed || message is LongClick || message is ResizeTextIME
            || message is ClipboardPaste || message is ClipboardAction
            || message is SelectionHandleDrag || message is ImeTextStateChanged
            || message is ImeEditorAction ==> message.group() is Input,
        message is SurfaceCreated || message is SurfaceDestroyed || message is SurfaceChanged
            || message is SafeAreaInsets ==> message.group() is Surface,
        message is HttpResponse || message is HttpRequestError || message is WebSocketMessage
            || message is WebSocketClosed || message is WebSocketError
            || message is MidiDeviceOpened || message is PermissionResult ==> message.group()
            is Network,
        message is VideoPlaybackPrepared || message is VideoYuvFrame
            || message is VideoHardwareBufferFrame || message is VideoPlaybackCompleted
            || message is VideoPlayerReleased || message is VideoDecodingError
            || message is CameraPreviewSurfaceReady || message is CameraPreviewSurfaceDestroyed
            || message is VideoPlaybackMetadata ==> message.group() is Video,
        message is Pause || message is Resume || message is Start || message is Stop
            || message is Destroy || message is WindowFocusChanged || message is SwitchedActivity
            || message is RenderLoop || message is Init ==> message.group() is Lifecycle,
{
}

} // verus!

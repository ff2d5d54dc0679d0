//! What messages about video lead to.

use std::collections::{HashMap, HashSet};
use vstd::prelude::*;

use crate::android::messages::{FromJavaMessage, HardwareBufferFrame};
#[allow(unused_imports)]
use crate::android::messages::MessageGroup;
use crate::event::video_playback::{
    VideoDecodingErrorEvent, VideoPlaybackCompletedEvent, VideoPlaybackMetadataEvent,
    VideoPlaybackPreparedEvent, VideoPlaybackResourcesReleasedEvent, VideoSource,
    VideoTextureUpdateMetadata, VideoTextureUpdatedEvent, VideoYuvMetadata,
};
#[allow(unused_imports)]
use crate::event::video_playback::unknown_update;
use crate::float_bits::F32_ONE;
use crate::ids::{LiveId, TextureId};
use crate::text::decimal;
#[allow(unused_imports)]
use crate::text::decimal_text;

verus! {

/// How a video is played.
pub struct VideoConfig {
    pub texture_id: TextureId,
    pub tex_y_id: TextureId,
    pub tex_u_id: TextureId,
    pub tex_v_id: TextureId,
    pub source: VideoSource,
    pub autoplay: bool,
    pub should_loop: bool,
}

/// The videos that are known, each by its number. Surfaces and windows are addresses.
pub struct VideoState {
    /// Vulkan draws, else OpenGL.
    pub use_vulkan: bool,
    /// The Vulkan backend was started.
    pub has_vulkan: bool,
    pub configs: HashMap<u64, VideoConfig>,
    pub surfaces: HashMap<u64, u64>,
    pub software_players: HashSet<u64>,
    pub camera_players: HashSet<u64>,
    pub preview_windows: HashMap<u64, u64>,
}

/// Something that a message about video leads to.
pub enum VideoAction {
    Prepared(VideoPlaybackPreparedEvent),
    Metadata(VideoPlaybackMetadataEvent),
    /// Put the bytes of a plane into its texture.
    ReplacePlane { texture: TextureId, width: u32, height: u32, data: Vec<u8> },
    Updated(VideoTextureUpdatedEvent),
    /// Import a buffer into a texture, and report how that went.
    ImportBuffer { texture: TextureId, frame: HardwareBufferFrame },
    /// Import the buffers of both eyes, and report how that went.
    ImportStereo { left: HardwareBufferFrame, right: HardwareBufferFrame },
    ReleaseBuffer(u64),
    DecodingError(VideoDecodingErrorEvent),
    /// Handle the latest frame for both eyes, if there is one.
    HandleLatestStereo,
    Completed(VideoPlaybackCompletedEvent),
    ResourcesReleased(VideoPlaybackResourcesReleasedEvent),
    CleanupDecoder(u64),
    CleanupSoftwarePlayer(LiveId),
    StartSoftwarePlayer(LiveId),
    RedrawAll,
    /// A window of zero is none.
    SetPreviewWindow { video_id: LiveId, window: u64 },
    ReleaseWindow(u64),
}

/// Half of a side, rounded up, at least one.
pub open spec fn chroma_side(side: u32) -> u32 {
    if side == 0 {
        1
    } else {
        ((side + 1) / 2) as u32
    }
}

fn half_side(side: u32) -> (half: u32)
    ensures
        half == chroma_side(side),
{
    if side == 0 {
        1
    } else {
        side / 2 + side % 2
    }
}

/// A side, at least one.
pub open spec fn luma_side(side: u32) -> u32 {
    if side == 0 {
        1
    } else {
        side
    }
}

/// The event for a video that is ready.
pub open spec fn is_prepared_event(
    event: VideoPlaybackPreparedEvent,
    video_id: u64,
    video_width: u32,
    video_height: u32,
    duration: u128,
) -> bool {
    &&& event.video_id == LiveId(video_id)
    &&& event.video_width == video_width
    &&& event.video_height == video_height
    &&& event.duration == duration
    &&& event.is_seekable == (duration > 0)
    &&& if video_width > 0 && video_height > 0 {
        event.video_tracks@.len() == 1 && event.video_tracks@[0]@ == "video"@
    } else {
        event.video_tracks@.len() == 0
    }
    &&& event.audio_tracks@.len() == 1
    &&& event.audio_tracks@[0]@ == "audio"@
}

fn prepared_event(video_id: u64, video_width: u32, video_height: u32, duration: u128) -> (event:
    VideoPlaybackPreparedEvent)
    ensures
        is_prepared_event(event, video_id, video_width, video_height, duration),
{
    let mut video_tracks: Vec<String> = Vec::new();
    if video_width > 0 && video_height > 0 {
        video_tracks.push("video".to_owned());
    }
    let mut audio_tracks: Vec<String> = Vec::new();
    audio_tracks.push("audio".to_owned());
    VideoPlaybackPreparedEvent {
        video_id: LiveId(video_id),
        video_width,
        video_height,
        duration,
        is_seekable: duration > 0,
        video_tracks,
        audio_tracks,
    }
}

/// The planes of a frame are read with the matrix of BT.601.
pub open spec fn plane_yuv() -> VideoYuvMetadata {
    VideoYuvMetadata { enabled: true, matrix: F32_ONE, biplanar: false, rotation_steps: 0 }
}

/// What the planes of a frame lead to.
pub open spec fn is_plane_update(
    actions: Seq<VideoAction>,
    config: VideoConfig,
    message: FromJavaMessage,
) -> bool {
    message matches FromJavaMessage::VideoYuvFrame { video_id, width, height, position_ms, y, u, v }
        && actions =~= seq![
        VideoAction::ReplacePlane {
            texture: config.tex_y_id,
            width: luma_side(width),
            height: luma_side(height),
            data: y,
        },
        VideoAction::ReplacePlane {
            texture: config.tex_u_id,
            width: chroma_side(width),
            height: chroma_side(height),
            data: u,
        },
        VideoAction::ReplacePlane {
            texture: config.tex_v_id,
            width: chroma_side(width),
            height: chroma_side(height),
            data: v,
        },
        VideoAction::Updated(
            VideoTextureUpdatedEvent {
                video_id: LiveId(video_id),
                current_position_ms: position_ms,
                yuv: plane_yuv(),
                metadata: unknown_update(),
            },
        ),
    ]
}

/// The action is an error of the video with the text.
pub open spec fn is_error(action: VideoAction, video_id: u64, text: Seq<char>) -> bool {
    action matches VideoAction::DecodingError(event) && event.video_id == LiveId(video_id)
        && event.error@ == text
}

fn error_action(video_id: u64, error: String) -> (action: VideoAction)
    ensures
        is_error(action, video_id, error@),
{
    VideoAction::DecodingError(VideoDecodingErrorEvent { video_id: LiveId(video_id), error })
}

/// Why a buffer cannot be imported, if so.
pub open spec fn import_refusal(state: VideoState, video_id: u64) -> Option<Seq<char>> {
    if !state.configs@.dom().contains(video_id) {
        Some(
            "Android broker H.264 hardware-buffer frame for unknown video_id="@ + decimal_text(
                video_id as nat,
            ),
        )
    } else if !state.has_vulkan {
        Some("Android broker H.264 hardware-buffer texture requested without Vulkan backend"@)
    } else {
        None
    }
}

/// What a buffer leads to. It is released whatever happens; one that is imported is
/// released when the import is reported.
pub open spec fn is_buffer_start(
    actions: Seq<VideoAction>,
    state: VideoState,
    frame: HardwareBufferFrame,
) -> bool {
    if !state.use_vulkan {
        &&& actions.len() == 2
        &&& actions[0] == VideoAction::ReleaseBuffer(frame.hardware_buffer)
        &&& is_error(
            actions[1],
            frame.video_id,
            "Android broker H.264 hardware-buffer texture requires Vulkan backend"@,
        )
    } else {
        match import_refusal(state, frame.video_id) {
            Some(text) => {
                &&& actions.len() == 2
                &&& is_error(actions[0], frame.video_id, text)
                &&& actions[1] == VideoAction::ReleaseBuffer(frame.hardware_buffer)
            },
            None => actions =~= seq![
                VideoAction::ImportBuffer {
                    texture: state.configs@[frame.video_id].texture_id,
                    frame,
                },
            ],
        }
    }
}

/// What the buffers of both eyes lead to.
pub open spec fn is_stereo_start(
    actions: Seq<VideoAction>,
    use_vulkan: bool,
    left: HardwareBufferFrame,
    right: HardwareBufferFrame,
) -> bool {
    if use_vulkan {
        actions =~= seq![VideoAction::ImportStereo { left, right }]
    } else {
        let text =
            "Android broker H.264 stereo hardware-buffer texture requires Vulkan backend"@;
        &&& actions.len() == 4
        &&& actions[0] == VideoAction::ReleaseBuffer(left.hardware_buffer)
        &&& actions[1] == VideoAction::ReleaseBuffer(right.hardware_buffer)
        &&& is_error(actions[2], left.video_id, text)
        &&& is_error(actions[3], right.video_id, text)
    }
}

/// What the release of a video leads to.
pub open spec fn released_actions(state: VideoState, video_id: u64) -> Seq<VideoAction> {
    (if state.surfaces@.dom().contains(video_id) {
        seq![VideoAction::CleanupDecoder(state.surfaces@[video_id])]
    } else {
        seq![]
    }) + (if state.software_players@.contains(video_id) {
        seq![VideoAction::CleanupSoftwarePlayer(LiveId(video_id))]
    } else {
        seq![]
    }) + seq![
        VideoAction::ResourcesReleased(
            VideoPlaybackResourcesReleasedEvent { video_id: LiveId(video_id) },
        ),
    ]
}

/// A video that cannot be decoded is decoded in software instead: it is known, its
/// source allows it, it is not decoded in software yet, and nothing forbids it.
pub open spec fn falls_back(state: VideoState, video_id: u64, force_native: bool) -> bool {
    &&& !force_native
    &&& !state.software_players@.contains(video_id)
    &&& state.configs@.dom().contains(video_id)
    &&& state.configs@[video_id].source.has_software_fallback()
}

/// What the window of a preview leads to.
pub open spec fn preview_ready_actions(state: VideoState, video_id: u64, window: u64) -> Seq<
    VideoAction,
> {
    if state.camera_players@.contains(video_id) {
        seq![VideoAction::SetPreviewWindow { video_id: LiveId(video_id), window }]
    } else if state.preview_windows@.dom().contains(video_id) {
        seq![VideoAction::ReleaseWindow(state.preview_windows@[video_id])]
    } else {
        seq![]
    }
}

/// What the end of a preview's window leads to.
pub open spec fn preview_destroyed_actions(state: VideoState, video_id: u64) -> Seq<VideoAction> {
    (if state.camera_players@.contains(video_id) {
        seq![VideoAction::SetPreviewWindow { video_id: LiveId(video_id), window: 0 }]
    } else {
        seq![]
    }) + (if state.preview_windows@.dom().contains(video_id) {
        seq![VideoAction::ReleaseWindow(state.preview_windows@[video_id])]
    } else {
        seq![]
    })
}

/// What a message about video leads to.
pub open spec fn video_step_actions(
    state: VideoState,
    message: FromJavaMessage,
    force_native: bool,
    actions: Seq<VideoAction>,
) -> bool {
    match message {
        FromJavaMessage::VideoPlaybackPrepared {
            video_id,
            video_width,
            video_height,
            duration,
            surface_texture,
        } => {
            &&& actions.len() == 1
            &&& actions[0] matches VideoAction::Prepared(event) && is_prepared_event(
                event,
                video_id,
                video_width,
                video_height,
                duration,
            )
        },
        FromJavaMessage::VideoPlaybackMetadata { video_id, metadata_json } => actions =~= seq![
            VideoAction::Metadata(
                VideoPlaybackMetadataEvent { video_id: LiveId(video_id), metadata_json },
            ),
        ],
        FromJavaMessage::VideoYuvFrame { video_id, width, height, position_ms, y, u, v } => if state.configs@.dom().contains(
        video_id) {
            is_plane_update(actions, state.configs@[video_id], message)
        } else {
            actions.len() == 0
        },
        FromJavaMessage::VideoHardwareBufferFrame(frame) => is_buffer_start(actions, state, frame),
        FromJavaMessage::VideoHardwareBufferStereoFrame { left, right, pair_delta_ns, pair_index } => is_stereo_start(
            actions,
            state.use_vulkan,
            left,
            right,
        ),
        FromJavaMessage::VideoHardwareBufferStereoFrameReady { pair_index } => actions =~= seq![
            VideoAction::HandleLatestStereo,
        ],
        FromJavaMessage::VideoPlaybackCompleted { video_id } => actions =~= seq![
            VideoAction::Completed(VideoPlaybackCompletedEvent { video_id: LiveId(video_id) }),
        ],
        FromJavaMessage::VideoPlayerReleased { video_id } => actions =~= released_actions(
            state,
            video_id,
        ),
        FromJavaMessage::VideoDecodingError { video_id, error } => if falls_back(
            state,
            video_id,
            force_native,
        ) {
            actions =~= seq![
                VideoAction::StartSoftwarePlayer(LiveId(video_id)),
                VideoAction::RedrawAll,
            ]
        } else {
            actions.len() == 1 && is_error(actions[0], video_id, error@)
        },
        FromJavaMessage::CameraPreviewSurfaceReady { video_id, window, width, height } => actions
            =~= preview_ready_actions(state, video_id, window),
        FromJavaMessage::CameraPreviewSurfaceDestroyed { video_id } => actions
            =~= preview_destroyed_actions(state, video_id),
        _ => actions.len() == 0,
    }
}

/// What is known after a message about video.
pub open spec fn video_step_state(
    before: VideoState,
    message: FromJavaMessage,
    force_native: bool,
    after: VideoState,
) -> bool {
    &&& after.use_vulkan == before.use_vulkan
    &&& after.has_vulkan == before.has_vulkan
    &&& after.camera_players@ =~= before.camera_players@
    &&& after.configs@ =~= (match message {
        FromJavaMessage::VideoPlayerReleased { video_id } => before.configs@.remove(video_id),
        _ => before.configs@,
    })
    &&& after.surfaces@ =~= (match message {
        FromJavaMessage::VideoPlaybackPrepared { video_id, surface_texture, .. } => if surface_texture
            != 0 {
            before.surfaces@.insert(video_id, surface_texture)
        } else {
            before.surfaces@
        },
        FromJavaMessage::VideoPlayerReleased { video_id } => before.surfaces@.remove(video_id),
        _ => before.surfaces@,
    })
    &&& after.software_players@ =~= (match message {
        FromJavaMessage::VideoPlayerReleased { video_id } => before.software_players@.remove(
            video_id,
        ),
        FromJavaMessage::VideoDecodingError { video_id, .. } => if falls_back(
            before,
            video_id,
            force_native,
        ) {
            before.software_players@.insert(video_id)
        } else {
            before.software_players@
        },
        _ => before.software_players@,
    })
    &&& after.preview_windows@ =~= (match message {
        FromJavaMessage::CameraPreviewSurfaceReady { video_id, window, .. } => if before.camera_players@.contains(
        video_id) {
            before.preview_windows@
        } else {
            before.preview_windows@.insert(video_id, window)
        },
        FromJavaMessage::CameraPreviewSurfaceDestroyed { video_id } => before.preview_windows@.remove(
            video_id,
        ),
        _ => before.preview_windows@,
    })
}

impl VideoState {
    /// No video is known.
    pub fn new(use_vulkan: bool) -> (state: VideoState)
        ensures
            state.use_vulkan == use_vulkan,
            !state.has_vulkan,
            state.configs@ == Map::<u64, VideoConfig>::empty(),
            state.surfaces@ == Map::<u64, u64>::empty(),
            state.software_players@ == Set::<u64>::empty(),
            state.camera_players@ == Set::<u64>::empty(),
            state.preview_windows@ == Map::<u64, u64>::empty(),
    {
        broadcast use vstd::std_specs::hash::group_hash_axioms;

        VideoState {
            use_vulkan,
            has_vulkan: false,
            configs: HashMap::new(),
            surfaces: HashMap::new(),
            software_players: HashSet::new(),
            camera_players: HashSet::new(),
            preview_windows: HashMap::new(),
        }
    }

    /// Notes whether there is a Vulkan backend.
    pub fn backend_reported(&mut self, has_vulkan: bool)
        ensures
            *final(self) == (VideoState { has_vulkan, ..*old(self) }),
    {
        self.has_vulkan = has_vulkan;
    }

    /// The texture that a frame's buffer is imported to, or why it cannot be imported.
    pub fn plan_import(&self, frame: HardwareBufferFrame) -> (texture: Result<TextureId, String>)
        ensures
            match import_refusal(*self, frame.video_id) {
                Some(text) => texture matches Err(error) && error@ == text,
                None => texture == Ok::<TextureId, String>(
                    self.configs@[frame.video_id].texture_id,
                ),
            },
    {
        broadcast use vstd::std_specs::hash::group_hash_axioms;

        match self.configs.get(&frame.video_id) {
            None => {
                let mut error: String =
                    "Android broker H.264 hardware-buffer frame for unknown video_id=".to_owned();
                let number: String = decimal(frame.video_id);
                error.append(number.as_str());
                Err(error)
            },
            Some(config) => {
                if self.has_vulkan {
                    Ok(config.texture_id)
                } else {
                    Err(
                        "Android broker H.264 hardware-buffer texture requested without Vulkan backend".to_owned(),
                    )
                }
            },
        }
    }

    fn start_buffer(&self, frame: HardwareBufferFrame) -> (actions: Vec<VideoAction>)
        ensures
            is_buffer_start(actions@, *self, frame),
    {
        broadcast use vstd::std_specs::hash::group_hash_axioms;

        let mut actions: Vec<VideoAction> = Vec::new();
        if !self.use_vulkan {
            actions.push(VideoAction::ReleaseBuffer(frame.hardware_buffer));
            actions.push(
                error_action(
                    frame.video_id,
                    "Android broker H.264 hardware-buffer texture requires Vulkan backend".to_owned(),
                ),
            );
            return actions;
        }
        match self.plan_import(frame) {
            Err(error) => {
                actions.push(error_action(frame.video_id, error));
                actions.push(VideoAction::ReleaseBuffer(frame.hardware_buffer));
            },
            Ok(texture) => {
                actions.push(VideoAction::ImportBuffer { texture, frame });
            },
        }
        actions
    }

    fn start_stereo(&self, left: HardwareBufferFrame, right: HardwareBufferFrame) -> (actions: Vec<
        VideoAction,
    >)
        ensures
            is_stereo_start(actions@, self.use_vulkan, left, right),
    {
        let mut actions: Vec<VideoAction> = Vec::new();
        if self.use_vulkan {
            actions.push(VideoAction::ImportStereo { left, right });
        } else {
            actions.push(VideoAction::ReleaseBuffer(left.hardware_buffer));
            actions.push(VideoAction::ReleaseBuffer(right.hardware_buffer));
            actions.push(
                error_action(
                    left.video_id,
                    "Android broker H.264 stereo hardware-buffer texture requires Vulkan backend".to_owned(),
                ),
            );
            actions.push(
                error_action(
                    right.video_id,
                    "Android broker H.264 stereo hardware-buffer texture requires Vulkan backend".to_owned(),
                ),
            );
        }
        actions
    }

    fn release_video(&mut self, video_id: u64) -> (actions: Vec<VideoAction>)
        ensures
            actions@ =~= released_actions(*old(self), video_id),
            final(self).use_vulkan == old(self).use_vulkan,
            final(self).has_vulkan == old(self).has_vulkan,
            final(self).configs@ =~= old(self).configs@.remove(video_id),
            final(self).surfaces@ =~= old(self).surfaces@.remove(video_id),
            final(self).software_players@ =~= old(self).software_players@.remove(video_id),
            final(self).camera_players@ =~= old(self).camera_players@,
            final(self).preview_windows@ =~= old(self).preview_windows@,
    {
        broadcast use vstd::std_specs::hash::group_hash_axioms;

        let mut actions: Vec<VideoAction> = Vec::new();
        match self.surfaces.remove(&video_id) {
            Some(surface) => {
                actions.push(VideoAction::CleanupDecoder(surface));
            },
            None => {},
        }
        if self.software_players.contains(&video_id) {
            actions.push(VideoAction::CleanupSoftwarePlayer(LiveId(video_id)));
        }
        self.software_players.remove(&video_id);
        self.configs.remove(&video_id);
        actions.push(
            VideoAction::ResourcesReleased(
                VideoPlaybackResourcesReleasedEvent { video_id: LiveId(video_id) },
            ),
        );
        actions
    }

    fn start_fallback(&mut self, video_id: u64, force_native: bool) -> (started: bool)
        ensures
            started == falls_back(*old(self), video_id, force_native),
            final(self).use_vulkan == old(self).use_vulkan,
            final(self).has_vulkan == old(self).has_vulkan,
            final(self).configs@ == old(self).configs@,
            final(self).surfaces@ == old(self).surfaces@,
            final(self).software_players@ == (if started {
                old(self).software_players@.insert(video_id)
            } else {
                old(self).software_players@
            }),
            final(self).camera_players@ == old(self).camera_players@,
            final(self).preview_windows@ == old(self).preview_windows@,
    {
        broadcast use vstd::std_specs::hash::group_hash_axioms;

        if force_native || self.software_players.contains(&video_id) {
            return false;
        }
        let possible: bool = match self.configs.get(&video_id) {
            Some(config) => config.source.supports_software_fallback(),
            None => false,
        };
        if possible {
            self.software_players.insert(video_id);
        }
        possible
    }

    fn preview_ready(&mut self, video_id: u64, window: u64) -> (actions: Vec<VideoAction>)
        ensures
            actions@ =~= preview_ready_actions(*old(self), video_id, window),
            final(self).use_vulkan == old(self).use_vulkan,
            final(self).has_vulkan == old(self).has_vulkan,
            final(self).configs@ == old(self).configs@,
            final(self).surfaces@ == old(self).surfaces@,
            final(self).software_players@ == old(self).software_players@,
            final(self).camera_players@ == old(self).camera_players@,
            final(self).preview_windows@ == (if old(self).camera_players@.contains(video_id) {
                old(self).preview_windows@
            } else {
                old(self).preview_windows@.insert(video_id, window)
            }),
    {
        broadcast use vstd::std_specs::hash::group_hash_axioms;

        let mut actions: Vec<VideoAction> = Vec::new();
        if self.camera_players.contains(&video_id) {
            actions.push(VideoAction::SetPreviewWindow { video_id: LiveId(video_id), window });
        } else {
            match self.preview_windows.insert(video_id, window) {
                Some(replaced) => {
                    actions.push(VideoAction::ReleaseWindow(replaced));
                },
                None => {},
            }
        }
        actions
    }

    fn preview_destroyed(&mut self, video_id: u64) -> (actions: Vec<VideoAction>)
        ensures
            actions@ =~= preview_destroyed_actions(*old(self), video_id),
            final(self).use_vulkan == old(self).use_vulkan,
            final(self).has_vulkan == old(self).has_vulkan,
            final(self).configs@ == old(self).configs@,
            final(self).surfaces@ == old(self).surfaces@,
            final(self).software_players@ == old(self).software_players@,
            final(self).camera_players@ == old(self).camera_players@,
            final(self).preview_windows@ == old(self).preview_windows@.remove(video_id),
    {
        broadcast use vstd::std_specs::hash::group_hash_axioms;

        let mut actions: Vec<VideoAction> = Vec::new();
        if self.camera_players.contains(&video_id) {
            actions.push(VideoAction::SetPreviewWindow { video_id: LiveId(video_id), window: 0 });
        }
        match self.preview_windows.remove(&video_id) {
            Some(window) => {
                actions.push(VideoAction::ReleaseWindow(window));
            },
            None => {},
        }
        actions
    }

    /// Takes a message about video, and says what it leads to, in order. `force_native`
    /// forbids to decode in software.
    pub fn handle_android_video_message(
        &mut self,
        message: FromJavaMessage,
        force_native: bool,
    ) -> (actions: Vec<VideoAction>)
        requires
            message.group() == MessageGroup::Video,
        ensures
            video_step_actions(*old(self), message, force_native, actions@),
            video_step_state(*old(self), message, force_native, *final(self)),
    {
        broadcast use vstd::std_specs::hash::group_hash_axioms;

        let mut actions: Vec<VideoAction> = Vec::new();
        match message {
            FromJavaMessage::VideoPlaybackPrepared {
                video_id,
                video_width,
                video_height,
                duration,
                surface_texture,
            } => {
                if surface_texture != 0 {
                    self.surfaces.insert(video_id, surface_texture);
                }
                actions.push(
                    VideoAction::Prepared(
                        prepared_event(video_id, video_width, video_height, duration),
                    ),
                );
            },
            FromJavaMessage::VideoPlaybackMetadata { video_id, metadata_json } => {
                actions.push(
                    VideoAction::Metadata(
                        VideoPlaybackMetadataEvent { video_id: LiveId(video_id), metadata_json },
                    ),
                );
            },
            FromJavaMessage::VideoYuvFrame { video_id, width, height, position_ms, y, u, v } => {
                match self.configs.get(&video_id) {
                    Some(config) => {
                        actions.push(
                            VideoAction::ReplacePlane {
                                texture: config.tex_y_id,
                                width: if width == 0 {
                                    1
                                } else {
                                    width
                                },
                                height: if height == 0 {
                                    1
                                } else {
                                    height
                                },
                                data: y,
                            },
                        );
                        actions.push(
                            VideoAction::ReplacePlane {
                                texture: config.tex_u_id,
                                width: half_side(width),
                                height: half_side(height),
                                data: u,
                            },
                        );
                        actions.push(
                            VideoAction::ReplacePlane {
                                texture: config.tex_v_id,
                                width: half_side(width),
                                height: half_side(height),
                                data: v,
                            },
                        );
                        actions.push(
                            VideoAction::Updated(
                                VideoTextureUpdatedEvent {
                                    video_id: LiveId(video_id),
                                    current_position_ms: position_ms,
                                    yuv: VideoYuvMetadata {
                                        enabled: true,
                                        matrix: F32_ONE,
                                        biplanar: false,
                                        rotation_steps: 0,
                                    },
                                    metadata: VideoTextureUpdateMetadata::default(),
                                },
                            ),
                        );
                    },
                    None => {},
                }
            },
            FromJavaMessage::VideoHardwareBufferFrame(frame) => {
                actions = self.start_buffer(frame);
            },
            FromJavaMessage::VideoHardwareBufferStereoFrame {
                left,
                right,
                pair_delta_ns: _,
                pair_index: _,
            } => {
                actions = self.start_stereo(left, right);
            },
            FromJavaMessage::VideoHardwareBufferStereoFrameReady { pair_index: _ } => {
                actions.push(VideoAction::HandleLatestStereo);
            },
            FromJavaMessage::VideoPlaybackCompleted { video_id } => {
                actions.push(
                    VideoAction::Completed(
                        VideoPlaybackCompletedEvent { video_id: LiveId(video_id) },
                    ),
                );
            },
            FromJavaMessage::VideoPlayerReleased { video_id } => {
                actions = self.release_video(video_id);
            },
            FromJavaMessage::VideoDecodingError { video_id, error } => {
                if self.start_fallback(video_id, force_native) {
                    actions.push(VideoAction::StartSoftwarePlayer(LiveId(video_id)));
                    actions.push(VideoAction::RedrawAll);
                } else {
                    actions.push(error_action(video_id, error));
                }
            },
            FromJavaMessage::CameraPreviewSurfaceReady { video_id, window, width: _, height: _ } => {
                actions = self.preview_ready(video_id, window);
            },
            FromJavaMessage::CameraPreviewSurfaceDestroyed { video_id } => {
                actions = self.preview_destroyed(video_id);
            },
            _ => {},
        }
        actions
    }
}

/// A buffer that was imported: how the shader reads it, and what is known of it.
pub struct ImportedBuffer {
    pub yuv: VideoYuvMetadata,
    pub metadata: VideoTextureUpdateMetadata,
}

/// The metadata of a frame whose buffer was imported. A frame without a number counts
/// as the first, one without a time as taken at `now`.
pub open spec fn frame_metadata(
    metadata: VideoTextureUpdateMetadata,
    frame: HardwareBufferFrame,
    now: u64,
    import_time: u64,
) -> VideoTextureUpdateMetadata {
    let sequence = if frame.frame_sequence == 0 {
        1
    } else {
        frame.frame_sequence
    };
    VideoTextureUpdateMetadata {
        camera_frame_sequence: Some(sequence),
        camera_timestamp_ns: Some(
            if frame.timestamp_ns > 0 {
                frame.timestamp_ns
            } else {
                now
            },
        ),
        acquire_time_ns: None,
        import_sequence: Some(sequence),
        import_time_ns: Some(import_time),
        texture_update_sequence: Some(sequence),
        ..metadata
    }
}

/// What the import of a buffer leads to: the update or the error is reported, then the
/// buffer is released.
pub open spec fn is_buffer_end(
    actions: Seq<VideoAction>,
    frame: HardwareBufferFrame,
    result: Result<ImportedBuffer, String>,
    now: u64,
    import_time: u64,
) -> bool {
    &&& actions.len() == 2
    &&& actions[1] == VideoAction::ReleaseBuffer(frame.hardware_buffer)
    &&& match result {
        Ok(imported) => actions[0] == VideoAction::Updated(
            VideoTextureUpdatedEvent {
                video_id: LiveId(frame.video_id),
                current_position_ms: frame.position_ms,
                yuv: imported.yuv,
                metadata: frame_metadata(imported.metadata, frame, now, import_time),
            },
        ),
        Err(error) => is_error(actions[0], frame.video_id, error@),
    }
}

fn describe_frame(
    metadata: VideoTextureUpdateMetadata,
    frame: HardwareBufferFrame,
    now: u64,
    import_time: u64,
) -> (described: VideoTextureUpdateMetadata)
    ensures
        described == frame_metadata(metadata, frame, now, import_time),
{
    let sequence: u64 = if frame.frame_sequence == 0 {
        1
    } else {
        frame.frame_sequence
    };
    let timestamp: u64 = if frame.timestamp_ns > 0 {
        frame.timestamp_ns
    } else {
        now
    };
    metadata.with_camera_frame(sequence, timestamp, None).with_hardware_buffer_import(
        sequence,
        import_time,
    )
}

/// What the import of an eye's buffer comes to: its metadata are those of the frame.
pub fn eye_imported(
    frame: HardwareBufferFrame,
    result: Result<ImportedBuffer, String>,
    now: u64,
    import_time: u64,
) -> (imported: Result<ImportedBuffer, String>)
    ensures
        match result {
            Ok(before) => imported == Ok::<ImportedBuffer, String>(
                ImportedBuffer {
                    yuv: before.yuv,
                    metadata: frame_metadata(before.metadata, frame, now, import_time),
                },
            ),
            Err(error) => imported == Err::<ImportedBuffer, String>(error),
        },
{
    match result {
        Ok(before) => Ok(
            ImportedBuffer {
                yuv: before.yuv,
                metadata: describe_frame(before.metadata, frame, now, import_time),
            },
        ),
        Err(error) => Err(error),
    }
}

/// Ends the import of a buffer.
pub fn buffer_imported(
    frame: HardwareBufferFrame,
    result: Result<ImportedBuffer, String>,
    now: u64,
    import_time: u64,
) -> (actions: Vec<VideoAction>)
    ensures
        is_buffer_end(actions@, frame, result, now, import_time),
{
    let mut actions: Vec<VideoAction> = Vec::new();
    match result {
        Ok(imported) => {
            let metadata = describe_frame(imported.metadata, frame, now, import_time);
            actions.push(
                VideoAction::Updated(
                    VideoTextureUpdatedEvent {
                        video_id: LiveId(frame.video_id),
                        current_position_ms: frame.position_ms,
                        yuv: imported.yuv,
                        metadata,
                    },
                ),
            );
        },
        Err(error) => {
            actions.push(error_action(frame.video_id, error));
        },
    }
    actions.push(VideoAction::ReleaseBuffer(frame.hardware_buffer));
    actions
}

/// The update of an eye.
pub open spec fn eye_updated(frame: HardwareBufferFrame, imported: ImportedBuffer) -> VideoAction {
    VideoAction::Updated(
        VideoTextureUpdatedEvent {
            video_id: LiveId(frame.video_id),
            current_position_ms: frame.position_ms,
            yuv: imported.yuv,
            metadata: imported.metadata,
        },
    )
}

/// What the import of both eyes leads to: both are updated, or none is and each error is
/// reported; then both buffers are released.
pub open spec fn is_stereo_end(
    actions: Seq<VideoAction>,
    left: HardwareBufferFrame,
    right: HardwareBufferFrame,
    left_result: Result<ImportedBuffer, String>,
    right_result: Result<ImportedBuffer, String>,
) -> bool {
    let reports = actions.len() - 2;
    &&& actions.len() >= 3
    &&& actions[reports] == VideoAction::ReleaseBuffer(left.hardware_buffer)
    &&& actions[reports + 1] == VideoAction::ReleaseBuffer(right.hardware_buffer)
    &&& match (left_result, right_result) {
        (Ok(left_import), Ok(right_import)) => {
            &&& reports == 2
            &&& actions[0] == eye_updated(left, left_import)
            &&& actions[1] == eye_updated(right, right_import)
        },
        (Err(left_error), Err(right_error)) => {
            &&& reports == 2
            &&& is_error(actions[0], left.video_id, left_error@)
            &&& is_error(actions[1], right.video_id, right_error@)
        },
        (Err(error), Ok(_)) => reports == 1 && is_error(actions[0], left.video_id, error@),
        (Ok(_), Err(error)) => reports == 1 && is_error(actions[0], right.video_id, error@),
    }
}

/// Ends the import of the buffers of both eyes.
pub fn stereo_imported(
    left: HardwareBufferFrame,
    right: HardwareBufferFrame,
    left_result: Result<ImportedBuffer, String>,
    right_result: Result<ImportedBuffer, String>,
) -> (actions: Vec<VideoAction>)
    ensures
        is_stereo_end(actions@, left, right, left_result, right_result),
{
    let mut actions: Vec<VideoAction> = Vec::new();
    match (left_result, right_result) {
        (Ok(left_import), Ok(right_import)) => {
            actions.push(
                VideoAction::Updated(
                    VideoTextureUpdatedEvent {
                        video_id: LiveId(left.video_id),
                        current_position_ms: left.position_ms,
                        yuv: left_import.yuv,
                        metadata: left_import.metadata,
                    },
                ),
            );
            actions.push(
                VideoAction::Updated(
                    VideoTextureUpdatedEvent {
                        video_id: LiveId(right.video_id),
                        current_position_ms: right.position_ms,
                        yuv: right_import.yuv,
                        metadata: right_import.metadata,
                    },
                ),
            );
        },
        (Err(left_error), Err(right_error)) => {
            actions.push(error_action(left.video_id, left_error));
            actions.push(error_action(right.video_id, right_error));
        },
        (Err(error), Ok(_)) => {
            actions.push(error_action(left.video_id, error));
        },
        (Ok(_), Err(error)) => {
            actions.push(error_action(right.video_id, error));
        },
    }
    actions.push(VideoAction::ReleaseBuffer(left.hardware_buffer));
    actions.push(VideoAction::ReleaseBuffer(right.hardware_buffer));
    actions
}

/// How often a buffer is released among the actions.
pub open spec fn releases_of(actions: Seq<VideoAction>, buffer: u64) -> nat
    decreases actions.len(),
{
    if actions.len() == 0 {
        0
    } else {
        releases_of(actions.drop_last(), buffer) + (if actions.last()
            == VideoAction::ReleaseBuffer(buffer) {
            1nat
        } else {
            0nat
        })
    }
}

/// The buffer of a frame is released exactly once: at once where it is not imported,
/// else when its import ends, however it ends.
pub proof fn law_buffer_is_released_once(
    state: VideoState,
    frame: HardwareBufferFrame,
    start: Seq<VideoAction>,
    result: Result<ImportedBuffer, String>,
    now: u64,
    import_time: u64,
    end: Seq<VideoAction>,
)
    requires
        is_buffer_start(start, state, frame),
        is_buffer_end(end, frame, result, now, import_time),
    ensures
        ({
            let imports = start[0] is ImportBuffer;
            let released = releases_of(start, frame.hardware_buffer);
            &&& imports ==> released == 0 && releases_of(end, frame.hardware_buffer) == 1
            &&& !imports ==> released == 1
        }),
{
    reveal_with_fuel(releases_of, 3);
}

/// The buffers of both eyes are each released exactly once: at once where they are not
/// imported, else when their import ends, however it ends.
pub proof fn law_stereo_buffers_are_released_once(
    use_vulkan: bool,
    start: Seq<VideoAction>,
    left: HardwareBufferFrame,
    right: HardwareBufferFrame,
    left_result: Result<ImportedBuffer, String>,
    right_result: Result<ImportedBuffer, String>,
    end: Seq<VideoAction>,
)
    requires
        is_stereo_start(start, use_vulkan, left, right),
        is_stereo_end(end, left, right, left_result, right_result),
        left.hardware_buffer != right.hardware_buffer,
    ensures
        ({
            let released = if start[0] is ImportStereo {
                start + end
            } else {
                start
            };
            &&& releases_of(released, left.hardware_buffer) == 1
            &&& releases_of(released, right.hardware_buffer) == 1
        }),
{
    reveal_with_fuel(releases_of, 6);
    if start[0] is ImportStereo {
        let all = start + end;
        assert(all.len() == end.len() + 1);
        assert(all[0] == start[0]);
        assert(forall|i: int| 0 <= i < end.len() ==> all[i + 1] == #[trigger] end[i]);
    }
}

/// Nothing is left of a video that was released, and other videos keep all they have.
pub proof fn law_released_video_is_gone(
    before: VideoState,
    after: VideoState,
    video_id: u64,
    other: u64,
)
    requires
        video_step_state(before, FromJavaMessage::VideoPlayerReleased { video_id }, false, after),
        other != video_id,
    ensures
        !after.configs@.dom().contains(video_id),
        !after.surfaces@.dom().contains(video_id),
        !after.software_players@.contains(video_id),
        after.configs@.dom().contains(other) == before.configs@.dom().contains(other),
        after.surfaces@.dom().contains(other) == before.surfaces@.dom().contains(other),
        after.software_players@.contains(other) == before.software_players@.contains(other),
{
}

/// A video falls back to software at most once: after that its errors are reported.
pub proof fn law_fallback_happens_once(
    before: VideoState,
    after: VideoState,
    video_id: u64,
    error: String,
    force_native: bool,
)
    requires
        video_step_state(
            before,
            FromJavaMessage::VideoDecodingError { video_id, error },
            force_native,
            after,
        ),
        falls_back(before, video_id, force_native),
    ensures
        !falls_back(after, video_id, force_native),
{
}

/// A chroma plane covers the luma plane with half as many places each way, and no more.
pub proof fn law_chroma_covers_luma(side: u32)
    ensures
        chroma_side(side) >= 1 && luma_side(side) >= 1,
        side >= 1 ==> luma_side(side) == side,
        2 * chroma_side(side) >= luma_side(side),
        2 * chroma_side(side) <= luma_side(side) + 1,
{
}

/// A frame in planes of a video that is known goes into its three textures, each plane into
/// its own, and is then reported; one of an unknown video leads to nothing.
pub proof fn law_planes_go_to_their_textures(
    state: VideoState,
    message: FromJavaMessage,
    force_native: bool,
    actions: Seq<VideoAction>,
)
    requires
        message is VideoYuvFrame,
        video_step_actions(state, message, force_native, actions),
    ensures
        ({
            let id = message->VideoYuvFrame_video_id;
            let width = message->VideoYuvFrame_width;
            let height = message->VideoYuvFrame_height;
            let config = state.configs@[id];
            &&& !state.configs@.dom().contains(id) ==> actions.len() == 0
            &&& state.configs@.dom().contains(id) ==> {
                &&& actions.len() == 4
                &&& actions[0] is ReplacePlane && actions[0]->ReplacePlane_texture
                    == config.tex_y_id && actions[0]->data == message->VideoYuvFrame_y
                &&& actions[1] is ReplacePlane && actions[1]->ReplacePlane_texture
                    == config.tex_u_id && actions[1]->data == message->u
                &&& actions[2] is ReplacePlane && actions[2]->ReplacePlane_texture
                    == config.tex_v_id && actions[2]->data == message->v
                &&& width > 0 ==> actions[0]->ReplacePlane_width == width
                    && actions[1]->ReplacePlane_width == (width + 1) / 2
                    && actions[2]->ReplacePlane_width == (width + 1) / 2
                &&& height > 0 ==> actions[0]->ReplacePlane_height == height
                    && actions[1]->ReplacePlane_height == (height + 1) / 2
                    && actions[2]->ReplacePlane_height == (height + 1) / 2
                &&& actions[3] is Updated && actions[3]->Updated_0.video_id.0 == id
                    && actions[3]->Updated_0.current_position_ms
                    == message->VideoYuvFrame_position_ms && actions[3]->Updated_0.yuv.enabled
                    && !actions[3]->Updated_0.yuv.biplanar
                    && actions[3]->Updated_0.yuv.rotation_steps == 0
                    && actions[3]->Updated_0.yuv.matrix == 0x3f80_0000
            }
        }),
{
}

/// What happened to a video is reported with its number and all that came with it.
pub proof fn law_video_messages_are_reported(
    state: VideoState,
    message: FromJavaMessage,
    force_native: bool,
    actions: Seq<VideoAction>,
)
    requires
        video_step_actions(state, message, force_native, actions),
    ensures
        message is VideoPlaybackCompleted ==> actions.len() == 1 && actions[0] is Completed
            && actions[0]->Completed_0.video_id.0 == message->VideoPlaybackCompleted_video_id,
        message is VideoPlaybackMetadata ==> actions.len() == 1 && actions[0] is Metadata
            && actions[0]->Metadata_0.video_id.0 == message->VideoPlaybackMetadata_video_id
            && actions[0]->Metadata_0.metadata_json == message->metadata_json,
        message is VideoPlaybackPrepared ==> actions.len() == 1 && actions[0] is Prepared && {
            let event = actions[0]->Prepared_0;
            &&& event.video_id.0 == message->VideoPlaybackPrepared_video_id
            &&& event.video_width == message->video_width
            &&& event.video_height == message->video_height
            &&& event.duration == message->duration
            &&& event.is_seekable <==> message->duration > 0
            &&& event.video_tracks@.len() == 1 <==> message->video_width > 0
                && message->video_height > 0
            &&& event.audio_tracks@.len() == 1
        },
        message is VideoHardwareBufferStereoFrameReady ==> actions.len() == 1 && actions[0]
            is HandleLatestStereo,
        message is VideoPlayerReleased ==> actions.len() > 0 && actions.last()
            is ResourcesReleased && actions.last()->ResourcesReleased_0.video_id.0
            == message->VideoPlayerReleased_video_id,
        message is VideoPlayerReleased && state.surfaces@.dom().contains(
            message->VideoPlayerReleased_video_id,
        ) ==> actions[0] == VideoAction::CleanupDecoder(
            state.surfaces@[message->VideoPlayerReleased_video_id],
        ),
        message is VideoPlayerReleased && state.software_players@.contains(
            message->VideoPlayerReleased_video_id,
        ) ==> actions[actions.len() - 2] is CleanupSoftwarePlayer,
{
}

/// A video that cannot be decoded is played in software where it was not yet, nobody forbids
/// it, it is known, and its source can be; else the error is reported as it came.
pub proof fn law_failed_videos_fall_back(
    state: VideoState,
    message: FromJavaMessage,
    force_native: bool,
    actions: Seq<VideoAction>,
)
    requires
        message is VideoDecodingError,
        video_step_actions(state, message, force_native, actions),
    ensures
        ({
            let id = message->VideoDecodingError_video_id;
            let possible = !force_native && !state.software_players@.contains(id)
                && state.configs@.dom().contains(id)
                && state.configs@[id].source.has_software_fallback();
            &&& possible ==> actions.len() == 2 && actions[0] == VideoAction::StartSoftwarePlayer(
                LiveId(id),
            ) && actions[1] is RedrawAll
            &&& !possible ==> actions.len() == 1 && actions[0] is DecodingError
                && actions[0]->DecodingError_0.video_id.0 == id
                && actions[0]->DecodingError_0.error@ == message->VideoDecodingError_error@
        }),
{
}

/// A hardware buffer is imported into the texture of its video exactly where Vulkan draws,
/// its backend is there and the video is known; else the error is reported for the video
/// and the buffer goes back.
pub proof fn law_buffers_are_imported_where_they_can_be(
    state: VideoState,
    frame: HardwareBufferFrame,
    force_native: bool,
    actions: Seq<VideoAction>,
)
    requires
        video_step_actions(
            state,
            FromJavaMessage::VideoHardwareBufferFrame(frame),
            force_native,
            actions,
        ),
    ensures
        ({
            let possible = state.use_vulkan && state.has_vulkan && state.configs@.dom().contains(
                frame.video_id,
            );
            &&& possible ==> actions.len() == 1 && actions[0] is ImportBuffer
                && actions[0]->ImportBuffer_texture == state.configs@[frame.video_id].texture_id
                && actions[0]->ImportBuffer_frame == frame
            &&& !possible ==> {
                &&& actions.len() == 2
                &&& actions.contains(VideoAction::ReleaseBuffer(frame.hardware_buffer))
                &&& actions[0] is DecodingError || actions[1] is DecodingError
                &&& actions[0] is DecodingError ==> actions[0]->DecodingError_0.video_id.0
                    == frame.video_id
                &&& actions[1] is DecodingError ==> actions[1]->DecodingError_0.video_id.0
                    == frame.video_id
            }
        }),
{
    if !state.use_vulkan {
        assert(actions[0] == VideoAction::ReleaseBuffer(frame.hardware_buffer));
    } else if import_refusal(state, frame.video_id) is Some {
        assert(actions[1] == VideoAction::ReleaseBuffer(frame.hardware_buffer));
    }
}

/// An imported buffer is reported with the frame's own place, number and time; a frame
/// without a number is the first, and one without a time has the present one.
pub proof fn law_imports_are_described_by_their_frame(
    metadata: VideoTextureUpdateMetadata,
    frame: HardwareBufferFrame,
    now: u64,
    import_time: u64,
)
    ensures
        ({
            let described = frame_metadata(metadata, frame, now, import_time);
            &&& frame.frame_sequence > 0 ==> described.camera_frame_sequence == Some(
                frame.frame_sequence,
            )
            &&& frame.frame_sequence == 0 ==> described.camera_frame_sequence == Some(1u64)
            &&& described.import_sequence == described.camera_frame_sequence
            &&& described.texture_update_sequence == described.camera_frame_sequence
            &&& frame.timestamp_ns > 0 ==> described.camera_timestamp_ns == Some(
                frame.timestamp_ns,
            )
            &&& frame.timestamp_ns == 0 ==> described.camera_timestamp_ns == Some(now)
            &&& described.import_time_ns == Some(import_time)
            &&& described.acquire_time_ns is None
            &&& described.width == metadata.width && described.height == metadata.height
            &&& described.fallback_active == metadata.fallback_active
        }),
{
}

/// After the buffers of both eyes were imported, either both eyes are updated, the left one
/// first, or no eye is and each failure is reported for its own; both buffers go back.
pub proof fn law_eyes_are_updated_together(
    actions: Seq<VideoAction>,
    left: HardwareBufferFrame,
    right: HardwareBufferFrame,
    left_result: Result<ImportedBuffer, String>,
    right_result: Result<ImportedBuffer, String>,
)
    requires
        is_stereo_end(actions, left, right, left_result, right_result),
    ensures
        left_result is Ok && right_result is Ok ==> {
            &&& actions[0] is Updated && actions[0]->Updated_0.video_id.0 == left.video_id
                && actions[0]->Updated_0.current_position_ms == left.position_ms
            &&& actions[1] is Updated && actions[1]->Updated_0.video_id.0 == right.video_id
                && actions[1]->Updated_0.current_position_ms == right.position_ms
            &&& actions[0]->Updated_0.metadata == left_result->Ok_0.metadata
            &&& actions[1]->Updated_0.metadata == right_result->Ok_0.metadata
            &&& actions[0]->Updated_0.yuv == left_result->Ok_0.yuv
            &&& actions[1]->Updated_0.yuv == right_result->Ok_0.yuv
        },
        left_result is Err || right_result is Err ==> forall|i: int|
            0 <= i < actions.len() ==> !(#[trigger] actions[i] is Updated),
        left_result is Err ==> actions[0] is DecodingError
            && actions[0]->DecodingError_0.video_id.0 == left.video_id,
        left_result is Ok && right_result is Err ==> actions[0] is DecodingError
            && actions[0]->DecodingError_0.video_id.0 == right.video_id,
        left_result is Err && right_result is Err ==> actions[1] is DecodingError
            && actions[1]->DecodingError_0.video_id.0 == right.video_id,
{
}

/// A window for the preview of a camera goes to its player, and is kept where there is none
/// yet, when the one kept before is released; when it is destroyed the player loses it and
/// what is kept is released.
pub proof fn law_preview_windows_go_to_their_player(
    before: VideoState,
    message: FromJavaMessage,
    force_native: bool,
    after: VideoState,
    actions: Seq<VideoAction>,
)
    requires
        video_step_actions(before, message, force_native, actions),
        video_step_state(before, message, force_native, after),
    ensures
        message is CameraPreviewSurfaceReady ==> {
            let id = message->CameraPreviewSurfaceReady_video_id;
            let window = message->CameraPreviewSurfaceReady_window;
            &&& before.camera_players@.contains(id) ==> actions.len() == 1 && actions[0]
                == VideoAction::SetPreviewWindow { video_id: LiveId(id), window }
            &&& !before.camera_players@.contains(id) ==> after.preview_windows@.dom().contains(id)
                && after.preview_windows@[id] == window
            &&& !before.camera_players@.contains(id) && before.preview_windows@.dom().contains(id)
                ==> actions.len() == 1 && actions[0] == VideoAction::ReleaseWindow(
                before.preview_windows@[id],
            )
        },
        message is CameraPreviewSurfaceDestroyed ==> {
            let id = message->CameraPreviewSurfaceDestroyed_video_id;
            &&& !after.preview_windows@.dom().contains(id)
            &&& before.camera_players@.contains(id) ==> actions[0]
                == VideoAction::SetPreviewWindow { video_id: LiveId(id), window: 0 }
            &&& before.preview_windows@.dom().contains(id) ==> actions.last()
                == VideoAction::ReleaseWindow(before.preview_windows@[id])
        },
{
}

/// A video keeps its surface from when it is prepared until its player is released; then
/// nothing of it is left, and other videos keep all of theirs.
pub proof fn law_videos_keep_their_own(
    before: VideoState,
    message: FromJavaMessage,
    force_native: bool,
    after: VideoState,
    other: u64,
)
    requires
        video_step_state(before, message, force_native, after),
    ensures
        message is VideoPlaybackPrepared && message->surface_texture != 0
            ==> after.surfaces@.dom().contains(message->VideoPlaybackPrepared_video_id)
            && after.surfaces@[message->VideoPlaybackPrepared_video_id]
            == message->surface_texture,
        message is VideoPlayerReleased ==> {
            let id = message->VideoPlayerReleased_video_id;
            &&& !after.configs@.dom().contains(id) && !after.surfaces@.dom().contains(id)
            &&& !after.software_players@.contains(id)
            &&& other != id ==> after.configs@.dom().contains(other)
                == before.configs@.dom().contains(other) && after.surfaces@.dom().contains(other)
                == before.surfaces@.dom().contains(other)
        },
        !(message is VideoPlayerReleased) ==> after.configs@ == before.configs@,
        message is VideoDecodingError && falls_back(
            before,
            message->VideoDecodingError_video_id,
            force_native,
        ) ==> after.software_players@.contains(message->VideoDecodingError_video_id),
{
}

/// A buffer goes back once it was imported; what was imported is reported for its video, at
/// its position and with how its planes are read, and a failure is reported as one.
pub proof fn law_imported_buffers_are_reported(
    actions: Seq<VideoAction>,
    frame: HardwareBufferFrame,
    result: Result<ImportedBuffer, String>,
    now: u64,
    import_time: u64,
)
    requires
        is_buffer_end(actions, frame, result, now, import_time),
    ensures
        actions.len() == 2 && actions[1] == VideoAction::ReleaseBuffer(frame.hardware_buffer),
        result is Ok ==> actions[0] is Updated && actions[0]->Updated_0.video_id.0 == frame.video_id
            && actions[0]->Updated_0.current_position_ms == frame.position_ms
            && actions[0]->Updated_0.yuv == result->Ok_0.yuv
            && actions[0]->Updated_0.metadata.import_time_ns == Some(import_time)
            && actions[0]->Updated_0.metadata.width == result->Ok_0.metadata.width
            && actions[0]->Updated_0.metadata.height == result->Ok_0.metadata.height,
        result is Err ==> actions[0] is DecodingError && actions[0]->DecodingError_0.video_id.0
            == frame.video_id && actions[0]->DecodingError_0.error@ == result->Err_0@,
{
}

/// The buffers of both eyes are imported together where Vulkan draws; else both go back and
/// the error is reported for both eyes.
pub proof fn law_stereo_needs_vulkan(
    actions: Seq<VideoAction>,
    use_vulkan: bool,
    left: HardwareBufferFrame,
    right: HardwareBufferFrame,
)
    requires
        is_stereo_start(actions, use_vulkan, left, right),
    ensures
        use_vulkan ==> actions.len() == 1 && actions[0] == (VideoAction::ImportStereo {
            left,
            right,
        }),
        !use_vulkan ==> actions.len() == 4 && actions[0] == VideoAction::ReleaseBuffer(
            left.hardware_buffer,
        ) && actions[1] == VideoAction::ReleaseBuffer(right.hardware_buffer) && actions[2]
            is DecodingError && actions[2]->DecodingError_0.video_id.0 == left.video_id
            && actions[3] is DecodingError && actions[3]->DecodingError_0.video_id.0
            == right.video_id,
{
}

} // verus!

//! A camera as the source of a video.

use vstd::prelude::*;

#[allow(unused_imports)]
use crate::android::video::chroma_side;
use crate::event::video_playback::{
    VideoTextureDescriptorShape, VideoTextureResourcePath, VideoTextureUpdateMetadata,
};
#[allow(unused_imports)]
use crate::event::video_playback::unknown_update;
use crate::float_bits::F32_ONE;
use crate::ids::{LiveId, TextureId, VideoFormatId, VideoInputId};

verus! {

/// How the frames of a camera come into textures.
#[derive(Clone, Copy, PartialEq, Eq, Structural, Debug)]
pub enum AndroidCameraTextureMode {
    GlYuv,
    CpuYuv,
    HardwareBufferExternal,
}

/// How a player is told of frames.
#[derive(Clone, Copy, PartialEq, Eq, Structural, Debug)]
pub enum CameraRegistration {
    /// By hardware buffers.
    HardwareBuffers,
    /// By copies of the planes.
    Planes,
    /// Not at all: the camera draws to a window itself.
    WindowOnly,
}

/// A frame of a camera in a hardware buffer. A time of zero is not known.
#[derive(Clone, Copy, PartialEq, Eq, Structural, Debug)]
pub struct AndroidCameraHardwareBufferFrame {
    pub hardware_buffer: u64,
    pub width: u32,
    pub height: u32,
    pub sequence: u64,
    pub timestamp_ns: u64,
    pub acquire_time_ns: u64,
}

/// The frames that a camera hands over: only the latest one is kept, and they are
/// numbered.
#[derive(Clone, Copy, PartialEq, Eq, Structural, Debug)]
pub struct HardwareBufferInbox {
    pub sequence: u64,
    pub latest: Option<AndroidCameraHardwareBufferFrame>,
}

impl HardwareBufferInbox {
    /// No frame came yet.
    pub fn new() -> (inbox: HardwareBufferInbox)
        ensures
            inbox == (HardwareBufferInbox { sequence: 0, latest: None }),
    {
        HardwareBufferInbox { sequence: 0, latest: None }
    }

    /// The number of the next frame.
    pub open spec fn next_sequence(self) -> u64 {
        if self.sequence < u64::MAX {
            (self.sequence + 1) as u64
        } else {
            u64::MAX
        }
    }

    /// Takes a frame that came at `now`, and gives back the one that it takes the place
    /// of.
    pub fn arrive(&mut self, frame: AndroidCameraHardwareBufferFrame, now: u64) -> (replaced: Option<
        AndroidCameraHardwareBufferFrame,
    >)
        ensures
            replaced == old(self).latest,
            *final(self) == (HardwareBufferInbox {
                sequence: old(self).next_sequence(),
                latest: Some(
                    AndroidCameraHardwareBufferFrame {
                        sequence: old(self).next_sequence(),
                        acquire_time_ns: now,
                        ..frame
                    },
                ),
            }),
    {
        let replaced: Option<AndroidCameraHardwareBufferFrame> = self.latest;
        self.sequence = self.sequence.saturating_add(1);
        self.latest = Some(
            AndroidCameraHardwareBufferFrame {
                sequence: self.sequence,
                acquire_time_ns: now,
                ..frame
            },
        );
        replaced
    }
}

/// The bits of a number of quarter turns.
pub open spec fn step_bits(steps: int) -> u32 {
    if steps == 0 {
        0
    } else if steps == 1 {
        F32_ONE
    } else if steps == 2 {
        0x4000_0000
    } else {
        0x4040_0000
    }
}

/// The quarter turns of a sensor that is turned by `degrees`: whole ones, from none to
/// three.
pub open spec fn quarter_turns(degrees: i32) -> int {
    (degrees as int % 360) / 90
}

fn count_quarter_turns(degrees: i32) -> (turns: u32)
    ensures
        turns == quarter_turns(degrees),
        turns < 4,
{
    let wide: i64 = degrees as i64;
    let turned: i64 = if wide >= 0 {
        wide % 360
    } else {
        let back: i64 = (0 - wide) % 360;
        if back == 0 {
            0
        } else {
            360 - back
        }
    };
    (turned / 90) as u32
}

/// A camera that is played. Whether planes or hardware buffers come is told by
/// `has_plane_frames` and `has_buffer_frames`.
pub struct AndroidCameraPlayer {
    pub video_id: LiveId,
    pub texture_id: TextureId,
    pub tex_y_id: TextureId,
    pub tex_u_id: TextureId,
    pub tex_v_id: TextureId,
    pub input_id: VideoInputId,
    pub format_id: VideoFormatId,
    pub width: u32,
    pub height: u32,
    pub prepared: bool,
    pub prepare_notified: bool,
    pub native_preview: bool,
    pub texture_mode: AndroidCameraTextureMode,
    /// The bits of a single-precision number.
    pub yuv_rotation_steps: u32,
    pub has_plane_frames: bool,
    pub has_buffer_frames: bool,
    pub hardware_buffer_yuv_plane_import_disabled: bool,
    pub has_camera_access: bool,
    pub warned_waiting_for_first_frame: bool,
    pub logged_first_hardware_buffer_consume: bool,
    pub cpu_yuv_upload_seq: u64,
    pub hardware_buffer_update_seq: u64,
}

/// What a player is made for.
#[derive(Clone, Copy, PartialEq, Eq, Structural, Debug)]
pub struct CameraRequest {
    pub video_id: LiveId,
    pub texture_id: TextureId,
    pub tex_y_id: TextureId,
    pub tex_u_id: TextureId,
    pub tex_v_id: TextureId,
    pub input_id: VideoInputId,
    pub format_id: VideoFormatId,
    pub native_preview: bool,
    pub use_hardware_buffer_texture: bool,
    pub use_cpu_plane_textures: bool,
}

/// How the frames come for a request: a preview that the camera draws needs no
/// textures, and hardware buffers go before planes.
pub open spec fn requested_mode(request: CameraRequest) -> AndroidCameraTextureMode {
    if request.native_preview {
        AndroidCameraTextureMode::GlYuv
    } else if request.use_hardware_buffer_texture {
        AndroidCameraTextureMode::HardwareBufferExternal
    } else if request.use_cpu_plane_textures {
        AndroidCameraTextureMode::CpuYuv
    } else {
        AndroidCameraTextureMode::GlYuv
    }
}

/// A video that is ready to be played.
pub struct PlaybackPrepared {
    pub width: u32,
    pub height: u32,
    pub duration: u128,
    pub is_seekable: bool,
    pub video_tracks: Vec<String>,
    pub audio_tracks: Vec<String>,
}

/// A camera that is ready: it has no end and cannot seek, and its one track is the
/// camera.
pub open spec fn is_camera_prepared(prepared: PlaybackPrepared, width: u32, height: u32) -> bool {
    &&& prepared.width == width
    &&& prepared.height == height
    &&& prepared.duration == 0
    &&& !prepared.is_seekable
    &&& prepared.video_tracks@.len() == 1
    &&& prepared.video_tracks@[0]@ == "camera"@
    &&& prepared.audio_tracks@.len() == 0
}

fn camera_prepared(width: u32, height: u32) -> (prepared: PlaybackPrepared)
    ensures
        is_camera_prepared(prepared, width, height),
{
    let mut video_tracks: Vec<String> = Vec::new();
    video_tracks.push("camera".to_owned());
    PlaybackPrepared {
        width,
        height,
        duration: 0,
        is_seekable: false,
        video_tracks,
        audio_tracks: Vec::new(),
    }
}

/// What is known of a frame in planes. A time of zero is not known.
#[derive(Clone, Copy, PartialEq, Eq, Structural, Debug)]
pub struct PlaneFrame {
    pub width: u32,
    pub height: u32,
    pub plane_count: usize,
    pub sequence: u64,
    pub timestamp_ns: u64,
    pub acquire_time_ns: u64,
}

/// What is uploaded of a frame in planes: all planes, the second and third with half of
/// the sides. `by_copy` puts them into textures of bytes, else OpenGL takes them.
pub struct PlaneUpload {
    pub by_copy: bool,
    pub width: u32,
    pub height: u32,
    pub chroma_width: u32,
    pub chroma_height: u32,
    pub metadata: VideoTextureUpdateMetadata,
}

/// A time, unless it is not known.
pub open spec fn known_time(time: u64) -> Option<u64> {
    if time != 0 {
        Some(time)
    } else {
        None
    }
}

fn time_if_known(time: u64) -> (known: Option<u64>)
    ensures
        known == known_time(time),
{
    if time != 0 {
        Some(time)
    } else {
        None
    }
}

/// A frame can be uploaded: it has pixels and its three planes.
pub open spec fn frame_usable(frame: PlaneFrame) -> bool {
    frame.width > 0 && frame.height > 0 && frame.plane_count >= 3
}

/// The number after `sequence`; the largest one is kept.
pub open spec fn following(sequence: u64) -> u64 {
    if sequence < u64::MAX {
        (sequence + 1) as u64
    } else {
        u64::MAX
    }
}

/// The metadata of a frame in planes before it is uploaded.
pub open spec fn plane_metadata(frame: PlaneFrame) -> VideoTextureUpdateMetadata {
    VideoTextureUpdateMetadata {
        camera_frame_sequence: Some(frame.sequence),
        camera_timestamp_ns: Some(frame.timestamp_ns),
        acquire_time_ns: known_time(frame.acquire_time_ns),
        resource_path: VideoTextureResourcePath::CpuYuvPlanes,
        descriptor_shape: VideoTextureDescriptorShape::CpuYuvPlaneTextures,
        width: frame.width,
        height: frame.height,
        ..unknown_update()
    }
}

/// Half of a side, rounded up.
pub open spec fn half_up(side: u32) -> u32 {
    (side / 2 + side % 2) as u32
}

impl AndroidCameraPlayer {
    /// What a player promises: it gets the frames of its mode, and no others.
    pub open spec fn wf(&self) -> bool {
        &&& self.has_buffer_frames == (self.texture_mode
            == AndroidCameraTextureMode::HardwareBufferExternal)
        &&& self.native_preview ==> self.texture_mode == AndroidCameraTextureMode::GlYuv
            && !self.has_plane_frames
        &&& !self.native_preview ==> self.has_plane_frames == !self.has_buffer_frames
        &&& self.prepare_notified ==> self.prepared
    }

    /// Makes a player. `format_size` is the size of the camera's format, where it is
    /// known, and `sensor_orientation` how far its sensor is turned, in degrees.
    pub fn new(
        request: CameraRequest,
        format_size: Option<(u32, u32)>,
        sensor_orientation: i32,
    ) -> (player: AndroidCameraPlayer)
        ensures
            player.wf(),
            player.video_id == request.video_id,
            player.texture_id == request.texture_id,
            player.tex_y_id == request.tex_y_id,
            player.tex_u_id == request.tex_u_id,
            player.tex_v_id == request.tex_v_id,
            player.input_id == request.input_id,
            player.format_id == request.format_id,
            format_size matches Some(size) ==> player.width == size.0 && player.height == size.1,
            format_size is None ==> player.width == 0 && player.height == 0,
            player.prepared == request.native_preview,
            !player.prepare_notified,
            player.native_preview == request.native_preview,
            player.texture_mode == requested_mode(request),
            player.yuv_rotation_steps == step_bits(quarter_turns(sensor_orientation)),
            !player.hardware_buffer_yuv_plane_import_disabled,
            player.has_camera_access,
            !player.warned_waiting_for_first_frame,
            !player.logged_first_hardware_buffer_consume,
            player.cpu_yuv_upload_seq == 0,
            player.hardware_buffer_update_seq == 0,
    {
        let texture_mode: AndroidCameraTextureMode = if request.native_preview {
            AndroidCameraTextureMode::GlYuv
        } else if request.use_hardware_buffer_texture {
            AndroidCameraTextureMode::HardwareBufferExternal
        } else if request.use_cpu_plane_textures {
            AndroidCameraTextureMode::CpuYuv
        } else {
            AndroidCameraTextureMode::GlYuv
        };
        let has_buffer_frames: bool = texture_mode
            == AndroidCameraTextureMode::HardwareBufferExternal;
        let (width, height): (u32, u32) = match format_size {
            Some(size) => size,
            None => (0, 0),
        };
        let turns: u32 = count_quarter_turns(sensor_orientation);
        let yuv_rotation_steps: u32 = if turns == 0 {
            0
        } else if turns == 1 {
            F32_ONE
        } else if turns == 2 {
            0x4000_0000
        } else {
            0x4040_0000
        };
        AndroidCameraPlayer {
            video_id: request.video_id,
            texture_id: request.texture_id,
            tex_y_id: request.tex_y_id,
            tex_u_id: request.tex_u_id,
            tex_v_id: request.tex_v_id,
            input_id: request.input_id,
            format_id: request.format_id,
            width,
            height,
            prepared: request.native_preview,
            prepare_notified: false,
            native_preview: request.native_preview,
            texture_mode,
            yuv_rotation_steps,
            has_plane_frames: !(request.native_preview || has_buffer_frames),
            has_buffer_frames,
            hardware_buffer_yuv_plane_import_disabled: false,
            has_camera_access: true,
            warned_waiting_for_first_frame: false,
            logged_first_hardware_buffer_consume: false,
            cpu_yuv_upload_seq: 0,
            hardware_buffer_update_seq: 0,
        }
    }

    /// How the camera tells the player of frames.
    pub fn registration(&self) -> (registration: CameraRegistration)
        ensures
            registration == (if self.has_buffer_frames {
                CameraRegistration::HardwareBuffers
            } else if self.has_plane_frames {
                CameraRegistration::Planes
            } else {
                CameraRegistration::WindowOnly
            }),
    {
        if self.has_buffer_frames {
            CameraRegistration::HardwareBuffers
        } else if self.has_plane_frames {
            CameraRegistration::Planes
        } else {
            CameraRegistration::WindowOnly
        }
    }

    /// The texture of the first plane.
    pub fn tex_y_id(&self) -> (id: TextureId)
        ensures
            id == self.tex_y_id,
    {
        self.tex_y_id
    }

    /// The texture of the whole frame.
    pub fn texture_id(&self) -> (id: TextureId)
        ensures
            id == self.texture_id,
    {
        self.texture_id
    }

    /// The texture of the second plane.
    pub fn tex_u_id(&self) -> (id: TextureId)
        ensures
            id == self.tex_u_id,
    {
        self.tex_u_id
    }

    /// The texture of the third plane.
    pub fn tex_v_id(&self) -> (id: TextureId)
        ensures
            id == self.tex_v_id,
    {
        self.tex_v_id
    }

    /// Whether frames come into textures at all.
    pub fn uses_textures(&self) -> (uses: bool)
        ensures
            uses == !self.native_preview,
    {
        !self.native_preview
    }

    /// Whether OpenGL takes the planes.
    pub fn needs_gl_upload(&self) -> (needs: bool)
        ensures
            needs == (!self.native_preview && self.texture_mode == AndroidCameraTextureMode::GlYuv),
    {
        !self.native_preview && self.texture_mode == AndroidCameraTextureMode::GlYuv
    }

    /// Whether frames come in hardware buffers.
    pub fn uses_hardware_buffer_texture(&self) -> (uses: bool)
        ensures
            uses == (self.texture_mode == AndroidCameraTextureMode::HardwareBufferExternal),
    {
        self.texture_mode == AndroidCameraTextureMode::HardwareBufferExternal
    }

    /// Whether the planes of a hardware buffer are to be imported one by one.
    pub fn should_try_hardware_buffer_yuv_plane_import(&self) -> (should: bool)
        ensures
            should == (self.texture_mode == AndroidCameraTextureMode::HardwareBufferExternal
                && !self.hardware_buffer_yuv_plane_import_disabled),
    {
        self.uses_hardware_buffer_texture() && !self.hardware_buffer_yuv_plane_import_disabled
    }

    /// Gives the import of single planes up.
    pub fn disable_hardware_buffer_yuv_plane_import(&mut self)
        ensures
            *final(self) == called(*old(self), PlayerCall::DisablePlaneImport),
    {
        self.hardware_buffer_yuv_plane_import_disabled = true;
    }

    /// Changes from hardware buffers to planes. Where that is a change, the player has to
    /// be registered anew.
    pub fn fallback_to_cpu_yuv(&mut self) -> (result: Result<bool, String>)
        requires
            old(self).wf(),
        ensures
            final(self).wf(),
            *final(self) == called(*old(self), PlayerCall::FallbackToCpuYuv),
            if old(self).texture_mode != AndroidCameraTextureMode::HardwareBufferExternal {
                result == Ok::<bool, String>(false)
            } else if !old(self).has_camera_access {
                &&& result matches Err(message)
                &&& message@ == "Android headset camera fallback failed: missing camera access"@
            } else {
                result == Ok::<bool, String>(true)
            },
    {
        if self.texture_mode != AndroidCameraTextureMode::HardwareBufferExternal {
            return Ok(false);
        }
        if !self.has_camera_access {
            return Err("Android headset camera fallback failed: missing camera access".to_owned());
        }
        self.texture_mode = AndroidCameraTextureMode::CpuYuv;
        self.has_plane_frames = true;
        self.has_buffer_frames = false;
        self.warned_waiting_for_first_frame = false;
        self.logged_first_hardware_buffer_consume = false;
        self.cpu_yuv_upload_seq = 0;
        self.hardware_buffer_update_seq = 0;
        Ok(true)
    }

    /// How far the planes are turned: the bits of a number of quarter turns.
    pub fn yuv_rotation_steps(&self) -> (bits: u32)
        ensures
            bits == self.yuv_rotation_steps,
    {
        self.yuv_rotation_steps
    }

    /// The size with which the camera is ready, if it is: at once for a preview that it
    /// draws itself, else with the first frame.
    pub open spec fn ready_size(
        &self,
        buffer_frame: Option<(u32, u32)>,
        plane_frame: Option<(u32, u32)>,
    ) -> Option<(u32, u32)> {
        if self.prepare_notified {
            None
        } else if self.native_preview && self.prepared {
            Some((self.width, self.height))
        } else if self.has_buffer_frames {
            buffer_frame
        } else if self.has_plane_frames {
            plane_frame
        } else {
            None
        }
    }

    /// Whether the size of the latest frame in planes decides whether the camera is ready.
    pub fn asks_plane_size(&self) -> (asks: bool)
        ensures
            asks == (!self.prepare_notified && !(self.native_preview && self.prepared)
                && !self.has_buffer_frames && self.has_plane_frames),
            forall|buffer_frame: Option<(u32, u32)>, plane_frame: Option<(u32, u32)>|
                !asks ==> #[trigger] self.ready_size(buffer_frame, plane_frame) == self.ready_size(
                    buffer_frame,
                    None,
                ),
    {
        !self.prepare_notified && !(self.native_preview && self.prepared)
            && !self.has_buffer_frames && self.has_plane_frames
    }

    /// Finds out whether the camera is ready, and reports it once. `buffer_frame` and
    /// `plane_frame` are the sizes of the latest frames, `waited` whether frames were
    /// waited for too long.
    pub fn check_prepared(
        &mut self,
        buffer_frame: Option<(u32, u32)>,
        plane_frame: Option<(u32, u32)>,
        waited: bool,
    ) -> (result: Option<PlaybackPrepared>)
        requires
            old(self).wf(),
        ensures
            final(self).wf(),
            *final(self) == called(
                *old(self),
                PlayerCall::CheckPrepared { buffer_frame, plane_frame, waited },
            ),
            match old(self).ready_size(buffer_frame, plane_frame) {
                Some(size) => result matches Some(prepared) && is_camera_prepared(
                    prepared,
                    size.0,
                    size.1,
                ),
                None => result is None,
            },
    {
        if self.prepare_notified {
            return None;
        }
        if self.native_preview && self.prepared {
            self.prepare_notified = true;
            return Some(camera_prepared(self.width, self.height));
        }
        let frame: Option<(u32, u32)> = if self.has_buffer_frames {
            if buffer_frame.is_none() && waited {
                self.warned_waiting_for_first_frame = true;
            }
            buffer_frame
        } else if self.has_plane_frames {
            plane_frame
        } else {
            None
        };
        match frame {
            Some(size) => {
                self.width = size.0;
                self.height = size.1;
                self.prepared = true;
                self.prepare_notified = true;
                Some(camera_prepared(self.width, self.height))
            },
            None => None,
        }
    }

    /// Takes the latest frame out of the inbox.
    pub fn take_hardware_buffer_frame(&mut self, inbox: &mut HardwareBufferInbox) -> (frame: Option<
        AndroidCameraHardwareBufferFrame,
    >)
        requires
            old(self).wf(),
        ensures
            final(self).wf(),
            *final(self) == called(
                *old(self),
                PlayerCall::TakeBufferFrame { latest: old(inbox).latest },
            ),
            if !old(self).has_buffer_frames {
                &&& frame is None
                &&& *final(inbox) == *old(inbox)
            } else {
                &&& frame == old(inbox).latest
                &&& *final(inbox) == (HardwareBufferInbox { latest: None, ..*old(inbox) })
            },
    {
        if !self.has_buffer_frames {
            return None;
        }
        let taken: Option<AndroidCameraHardwareBufferFrame> = inbox.latest;
        inbox.latest = None;
        match taken {
            Some(frame) => {
                self.logged_first_hardware_buffer_consume = true;
                self.width = frame.width;
                self.height = frame.height;
                self.prepared = true;
                Some(frame)
            },
            None => None,
        }
    }

    /// Notes a frame in a hardware buffer that was imported at `now`.
    pub fn hardware_buffer_update_metadata(
        &mut self,
        metadata: VideoTextureUpdateMetadata,
        frame: &AndroidCameraHardwareBufferFrame,
        now: u64,
    ) -> (updated: VideoTextureUpdateMetadata)
        ensures
            *final(self) == called(*old(self), PlayerCall::UpdateBufferMetadata),
            updated == (VideoTextureUpdateMetadata {
                camera_frame_sequence: Some(frame.sequence),
                camera_timestamp_ns: Some(frame.timestamp_ns),
                acquire_time_ns: known_time(frame.acquire_time_ns),
                import_sequence: Some(following(old(self).hardware_buffer_update_seq)),
                import_time_ns: Some(now),
                texture_update_sequence: Some(following(old(self).hardware_buffer_update_seq)),
                ..metadata
            }),
    {
        self.hardware_buffer_update_seq = self.hardware_buffer_update_seq.saturating_add(1);
        metadata.with_camera_frame(
            frame.sequence,
            frame.timestamp_ns,
            time_if_known(frame.acquire_time_ns),
        ).with_hardware_buffer_import(self.hardware_buffer_update_seq, now)
    }

    /// A frame in planes is uploaded.
    pub open spec fn uploads(&self, frame: Option<PlaneFrame>, has_gl: bool) -> bool {
        &&& !self.native_preview
        &&& self.texture_mode != AndroidCameraTextureMode::HardwareBufferExternal
        &&& self.has_plane_frames
        &&& frame matches Some(frame) && frame_usable(frame)
        &&& self.texture_mode == AndroidCameraTextureMode::CpuYuv || has_gl
    }

    /// Whether the latest frame in planes is taken to be uploaded.
    pub fn takes_planes(&self) -> (takes: bool)
        ensures
            takes == (!self.native_preview && self.texture_mode
                != AndroidCameraTextureMode::HardwareBufferExternal && self.has_plane_frames),
            forall|frame: Option<PlaneFrame>, has_gl: bool|
                !takes ==> !#[trigger] self.uploads(frame, has_gl),
    {
        !self.native_preview && !self.uses_hardware_buffer_texture() && self.has_plane_frames
    }

    /// Plans the upload of the latest frame in planes. `has_gl` says whether OpenGL is
    /// there to take it, `now` is the time of the upload.
    pub fn poll_frame(&mut self, frame: Option<PlaneFrame>, has_gl: bool, now: u64) -> (upload: Option<
        PlaneUpload,
    >)
        requires
            old(self).wf(),
        ensures
            final(self).wf(),
            *final(self) == called(*old(self), PlayerCall::PollFrame { frame, has_gl }),
            if !old(self).uploads(frame, has_gl) {
                upload is None
            } else {
                let frame = frame->0;
                let by_copy = old(self).texture_mode == AndroidCameraTextureMode::CpuYuv;
                let sequence = following(old(self).cpu_yuv_upload_seq);
                &&& upload matches Some(upload)
                &&& upload.by_copy == by_copy
                &&& upload.width == frame.width
                &&& upload.height == frame.height
                &&& upload.chroma_width == half_up(frame.width)
                &&& upload.chroma_height == half_up(frame.height)
                &&& upload.metadata == (if by_copy {
                    VideoTextureUpdateMetadata {
                        upload_sequence: Some(sequence),
                        upload_time_ns: Some(now),
                        texture_update_sequence: Some(sequence),
                        ..plane_metadata(frame)
                    }
                } else {
                    VideoTextureUpdateMetadata {
                        resource_path: VideoTextureResourcePath::SoftwareYuvPlanes,
                        ..plane_metadata(frame)
                    }
                })
            },
    {
        if self.native_preview || self.uses_hardware_buffer_texture() || !self.has_plane_frames {
            return None;
        }
        let frame: PlaneFrame = match frame {
            Some(frame) => frame,
            None => {
                return None;
            },
        };
        if frame.width == 0 || frame.height == 0 || frame.plane_count < 3 {
            return None;
        }
        let by_copy: bool = self.texture_mode == AndroidCameraTextureMode::CpuYuv;
        if !by_copy && !has_gl {
            return None;
        }
        let mut metadata = VideoTextureUpdateMetadata::default().with_camera_frame(
            frame.sequence,
            frame.timestamp_ns,
            time_if_known(frame.acquire_time_ns),
        ).with_resource(
            VideoTextureResourcePath::CpuYuvPlanes,
            VideoTextureDescriptorShape::CpuYuvPlaneTextures,
            frame.width,
            frame.height,
        );
        if by_copy {
            self.cpu_yuv_upload_seq = self.cpu_yuv_upload_seq.saturating_add(1);
            metadata = metadata.with_cpu_yuv_upload(self.cpu_yuv_upload_seq, now);
        } else {
            metadata.resource_path = VideoTextureResourcePath::SoftwareYuvPlanes;
        }
        self.width = frame.width;
        self.height = frame.height;
        Some(
            PlaneUpload {
                by_copy,
                width: frame.width,
                height: frame.height,
                chroma_width: frame.width / 2 + frame.width % 2,
                chroma_height: frame.height / 2 + frame.height % 2,
                metadata,
            },
        )
    }

    /// Whether the camera is to be told of a window for the preview.
    pub fn set_preview_window(&self) -> (tell: bool)
        ensures
            tell == self.has_camera_access,
    {
        self.has_camera_access
    }

    /// Lets the camera go. Says whether the player has to be unregistered.
    pub fn cleanup(&mut self) -> (unregister: bool)
        ensures
            unregister == old(self).has_camera_access,
            *final(self) == called(*old(self), PlayerCall::Cleanup),
    {
        let unregister: bool = self.has_camera_access;
        self.has_camera_access = false;
        unregister
    }
}

/// The time for diagnostics: nanoseconds since the epoch, as far as they can be counted.
/// A time before the epoch counts as zero.
pub fn diagnostic_time_ns(since_epoch: Option<u128>) -> (time: u64)
    ensures
        time == (match since_epoch {
            Some(nanos) => if nanos <= u64::MAX {
                nanos as u64
            } else {
                u64::MAX
            },
            None => 0,
        }),
{
    match since_epoch {
        Some(nanos) => {
            if nanos <= u64::MAX as u128 {
                nanos as u64
            } else {
                u64::MAX
            }
        },
        None => 0,
    }
}

/// What of a texture has to be uploaded.
pub enum TextureUpdated {
    /// All of it.
    Full,
    /// What its owner has marked, under the owner's number.
    Marked(u64),
    /// What was marked before, merged with a change whose place is not told.
    Merged(Box<TextureUpdated>),
}

/// A texture, as far as planes are put into it.
pub enum PlaneTexture {
    Bytes {
        width: usize,
        height: usize,
        data: Option<Vec<u8>>,
        /// How long a row is in memory, where it is not as long as the texture is wide.
        unpack_row_length: Option<usize>,
        updated: TextureUpdated,
    },
    /// A place for a plane that did not come yet.
    Placeholder,
    Other,
}

/// How a plane came into a texture.
#[derive(Clone, Copy, PartialEq, Eq, Structural, Debug)]
pub enum PlaneChange {
    /// The texture holds the plane, besides what of it is not uploaded yet.
    Merged,
    /// The texture is all new.
    Replaced,
    /// The texture takes no planes.
    Refused,
}

/// Puts a plane into a texture. The bytes that the texture held before go back into
/// `data`, to be used for a later frame. A texture of bytes keeps its row length and
/// merges its mark; a placeholder becomes a texture that is uploaded whole.
pub fn swap_r8_plane_texture(
    texture: &mut PlaneTexture,
    width: usize,
    height: usize,
    data: &mut Vec<u8>,
) -> (change: PlaneChange)
    ensures
        match *old(texture) {
            PlaneTexture::Bytes { data: held, unpack_row_length, updated, .. } => {
                &&& change == PlaneChange::Merged
                &&& *final(texture) == (PlaneTexture::Bytes {
                    width,
                    height,
                    data: Some(*old(data)),
                    unpack_row_length,
                    updated: TextureUpdated::Merged(Box::new(updated)),
                })
                &&& final(data)@ == (match held {
                    Some(bytes) => bytes@,
                    None => seq![],
                })
            },
            PlaneTexture::Placeholder => {
                &&& change == PlaneChange::Replaced
                &&& *final(texture) == (PlaneTexture::Bytes {
                    width,
                    height,
                    data: Some(*old(data)),
                    unpack_row_length: None,
                    updated: TextureUpdated::Full,
                })
                &&& final(data)@.len() == 0
            },
            PlaneTexture::Other => {
                &&& change == PlaneChange::Refused
                &&& *final(texture) == *old(texture)
                &&& *final(data) == *old(data)
            },
        },
{
    let mut held: PlaneTexture = PlaneTexture::Other;
    std::mem::swap(&mut held, texture);
    match held {
        PlaneTexture::Bytes { data: before, unpack_row_length, updated, .. } => {
            let mut plane: Vec<u8> = match before {
                Some(bytes) => bytes,
                None => Vec::new(),
            };
            std::mem::swap(&mut plane, data);
            *texture = PlaneTexture::Bytes {
                width,
                height,
                data: Some(plane),
                unpack_row_length,
                updated: TextureUpdated::Merged(Box::new(updated)),
            };
            PlaneChange::Merged
        },
        PlaneTexture::Placeholder => {
            let mut plane: Vec<u8> = Vec::new();
            std::mem::swap(&mut plane, data);
            *texture = PlaneTexture::Bytes {
                width,
                height,
                data: Some(plane),
                unpack_row_length: None,
                updated: TextureUpdated::Full,
            };
            PlaneChange::Replaced
        },
        PlaneTexture::Other => PlaneChange::Refused,
    }
}

/// A call that may change a player.
pub ghost enum PlayerCall {
    DisablePlaneImport,
    FallbackToCpuYuv,
    CheckPrepared {
        buffer_frame: Option<(u32, u32)>,
        plane_frame: Option<(u32, u32)>,
        waited: bool,
    },
    TakeBufferFrame { latest: Option<AndroidCameraHardwareBufferFrame> },
    UpdateBufferMetadata,
    PollFrame { frame: Option<PlaneFrame>, has_gl: bool },
    Cleanup,
}

/// The player after a call.
pub open spec fn called(player: AndroidCameraPlayer, call: PlayerCall) -> AndroidCameraPlayer {
    match call {
        PlayerCall::DisablePlaneImport => AndroidCameraPlayer {
            hardware_buffer_yuv_plane_import_disabled: true,
            ..player
        },
        PlayerCall::FallbackToCpuYuv => if player.texture_mode
            == AndroidCameraTextureMode::HardwareBufferExternal && player.has_camera_access {
            AndroidCameraPlayer {
                texture_mode: AndroidCameraTextureMode::CpuYuv,
                has_plane_frames: true,
                has_buffer_frames: false,
                warned_waiting_for_first_frame: false,
                logged_first_hardware_buffer_consume: false,
                cpu_yuv_upload_seq: 0,
                hardware_buffer_update_seq: 0,
                ..player
            }
        } else {
            player
        },
        PlayerCall::CheckPrepared { buffer_frame, plane_frame, waited } => match player.ready_size(
            buffer_frame,
            plane_frame,
        ) {
            Some(size) => AndroidCameraPlayer {
                width: size.0,
                height: size.1,
                prepared: true,
                prepare_notified: true,
                ..player
            },
            None => AndroidCameraPlayer {
                warned_waiting_for_first_frame: player.warned_waiting_for_first_frame || (waited
                    && !player.prepare_notified && player.has_buffer_frames),
                ..player
            },
        },
        PlayerCall::TakeBufferFrame { latest } => match latest {
            Some(frame) => if player.has_buffer_frames {
                AndroidCameraPlayer {
                    logged_first_hardware_buffer_consume: true,
                    width: frame.width,
                    height: frame.height,
                    prepared: true,
                    ..player
                }
            } else {
                player
            },
            None => player,
        },
        PlayerCall::UpdateBufferMetadata => AndroidCameraPlayer {
            hardware_buffer_update_seq: following(player.hardware_buffer_update_seq),
            ..player
        },
        PlayerCall::PollFrame { frame, has_gl } => if player.uploads(frame, has_gl) {
            AndroidCameraPlayer {
                width: frame->0.width,
                height: frame->0.height,
                cpu_yuv_upload_seq: if player.texture_mode == AndroidCameraTextureMode::CpuYuv {
                    following(player.cpu_yuv_upload_seq)
                } else {
                    player.cpu_yuv_upload_seq
                },
                ..player
            }
        } else {
            player
        },
        PlayerCall::Cleanup => AndroidCameraPlayer { has_camera_access: false, ..player },
    }
}

/// The call reports that the camera is ready.
pub open spec fn reports(player: AndroidCameraPlayer, call: PlayerCall) -> bool {
    match call {
        PlayerCall::CheckPrepared { buffer_frame, plane_frame, .. } => player.ready_size(
            buffer_frame,
            plane_frame,
        ) is Some,
        _ => false,
    }
}

/// How many of the calls, one after the other, report that the camera is ready.
pub open spec fn report_count(player: AndroidCameraPlayer, calls: Seq<PlayerCall>) -> nat
    decreases calls.len(),
{
    if calls.len() == 0 {
        0
    } else {
        let rest = report_count(called(player, calls[0]), calls.drop_first());
        if reports(player, calls[0]) {
            rest + 1
        } else {
            rest
        }
    }
}

/// A player reports at most once that its camera is ready, whatever is called before,
/// between and after; one that has reported never does again.
pub proof fn law_ready_is_reported_once(player: AndroidCameraPlayer, calls: Seq<PlayerCall>)
    ensures
        report_count(player, calls) <= 1,
        player.prepare_notified ==> report_count(player, calls) == 0,
    decreases calls.len(),
{
    if calls.len() > 0 {
        law_ready_is_reported_once(called(player, calls[0]), calls.drop_first());
    }
}

/// Half of a side is what a chroma plane has, for a side that is not zero.
pub proof fn law_chroma_planes_agree(side: u32)
    requires
        side > 0,
    ensures
        half_up(side) == chroma_side(side),
{
}

/// A sensor that is turned all the way round is not turned.
pub proof fn law_full_turns_do_not_count(degrees: i32)
    requires
        degrees + 360 <= i32::MAX,
    ensures
        quarter_turns((degrees + 360) as i32) == quarter_turns(degrees),
        0 <= quarter_turns(degrees) <= 3,
{
}

/// A camera that draws itself takes no frames; otherwise hardware buffers come before
/// copies, and OpenGL is used where neither is asked for.
pub proof fn law_mode_is_what_was_asked_for(request: CameraRequest)
    ensures
        ({
            let mode = requested_mode(request);
            &&& mode is HardwareBufferExternal <==> !request.native_preview
                && request.use_hardware_buffer_texture
            &&& mode is CpuYuv <==> !request.native_preview && !request.use_hardware_buffer_texture
                && request.use_cpu_plane_textures
            &&& mode is GlYuv <==> request.native_preview || (!request.use_hardware_buffer_texture
                && !request.use_cpu_plane_textures)
        }),
{
}

/// A camera is ready with the size of its first frame, from where its frames come; one that
/// draws itself is ready with its own size once it is prepared.
pub proof fn law_ready_with_the_first_frame(
    player: AndroidCameraPlayer,
    buffer_frame: Option<(u32, u32)>,
    plane_frame: Option<(u32, u32)>,
    waited: bool,
)
    requires
        player.wf(),
        !player.prepare_notified,
    ensures
        ({
            let size = player.ready_size(buffer_frame, plane_frame);
            let after = called(
                player,
                PlayerCall::CheckPrepared { buffer_frame, plane_frame, waited },
            );
            &&& player.native_preview && player.prepared ==> size == Some(
                (player.width, player.height),
            )
            &&& player.native_preview && !player.prepared ==> size is None
            &&& player.texture_mode is HardwareBufferExternal ==> size == buffer_frame
            &&& !player.native_preview && !(player.texture_mode is HardwareBufferExternal) ==> size
                == plane_frame
            &&& size is Some ==> after.prepare_notified && after.prepared && size == Some(
                (after.width, after.height),
            )
            &&& size is None ==> !after.prepare_notified && after.width == player.width
                && after.height == player.height
            &&& after.warned_waiting_for_first_frame && !player.warned_waiting_for_first_frame
                ==> waited && size is None
        }),
{
}

/// A frame in planes is uploaded exactly where the camera's frames are planes, the frame has
/// all of them and a pixel, and something can take them.
pub proof fn law_usable_planes_are_uploaded(
    player: AndroidCameraPlayer,
    frame: PlaneFrame,
    has_gl: bool,
)
    requires
        player.wf(),
    ensures
        player.uploads(Some(frame), has_gl) <==> {
            &&& !player.native_preview
            &&& player.texture_mode is CpuYuv || (player.texture_mode is GlYuv && has_gl)
            &&& frame.width >= 1 && frame.height >= 1 && frame.plane_count >= 3
        },
        !player.uploads(None, has_gl),
        player.uploads(Some(frame), has_gl) ==> {
            let after = called(player, PlayerCall::PollFrame { frame: Some(frame), has_gl });
            &&& after.width == frame.width && after.height == frame.height
            &&& player.texture_mode is CpuYuv && player.cpu_yuv_upload_seq < u64::MAX
                ==> after.cpu_yuv_upload_seq == player.cpu_yuv_upload_seq + 1
            &&& !(player.texture_mode is CpuYuv) ==> after.cpu_yuv_upload_seq
                == player.cpu_yuv_upload_seq
        },
{
}

/// A frame that is taken out of its hardware buffer makes the camera prepared, with its
/// size; falling back lets the planes come instead, and their counts start anew.
pub proof fn law_buffers_and_their_fallback(
    player: AndroidCameraPlayer,
    frame: AndroidCameraHardwareBufferFrame,
)
    requires
        player.wf(),
    ensures
        ({
            let taken = called(player, PlayerCall::TakeBufferFrame { latest: Some(frame) });
            let fallen = called(player, PlayerCall::FallbackToCpuYuv);
            &&& player.has_buffer_frames ==> taken.prepared && taken.width == frame.width
                && taken.height == frame.height
            &&& !player.has_buffer_frames ==> taken == player
            &&& called(player, PlayerCall::TakeBufferFrame { latest: None }) == player
            &&& player.has_buffer_frames && player.has_camera_access ==> {
                &&& fallen.texture_mode is CpuYuv && fallen.has_plane_frames
                &&& !fallen.has_buffer_frames && fallen.cpu_yuv_upload_seq == 0
                &&& fallen.hardware_buffer_update_seq == 0
                &&& fallen.prepare_notified == player.prepare_notified
            }
            &&& !player.has_buffer_frames || !player.has_camera_access ==> fallen == player
            &&& !called(player, PlayerCall::Cleanup).has_camera_access
            &&& called(
                player,
                PlayerCall::DisablePlaneImport,
            ).hardware_buffer_yuv_plane_import_disabled
        }),
{
}

/// A turn of the sensor is a number of quarter turns, less than four, and is told to the
/// shader as that number.
pub proof fn law_quarter_turns_are_told(degrees: i32)
    ensures
        0 <= quarter_turns(degrees) < 4,
        degrees == 0 ==> quarter_turns(degrees) == 0,
        degrees == 90 || degrees == -270 ==> quarter_turns(degrees) == 1,
        degrees == 180 || degrees == -180 ==> quarter_turns(degrees) == 2,
        degrees == 270 || degrees == -90 ==> quarter_turns(degrees) == 3,
        step_bits(0) == 0,
        step_bits(1) == 0x3f80_0000,
        step_bits(2) == 0x4000_0000,
        step_bits(3) == 0x4040_0000,
{
}

/// Frames are numbered one after the other, and each is described as itself: with its
/// number, its times where they are known, and its size.
pub proof fn law_plane_frames_are_described(frame: PlaneFrame, sequence: u64)
    ensures
        sequence < u64::MAX ==> following(sequence) == sequence + 1,
        sequence == u64::MAX ==> following(sequence) == u64::MAX,
        known_time(0) is None,
        sequence > 0 ==> known_time(sequence) == Some(sequence),
        ({
            let metadata = plane_metadata(frame);
            &&& metadata.camera_frame_sequence == Some(frame.sequence)
            &&& metadata.camera_timestamp_ns == Some(frame.timestamp_ns)
            &&& metadata.width == frame.width && metadata.height == frame.height
            &&& metadata.acquire_time_ns is Some <==> frame.acquire_time_ns != 0
            &&& metadata.resource_path is CpuYuvPlanes
            &&& metadata.descriptor_shape is CpuYuvPlaneTextures
            &&& !metadata.fallback_active
        }),
{
}

/// Half a side is rounded up.
pub proof fn law_half_a_side_is_rounded_up(side: u32)
    ensures
        2 * half_up(side) == side || 2 * half_up(side) == side + 1,
{
}

/// A camera is prepared with its size, with one track, of the camera, with no sound, and
/// with no end to go to.
pub proof fn law_prepared_cameras_have_one_track(
    prepared: PlaybackPrepared,
    width: u32,
    height: u32,
)
    requires
        is_camera_prepared(prepared, width, height),
    ensures
        (prepared.width, prepared.height) == (width, height),
        prepared.duration == 0 && !prepared.is_seekable,
        prepared.video_tracks@.len() == 1 && prepared.video_tracks@[0]@ == "camera"@,
        prepared.audio_tracks@.len() == 0,
{
}

/// Buffers that come are numbered one after the other.
pub proof fn law_buffers_are_numbered(inbox: HardwareBufferInbox)
    ensures
        inbox.sequence < u64::MAX ==> inbox.next_sequence() == inbox.sequence + 1,
        inbox.next_sequence() >= inbox.sequence,
{
}

} // verus!

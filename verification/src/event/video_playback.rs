//! Events of video playback, and what is known of a video's textures.

use std::rc::Rc;
use vstd::prelude::*;

use crate::float_bits::F32_ONE;
use crate::ids::{
    LiveId, MediaPlaybackSessionId, TextureId, VideoFormatId, VideoFrameSessionId, VideoInputId,
};

verus! {

/// A video is ready to be played.
#[derive(Clone, Debug)]
pub struct VideoPlaybackPreparedEvent {
    pub video_id: LiveId,
    pub video_width: u32,
    pub video_height: u32,
    pub duration: u128,
    /// Whether the source can seek.
    pub is_seekable: bool,
    /// Labels of the video tracks; none for a source with audio only.
    pub video_tracks: Vec<String>,
    /// Labels of the audio tracks.
    pub audio_tracks: Vec<String>,
}

/// Metadata of a video came.
#[derive(Clone, Debug)]
pub struct VideoPlaybackMetadataEvent {
    pub video_id: LiveId,
    pub metadata_json: String,
}

/// How a shader reads the planes of a video. Numbers are the bits of single-precision
/// ones.
#[derive(Clone, Copy, PartialEq, Eq, Structural, Debug)]
pub struct VideoYuvMetadata {
    /// The shader reads the planes instead of the external texture.
    pub enabled: bool,
    /// The color matrix: 0.0 for BT.709, 1.0 for BT.601, 2.0 for BT.2020.
    pub matrix: u32,
    /// Both chroma planes are in one texture.
    pub biplanar: bool,
    /// Quarter turns clockwise: 0.0 to 3.0.
    pub rotation_steps: u32,
}

/// The number that a shader takes for a switch: 1.0 or 0.0.
pub open spec fn shader_switch(on: bool) -> u32 {
    if on {
        F32_ONE
    } else {
        0
    }
}

impl VideoYuvMetadata {
    /// The shader reads no planes.
    pub fn disabled() -> (metadata: VideoYuvMetadata)
        ensures
            metadata == (VideoYuvMetadata {
                enabled: false,
                matrix: 0,
                biplanar: false,
                rotation_steps: 0,
            }),
    {
        VideoYuvMetadata { enabled: false, matrix: 0, biplanar: false, rotation_steps: 0 }
    }

    /// Whether planes are read, as a number for the shader.
    pub fn shader_enabled(self) -> (bits: u32)
        ensures
            bits == shader_switch(self.enabled),
    {
        if self.enabled {
            F32_ONE
        } else {
            0
        }
    }

    /// Whether the chroma planes are in one texture, as a number for the shader.
    pub fn shader_biplanar(self) -> (bits: u32)
        ensures
            bits == shader_switch(self.biplanar),
    {
        if self.biplanar {
            F32_ONE
        } else {
            0
        }
    }
}

impl Default for VideoYuvMetadata {
    fn default() -> (metadata: VideoYuvMetadata)
        ensures
            metadata == (VideoYuvMetadata {
                enabled: false,
                matrix: 0,
                biplanar: false,
                rotation_steps: 0,
            }),
    {
        VideoYuvMetadata::disabled()
    }
}

/// How the pixels of a video come into its texture.
#[derive(Clone, Copy, PartialEq, Eq, Structural, Debug)]
pub enum VideoTextureResourcePath {
    Unspecified,
    CpuYuvPlanes,
    HardwareBufferExternal,
    HardwareBufferYuvPlanes,
    SurfaceTextureExternal,
    SoftwareYuvPlanes,
}

impl VideoTextureResourcePath {
    /// The name of the path.
    pub open spec fn name(self) -> Seq<char> {
        match self {
            VideoTextureResourcePath::Unspecified => "unspecified"@,
            VideoTextureResourcePath::CpuYuvPlanes => "cpu-yuv-planes"@,
            VideoTextureResourcePath::HardwareBufferExternal => "hardware-buffer-external"@,
            VideoTextureResourcePath::HardwareBufferYuvPlanes => "hardware-buffer-yuv-planes"@,
            VideoTextureResourcePath::SurfaceTextureExternal => "surface-texture-external"@,
            VideoTextureResourcePath::SoftwareYuvPlanes => "software-yuv-planes"@,
        }
    }

    /// The name of the path.
    pub fn as_str(self) -> (name: &'static str)
        ensures
            name@ == self.name(),
    {
        match self {
            VideoTextureResourcePath::Unspecified => "unspecified",
            VideoTextureResourcePath::CpuYuvPlanes => "cpu-yuv-planes",
            VideoTextureResourcePath::HardwareBufferExternal => "hardware-buffer-external",
            VideoTextureResourcePath::HardwareBufferYuvPlanes => "hardware-buffer-yuv-planes",
            VideoTextureResourcePath::SurfaceTextureExternal => "surface-texture-external",
            VideoTextureResourcePath::SoftwareYuvPlanes => "software-yuv-planes",
        }
    }
}

impl Default for VideoTextureResourcePath {
    fn default() -> (path: VideoTextureResourcePath)
        ensures
            path == VideoTextureResourcePath::Unspecified,
    {
        VideoTextureResourcePath::Unspecified
    }
}

/// Different paths have different names.
pub proof fn law_path_names_are_distinct(a: VideoTextureResourcePath, b: VideoTextureResourcePath)
    ensures
        a.name() == b.name() ==> a == b,
{
    reveal_strlit("unspecified");
    reveal_strlit("cpu-yuv-planes");
    reveal_strlit("hardware-buffer-external");
    reveal_strlit("hardware-buffer-yuv-planes");
    reveal_strlit("surface-texture-external");
    reveal_strlit("software-yuv-planes");
    if a.name() == b.name() {
        assert(a.name().len() == b.name().len());
        assert(a.name()[0] == b.name()[0]);
    }
}

/// How a shader binds the texture of a video.
#[derive(Clone, Copy, PartialEq, Eq, Structural, Debug)]
pub enum VideoTextureDescriptorShape {
    Unspecified,
    CpuYuvPlaneTextures,
    ImportedYuvPlaneTextures,
    SampledImageAndSampler,
    SampledImageAndSamplerYcbcrConversion,
    CombinedImmutableSamplerYcbcrConversion,
    SurfaceTextureExternalOes,
}

impl VideoTextureDescriptorShape {
    /// The name of the shape.
    pub open spec fn name(self) -> Seq<char> {
        match self {
            VideoTextureDescriptorShape::Unspecified => "unspecified"@,
            VideoTextureDescriptorShape::CpuYuvPlaneTextures => "cpu-yuv-plane-textures"@,
            VideoTextureDescriptorShape::ImportedYuvPlaneTextures => "imported-yuv-plane-textures"@,
            VideoTextureDescriptorShape::SampledImageAndSampler => "sampled-image-and-sampler"@,
            VideoTextureDescriptorShape::SampledImageAndSamplerYcbcrConversion => "sampled-image-and-sampler-ycbcr-conversion"@,
            VideoTextureDescriptorShape::CombinedImmutableSamplerYcbcrConversion => "combined-immutable-sampler-ycbcr-conversion"@,
            VideoTextureDescriptorShape::SurfaceTextureExternalOes => "surface-texture-external-oes"@,
        }
    }

    /// The name of the shape.
    pub fn as_str(self) -> (name: &'static str)
        ensures
            name@ == self.name(),
    {
        match self {
            VideoTextureDescriptorShape::Unspecified => "unspecified",
            VideoTextureDescriptorShape::CpuYuvPlaneTextures => "cpu-yuv-plane-textures",
            VideoTextureDescriptorShape::ImportedYuvPlaneTextures => "imported-yuv-plane-textures",
            VideoTextureDescriptorShape::SampledImageAndSampler => "sampled-image-and-sampler",
            VideoTextureDescriptorShape::SampledImageAndSamplerYcbcrConversion => {
                "sampled-image-and-sampler-ycbcr-conversion"
            },
            VideoTextureDescriptorShape::CombinedImmutableSamplerYcbcrConversion => {
                "combined-immutable-sampler-ycbcr-conversion"
            },
            VideoTextureDescriptorShape::SurfaceTextureExternalOes => {
                "surface-texture-external-oes"
            },
        }
    }
}

impl Default for VideoTextureDescriptorShape {
    fn default() -> (shape: VideoTextureDescriptorShape)
        ensures
            shape == VideoTextureDescriptorShape::Unspecified,
    {
        VideoTextureDescriptorShape::Unspecified
    }
}

/// Different shapes have different names.
pub proof fn law_shape_names_are_distinct(
    a: VideoTextureDescriptorShape,
    b: VideoTextureDescriptorShape,
)
    ensures
        a.name() == b.name() ==> a == b,
{
    reveal_strlit("unspecified");
    reveal_strlit("cpu-yuv-plane-textures");
    reveal_strlit("imported-yuv-plane-textures");
    reveal_strlit("sampled-image-and-sampler");
    reveal_strlit("sampled-image-and-sampler-ycbcr-conversion");
    reveal_strlit("combined-immutable-sampler-ycbcr-conversion");
    reveal_strlit("surface-texture-external-oes");
    if a.name() == b.name() {
        assert(a.name().len() == b.name().len());
    }
}

/// How the colors of a video are converted.
#[derive(Clone, PartialEq, Eq, Debug)]
pub struct VideoTextureYcbcrConversionMetadata {
    pub suggested_model: String,
    pub suggested_range: String,
    pub effective_model: String,
    pub effective_range: String,
    pub components: String,
    pub suggested_x_chroma_offset: String,
    pub suggested_y_chroma_offset: String,
    pub conversion_mode: String,
    pub sampler_binding_mode: String,
    pub sampler_binding_compliance: String,
    pub shader_sample_lowering: String,
}

impl Default for VideoTextureYcbcrConversionMetadata {
    fn default() -> (metadata: VideoTextureYcbcrConversionMetadata)
        ensures
            metadata.suggested_model@ == ""@,
            metadata.suggested_range@ == ""@,
            metadata.effective_model@ == ""@,
            metadata.effective_range@ == ""@,
            metadata.components@ == ""@,
            metadata.suggested_x_chroma_offset@ == ""@,
            metadata.suggested_y_chroma_offset@ == ""@,
            metadata.conversion_mode@ == ""@,
            metadata.sampler_binding_mode@ == ""@,
            metadata.sampler_binding_compliance@ == ""@,
            metadata.shader_sample_lowering@ == ""@,
    {
        proof {
            reveal_strlit("");
        }
        VideoTextureYcbcrConversionMetadata {
            suggested_model: "".to_owned(),
            suggested_range: "".to_owned(),
            effective_model: "".to_owned(),
            effective_range: "".to_owned(),
            components: "".to_owned(),
            suggested_x_chroma_offset: "".to_owned(),
            suggested_y_chroma_offset: "".to_owned(),
            conversion_mode: "".to_owned(),
            sampler_binding_mode: "".to_owned(),
            sampler_binding_compliance: "".to_owned(),
            shader_sample_lowering: "".to_owned(),
        }
    }
}

/// What is known of an update of a video's texture.
#[derive(Clone, PartialEq, Eq, Debug)]
pub struct VideoTextureUpdateMetadata {
    pub resource_path: VideoTextureResourcePath,
    pub descriptor_shape: VideoTextureDescriptorShape,
    pub camera_input_id: Option<VideoInputId>,
    pub camera_format_id: Option<VideoFormatId>,
    pub camera_frame_sequence: Option<u64>,
    pub camera_timestamp_ns: Option<u64>,
    pub acquire_time_ns: Option<u64>,
    pub upload_sequence: Option<u64>,
    pub upload_time_ns: Option<u64>,
    pub import_sequence: Option<u64>,
    pub import_time_ns: Option<u64>,
    pub texture_update_sequence: Option<u64>,
    pub width: u32,
    pub height: u32,
    pub vulkan_format: Option<String>,
    pub vulkan_external_format: Option<u64>,
    pub ycbcr_conversion: Option<VideoTextureYcbcrConversionMetadata>,
    pub resource_reused: Option<bool>,
    pub fallback_active: bool,
    pub fallback_reason: Option<String>,
}

/// Nothing is known of an update.
pub open spec fn unknown_update() -> VideoTextureUpdateMetadata {
    VideoTextureUpdateMetadata {
        resource_path: VideoTextureResourcePath::Unspecified,
        descriptor_shape: VideoTextureDescriptorShape::Unspecified,
        camera_input_id: None,
        camera_format_id: None,
        camera_frame_sequence: None,
        camera_timestamp_ns: None,
        acquire_time_ns: None,
        upload_sequence: None,
        upload_time_ns: None,
        import_sequence: None,
        import_time_ns: None,
        texture_update_sequence: None,
        width: 0,
        height: 0,
        vulkan_format: None,
        vulkan_external_format: None,
        ycbcr_conversion: None,
        resource_reused: None,
        fallback_active: false,
        fallback_reason: None,
    }
}

/// What is noted of an update.
pub ghost enum MetadataNote {
    Resource { resource_path: VideoTextureResourcePath, descriptor_shape: VideoTextureDescriptorShape, width: u32, height: u32 },
    CameraSource { input_id: VideoInputId, format_id: VideoFormatId },
    CameraFrame { sequence: u64, timestamp_ns: u64, acquire_time_ns: Option<u64> },
    CpuYuvUpload { upload_sequence: u64, upload_time_ns: u64 },
    HardwareBufferImport { import_sequence: u64, import_time_ns: u64 },
    VulkanFormat { vulkan_format: String, external_format: Option<u64> },
    YcbcrConversion { ycbcr_conversion: VideoTextureYcbcrConversionMetadata },
    ResourceReused { resource_reused: bool },
    Fallback { reason: String },
}

/// What is known of an update with one more note.
pub open spec fn noted(metadata: VideoTextureUpdateMetadata, note: MetadataNote) -> VideoTextureUpdateMetadata {
    match note {
        MetadataNote::Resource { resource_path, descriptor_shape, width, height } => VideoTextureUpdateMetadata {
            resource_path,
            descriptor_shape,
            width,
            height,
            ..metadata
        },
        MetadataNote::CameraSource { input_id, format_id } => VideoTextureUpdateMetadata {
            camera_input_id: Some(input_id),
            camera_format_id: Some(format_id),
            ..metadata
        },
        MetadataNote::CameraFrame { sequence, timestamp_ns, acquire_time_ns } => VideoTextureUpdateMetadata {
            camera_frame_sequence: Some(sequence),
            camera_timestamp_ns: Some(timestamp_ns),
            acquire_time_ns,
            ..metadata
        },
        MetadataNote::CpuYuvUpload { upload_sequence, upload_time_ns } => VideoTextureUpdateMetadata {
            upload_sequence: Some(upload_sequence),
            upload_time_ns: Some(upload_time_ns),
            texture_update_sequence: Some(upload_sequence),
            ..metadata
        },
        MetadataNote::HardwareBufferImport { import_sequence, import_time_ns } => VideoTextureUpdateMetadata {
            import_sequence: Some(import_sequence),
            import_time_ns: Some(import_time_ns),
            texture_update_sequence: Some(import_sequence),
            ..metadata
        },
        MetadataNote::VulkanFormat { vulkan_format, external_format } => VideoTextureUpdateMetadata {
            vulkan_format: Some(vulkan_format),
            vulkan_external_format: external_format,
            ..metadata
        },
        MetadataNote::YcbcrConversion { ycbcr_conversion } => VideoTextureUpdateMetadata {
            ycbcr_conversion: Some(ycbcr_conversion),
            ..metadata
        },
        MetadataNote::ResourceReused { resource_reused } => VideoTextureUpdateMetadata {
            resource_reused: Some(resource_reused),
            ..metadata
        },
        MetadataNote::Fallback { reason } => VideoTextureUpdateMetadata {
            fallback_active: true,
            fallback_reason: Some(reason),
            ..metadata
        },
    }
}

/// What is known of an update after a chain of notes.
pub open spec fn noted_all(
    metadata: VideoTextureUpdateMetadata,
    notes: Seq<MetadataNote>,
) -> VideoTextureUpdateMetadata
    decreases notes.len(),
{
    if notes.len() == 0 {
        metadata
    } else {
        noted(noted_all(metadata, notes.drop_last()), notes.last())
    }
}

/// A fallback is active exactly where it has a reason.
pub open spec fn fallback_explained(metadata: VideoTextureUpdateMetadata) -> bool {
    metadata.fallback_active == (metadata.fallback_reason is Some)
}

/// Whatever is noted of an update of which nothing was known, a fallback is active
/// exactly where it has a reason, and it is active exactly where one was noted.
pub proof fn law_fallback_has_a_reason(notes: Seq<MetadataNote>)
    ensures
        fallback_explained(noted_all(unknown_update(), notes)),
        noted_all(unknown_update(), notes).fallback_active == exists|i: int|
            0 <= i < notes.len() && #[trigger] notes[i] is Fallback,
    decreases notes.len(),
{
    if notes.len() > 0 {
        let before = notes.drop_last();
        law_fallback_has_a_reason(before);
        assert(forall|i: int| 0 <= i < before.len() ==> before[i] == notes[i]);
        if noted_all(unknown_update(), notes).fallback_active {
            if notes.last() is Fallback {
                assert(notes[notes.len() - 1] is Fallback);
            } else {
                let i = choose|i: int| 0 <= i < before.len() && #[trigger] before[i] is Fallback;
                assert(notes[i] is Fallback);
            }
        }
        if exists|i: int| 0 <= i < notes.len() && #[trigger] notes[i] is Fallback {
            let i = choose|i: int| 0 <= i < notes.len() && #[trigger] notes[i] is Fallback;
            if i < before.len() {
                assert(before[i] is Fallback);
            }
        }
    }
}

impl Default for VideoTextureUpdateMetadata {
    fn default() -> (metadata: VideoTextureUpdateMetadata)
        ensures
            metadata == unknown_update(),
    {
        VideoTextureUpdateMetadata {
            resource_path: VideoTextureResourcePath::Unspecified,
            descriptor_shape: VideoTextureDescriptorShape::Unspecified,
            camera_input_id: None,
            camera_format_id: None,
            camera_frame_sequence: None,
            camera_timestamp_ns: None,
            acquire_time_ns: None,
            upload_sequence: None,
            upload_time_ns: None,
            import_sequence: None,
            import_time_ns: None,
            texture_update_sequence: None,
            width: 0,
            height: 0,
            vulkan_format: None,
            vulkan_external_format: None,
            ycbcr_conversion: None,
            resource_reused: None,
            fallback_active: false,
            fallback_reason: None,
        }
    }
}

impl VideoTextureUpdateMetadata {
    /// Notes how the pixels came, how they are bound, and how many there are.
    pub fn with_resource(
        self,
        resource_path: VideoTextureResourcePath,
        descriptor_shape: VideoTextureDescriptorShape,
        width: u32,
        height: u32,
    ) -> (metadata: VideoTextureUpdateMetadata)
        ensures
            metadata == noted(self, MetadataNote::Resource { resource_path, descriptor_shape, width, height }),
    {
        let mut metadata = self;
        metadata.resource_path = resource_path;
        metadata.descriptor_shape = descriptor_shape;
        metadata.width = width;
        metadata.height = height;
        metadata
    }

    /// Notes the camera.
    pub fn with_camera_source(self, input_id: VideoInputId, format_id: VideoFormatId) -> (metadata:
        VideoTextureUpdateMetadata)
        ensures
            metadata == noted(self, MetadataNote::CameraSource { input_id, format_id }),
    {
        let mut metadata = self;
        metadata.camera_input_id = Some(input_id);
        metadata.camera_format_id = Some(format_id);
        metadata
    }

    /// Notes the frame of the camera.
    pub fn with_camera_frame(
        self,
        sequence: u64,
        timestamp_ns: u64,
        acquire_time_ns: Option<u64>,
    ) -> (metadata: VideoTextureUpdateMetadata)
        ensures
            metadata == noted(self, MetadataNote::CameraFrame { sequence, timestamp_ns, acquire_time_ns }),
    {
        let mut metadata = self;
        metadata.camera_frame_sequence = Some(sequence);
        metadata.camera_timestamp_ns = Some(timestamp_ns);
        metadata.acquire_time_ns = acquire_time_ns;
        metadata
    }

    /// Notes an upload of planes, which is an update of the texture.
    pub fn with_cpu_yuv_upload(self, upload_sequence: u64, upload_time_ns: u64) -> (metadata:
        VideoTextureUpdateMetadata)
        ensures
            metadata == noted(self, MetadataNote::CpuYuvUpload { upload_sequence, upload_time_ns }),
    {
        let mut metadata = self;
        metadata.upload_sequence = Some(upload_sequence);
        metadata.upload_time_ns = Some(upload_time_ns);
        metadata.texture_update_sequence = Some(upload_sequence);
        metadata
    }

    /// Notes the import of a hardware buffer, which is an update of the texture.
    pub fn with_hardware_buffer_import(self, import_sequence: u64, import_time_ns: u64) -> (metadata:
        VideoTextureUpdateMetadata)
        ensures
            metadata == noted(self, MetadataNote::HardwareBufferImport { import_sequence, import_time_ns }),
    {
        let mut metadata = self;
        metadata.import_sequence = Some(import_sequence);
        metadata.import_time_ns = Some(import_time_ns);
        metadata.texture_update_sequence = Some(import_sequence);
        metadata
    }

    /// Notes the format of the device.
    pub fn with_vulkan_format(self, vulkan_format: String, external_format: Option<u64>) -> (metadata:
        VideoTextureUpdateMetadata)
        ensures
            metadata == noted(self, MetadataNote::VulkanFormat { vulkan_format, external_format }),
    {
        let mut metadata = self;
        metadata.vulkan_format = Some(vulkan_format);
        metadata.vulkan_external_format = external_format;
        metadata
    }

    /// Notes how the colors are converted.
    pub fn with_ycbcr_conversion(self, ycbcr_conversion: VideoTextureYcbcrConversionMetadata) -> (
        metadata: VideoTextureUpdateMetadata)
        ensures
            metadata == noted(self, MetadataNote::YcbcrConversion { ycbcr_conversion }),
    {
        let mut metadata = self;
        metadata.ycbcr_conversion = Some(ycbcr_conversion);
        metadata
    }

    /// Notes whether the texture was there before.
    pub fn with_resource_reused(self, resource_reused: bool) -> (metadata:
        VideoTextureUpdateMetadata)
        ensures
            metadata == noted(self, MetadataNote::ResourceReused { resource_reused }),
    {
        let mut metadata = self;
        metadata.resource_reused = Some(resource_reused);
        metadata
    }

    /// Notes that a way was taken that is second best, and why.
    pub fn with_fallback(self, reason: String) -> (metadata: VideoTextureUpdateMetadata)
        ensures
            metadata == noted(self, MetadataNote::Fallback { reason }),
    {
        let mut metadata = self;
        metadata.fallback_active = true;
        metadata.fallback_reason = Some(reason);
        metadata
    }
}

/// The texture of a video was updated.
#[derive(Clone, Debug)]
pub struct VideoTextureUpdatedEvent {
    pub video_id: LiveId,
    pub current_position_ms: u128,
    pub yuv: VideoYuvMetadata,
    pub metadata: VideoTextureUpdateMetadata,
}

/// How the preview of a camera is shown.
#[derive(Clone, Copy, PartialEq, Eq, Structural, Debug)]
pub enum CameraPreviewMode {
    Texture,
    Native,
    Auto,
}

/// A stream of a broker.
#[derive(Clone, PartialEq, Eq, Debug)]
pub struct BrokerH264VideoSource {
    pub broker_host: String,
    pub broker_port: u16,
    pub stream_port: u16,
    pub source_mode: String,
    /// `auto` is a surface texture where an external texture is there, else planes.
    pub decode_output_mode: String,
    pub synthetic_pattern: String,
    pub synthetic_projection_profile: String,
    pub source_sampling_mode: String,
    pub target_screen_uv_rect: String,
    pub camera_id: String,
    pub stereo_pair_id: String,
    pub stereo_pair_role: String,
    pub stereo_pair_max_delta_ns: u32,
    pub preferred_width: u32,
    pub preferred_height: u32,
    pub capture_ms: u32,
    pub max_packets: u32,
    pub bitrate_bps: u32,
    pub frame_rate_hz: u32,
    pub command_timeout_ms: u32,
    pub stream_timeout_ms: u32,
    pub decode_timeout_ms: u32,
    pub live_stream: bool,
}

impl Default for BrokerH264VideoSource {
    fn default() -> (source: BrokerH264VideoSource)
        ensures
            source.broker_host@ == "127.0.0.1"@,
            source.broker_port == 8765,
            source.stream_port == 8879,
            source.source_mode@ == "broker-synthetic"@,
            source.decode_output_mode@ == "auto"@,
            source.synthetic_pattern@ == "diagnostic-grid"@,
            source.synthetic_projection_profile@ == "head-anchored-virtual-camera"@,
            source.source_sampling_mode@.len() == 0,
            source.target_screen_uv_rect@.len() == 0,
            source.camera_id@.len() == 0,
            source.stereo_pair_id@.len() == 0,
            source.stereo_pair_role@.len() == 0,
            source.stereo_pair_max_delta_ns == 25_000_000,
            source.preferred_width == 1280,
            source.preferred_height == 1280,
            source.capture_ms == 900,
            source.max_packets == 32,
            source.bitrate_bps == 2_000_000,
            source.frame_rate_hz == 30,
            source.command_timeout_ms == 10_000,
            source.stream_timeout_ms == 20_000,
            source.decode_timeout_ms == 5_000,
            !source.live_stream,
    {
        proof {
            reveal_strlit("");
        }
        BrokerH264VideoSource {
            broker_host: "127.0.0.1".to_owned(),
            broker_port: 8765,
            stream_port: 8879,
            source_mode: "broker-synthetic".to_owned(),
            decode_output_mode: "auto".to_owned(),
            synthetic_pattern: "diagnostic-grid".to_owned(),
            synthetic_projection_profile: "head-anchored-virtual-camera".to_owned(),
            source_sampling_mode: "".to_owned(),
            target_screen_uv_rect: "".to_owned(),
            camera_id: "".to_owned(),
            stereo_pair_id: "".to_owned(),
            stereo_pair_role: "".to_owned(),
            stereo_pair_max_delta_ns: 25_000_000,
            preferred_width: 1280,
            preferred_height: 1280,
            capture_ms: 900,
            max_packets: 32,
            bitrate_bps: 2_000_000,
            frame_rate_hz: 30,
            command_timeout_ms: 10_000,
            stream_timeout_ms: 20_000,
            decode_timeout_ms: 5_000,
            live_stream: false,
        }
    }
}

/// Where a video comes from.
#[derive(Clone, PartialEq, Eq, Debug)]
pub enum VideoSource {
    InMemory(Rc<Vec<u8>>),
    Network(String),
    Filesystem(String),
    Camera(VideoInputId, VideoFormatId),
    BrokerH264(BrokerH264VideoSource),
    PlaybackSession(MediaPlaybackSessionId),
    Session(VideoFrameSessionId),
}

impl VideoSource {
    /// Whether the video comes from a session.
    pub fn is_session(&self) -> (session: bool)
        ensures
            session == (self is PlaybackSession || self is Session),
    {
        match self {
            VideoSource::PlaybackSession(_) | VideoSource::Session(_) => true,
            _ => false,
        }
    }

    /// Whether the video can be decoded in software: all but cameras and brokers.
    pub open spec fn has_software_fallback(&self) -> bool {
        !(self is Camera || self is BrokerH264)
    }

    /// Whether the video can be decoded in software.
    pub fn supports_software_fallback(&self) -> (supported: bool)
        ensures
            supported == self.has_software_fallback(),
    {
        match self {
            VideoSource::InMemory(_)
            | VideoSource::Network(_)
            | VideoSource::Filesystem(_)
            | VideoSource::PlaybackSession(_)
            | VideoSource::Session(_) => true,
            _ => false,
        }
    }
}

/// Every session can be decoded in software.
pub proof fn law_sessions_have_a_fallback(source: VideoSource)
    requires
        source is PlaybackSession || source is Session,
    ensures
        source.has_software_fallback(),
{
}

/// A video was played to its end.
#[derive(Clone, Copy, PartialEq, Eq, Structural, Debug)]
pub struct VideoPlaybackCompletedEvent {
    pub video_id: LiveId,
}

/// What a video needed was released.
#[derive(Clone, Copy, PartialEq, Eq, Structural, Debug)]
pub struct VideoPlaybackResourcesReleasedEvent {
    pub video_id: LiveId,
}

/// A video cannot be decoded.
#[derive(Clone, Debug)]
pub struct VideoDecodingErrorEvent {
    pub video_id: LiveId,
    pub error: String,
}

/// A texture has its handle.
#[derive(Clone, Copy, PartialEq, Eq, Structural, Debug)]
pub struct TextureHandleReadyEvent {
    pub texture_id: TextureId,
    pub handle: u32,
}

/// The planes of a video have their textures.
#[derive(Clone, Copy, PartialEq, Eq, Structural, Debug)]
pub struct VideoYuvTexturesReady {
    pub video_id: LiveId,
    pub tex_y: TextureId,
    pub tex_u: TextureId,
    pub tex_v: TextureId,
}

/// Where a video can seek to: ranges of seconds, by the bits of double-precision
/// numbers.
#[derive(Clone, Debug)]
pub struct VideoSeekableRangesEvent {
    pub video_id: LiveId,
    pub ranges: Vec<(u64, u64)>,
}

/// What of a video is loaded: ranges of seconds, by the bits of double-precision
/// numbers.
#[derive(Clone, Debug)]
pub struct VideoBufferedRangesEvent {
    pub video_id: LiveId,
    pub ranges: Vec<(u64, u64)>,
}

/// What is noted of an update can be read back from it, each thing in its own field.
pub proof fn law_notes_can_be_read_back(
    metadata: VideoTextureUpdateMetadata,
    first: u64,
    second: u64,
    known: Option<u64>,
)
    ensures
        ({
            let after = noted(
                metadata,
                MetadataNote::CameraFrame {
                    sequence: first,
                    timestamp_ns: second,
                    acquire_time_ns: known,
                },
            );
            &&& after.camera_frame_sequence == Some(first)
            &&& after.camera_timestamp_ns == Some(second)
            &&& after.acquire_time_ns == known
            &&& after.upload_sequence == metadata.upload_sequence
            &&& after.import_sequence == metadata.import_sequence
            &&& after.texture_update_sequence == metadata.texture_update_sequence
        }),
        ({
            let after = noted(
                metadata,
                MetadataNote::CpuYuvUpload { upload_sequence: first, upload_time_ns: second },
            );
            &&& after.upload_sequence == Some(first) && after.upload_time_ns == Some(second)
            &&& after.texture_update_sequence == Some(first)
            &&& after.import_sequence == metadata.import_sequence
            &&& after.import_time_ns == metadata.import_time_ns
            &&& after.camera_frame_sequence == metadata.camera_frame_sequence
        }),
        ({
            let after = noted(
                metadata,
                MetadataNote::HardwareBufferImport {
                    import_sequence: first,
                    import_time_ns: second,
                },
            );
            &&& after.import_sequence == Some(first) && after.import_time_ns == Some(second)
            &&& after.texture_update_sequence == Some(first)
            &&& after.upload_sequence == metadata.upload_sequence
            &&& after.upload_time_ns == metadata.upload_time_ns
            &&& after.camera_frame_sequence == metadata.camera_frame_sequence
        }),
{
}

/// The camera, the resource, its format, its conversion and its reuse that are noted are
/// those of the update, and nothing else of it changes; only a fallback makes it one.
pub proof fn law_notes_leave_the_rest(metadata: VideoTextureUpdateMetadata, note: MetadataNote)
    ensures
        ({
            let after = noted(metadata, note);
            &&& note is Resource ==> after.resource_path == note->resource_path
                && after.descriptor_shape == note->descriptor_shape && after.width == note->width
                && after.height == note->height
            &&& !(note is Resource) ==> after.resource_path == metadata.resource_path
                && after.descriptor_shape == metadata.descriptor_shape && after.width
                == metadata.width && after.height == metadata.height
            &&& note is CameraSource ==> after.camera_input_id == Some(note->input_id)
                && after.camera_format_id == Some(note->format_id)
            &&& !(note is CameraSource) ==> after.camera_input_id == metadata.camera_input_id
                && after.camera_format_id == metadata.camera_format_id
            &&& note is VulkanFormat ==> after.vulkan_format == Some(note->vulkan_format)
                && after.vulkan_external_format == note->external_format
            &&& !(note is VulkanFormat) ==> after.vulkan_format == metadata.vulkan_format
                && after.vulkan_external_format == metadata.vulkan_external_format
            &&& note is YcbcrConversion ==> after.ycbcr_conversion == Some(note->ycbcr_conversion)
            &&& !(note is YcbcrConversion) ==> after.ycbcr_conversion == metadata.ycbcr_conversion
            &&& note is ResourceReused ==> after.resource_reused == Some(note->resource_reused)
            &&& !(note is ResourceReused) ==> after.resource_reused == metadata.resource_reused
            &&& note is Fallback ==> after.fallback_active && after.fallback_reason == Some(
                note->reason,
            )
            &&& !(note is Fallback) ==> after.fallback_active == metadata.fallback_active
                && after.fallback_reason == metadata.fallback_reason
        }),
{
}

/// A shader takes a switch as one where it is on and as zero where it is off.
pub proof fn law_switches_are_one_or_zero(on: bool)
    ensures
        on ==> shader_switch(on) == 0x3f80_0000,
        !on ==> shader_switch(on) == 0,
{
}

/// What is in memory, in a file, on the network or in a session can be decoded in software;
/// what a camera or a broker sends cannot.
pub proof fn law_sources_with_a_fallback(source: VideoSource)
    ensures
        source is InMemory || source is Network || source is Filesystem || source is Session
            || source is PlaybackSession ==> source.has_software_fallback(),
        source is Camera || source is BrokerH264 ==> !source.has_software_fallback(),
{
}

/// Of an update that nothing was noted of, nothing is known.
pub proof fn law_nothing_is_known_at_first()
    ensures
        ({
            let update = unknown_update();
            &&& update.resource_path is Unspecified && update.descriptor_shape is Unspecified
            &&& update.camera_input_id is None && update.camera_format_id is None
            &&& update.camera_frame_sequence is None && update.camera_timestamp_ns is None
            &&& update.acquire_time_ns is None && update.texture_update_sequence is None
            &&& update.upload_sequence is None && update.upload_time_ns is None
            &&& update.import_sequence is None && update.import_time_ns is None
            &&& update.width == 0 && update.height == 0
            &&& update.vulkan_format is None && update.vulkan_external_format is None
            &&& update.ycbcr_conversion is None && update.resource_reused is None
            &&& !update.fallback_active && update.fallback_reason is None
        }),
{
}

} // verus!

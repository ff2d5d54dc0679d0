//! Events of the platform.

pub mod video_playback;

//! Android: what its messages and its camera lead to.

pub mod amidi_sys;
pub mod camera_player;
pub mod coalesce;
pub mod input;
pub mod lifecycle;
pub mod messages;
pub mod network;
pub mod surface;
pub mod video;

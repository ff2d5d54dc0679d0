//! Names of things by number.

use vstd::prelude::*;

verus! {

/// A name as a number.
#[derive(Clone, Copy, PartialEq, Eq, Hash, Structural, Debug)]
pub struct LiveId(pub u64);

/// A texture.
#[derive(Clone, Copy, PartialEq, Eq, Hash, Structural, Debug)]
pub struct TextureId(pub u64);

/// A camera.
#[derive(Clone, Copy, PartialEq, Eq, Hash, Structural, Debug)]
pub struct VideoInputId(pub LiveId);

/// A format of a camera.
#[derive(Clone, Copy, PartialEq, Eq, Hash, Structural, Debug)]
pub struct VideoFormatId(pub LiveId);

/// A session that plays media.
#[derive(Clone, Copy, PartialEq, Eq, Hash, Structural, Debug)]
pub struct MediaPlaybackSessionId(pub u64);

/// A session that hands out video frames.
#[derive(Clone, Copy, PartialEq, Eq, Hash, Structural, Debug)]
pub struct VideoFrameSessionId(pub u64);

} // verus!

use vstd::prelude::*;

verus! {

/// Which recorder a command addresses.
///
/// On the wire this travels as the integer given by [`RecorderType::code`].
#[derive(Debug, Clone, Copy, PartialEq, Eq, Structural)]
pub enum RecorderType {
    Video,
    Replay,
    Streaming,
}

impl RecorderType {
    /// The integer that stands for this variant on the wire.
    pub fn code(&self) -> (r: i32)
        ensures
            r == self.spec_code(),
    {
        match self {
            RecorderType::Video => 1,
            RecorderType::Replay => 2,
            RecorderType::Streaming => 3,
        }
    }

    /// The wire integer of each variant.
    pub open spec fn spec_code(self) -> i32 {
        match self {
            RecorderType::Video => 1,
            RecorderType::Replay => 2,
            RecorderType::Streaming => 3,
        }
    }
}

impl Default for RecorderType {
    fn default() -> (r: Self)
        ensures
            r == RecorderType::Video,
    {
        RecorderType::Video
    }
}

/// How a captured game frame is mirrored before encoding.
///
/// On the wire this travels as the integer given by [`ObsFlipType::code`].
#[derive(Debug, Clone, Copy, PartialEq, Eq, Structural)]
pub enum ObsFlipType {
    NoFlip,
    FlipHorizontal,
    FlipVertical,
}

impl ObsFlipType {
    /// The integer that stands for this variant on the wire.
    pub fn code(&self) -> (r: u8)
        ensures
            r == self.spec_code(),
    {
        match self {
            ObsFlipType::NoFlip => 0,
            ObsFlipType::FlipHorizontal => 1,
            ObsFlipType::FlipVertical => 2,
        }
    }

    /// The wire integer of each variant.
    pub open spec fn spec_code(self) -> u8 {
        match self {
            ObsFlipType::NoFlip => 0,
            ObsFlipType::FlipHorizontal => 1,
            ObsFlipType::FlipVertical => 2,
        }
    }
}

} // verus!

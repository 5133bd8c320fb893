use vstd::prelude::*;

verus! {

/// The two kinds of media a decoded frame can carry.
#[derive(Clone, Copy, PartialEq, Eq, Structural, Debug)]
pub enum MediaKind {
    Video,
    Audio,
}

/// A decoded frame, as far as the pipeline reads it: its kind, the picture size
/// of a video frame, and its presentation timestamp when it has one.
#[derive(Clone, Copy, PartialEq, Eq, Structural, Debug)]
pub enum Frame {
    Video { width: u32, height: u32, timestamp: Option<i64> },
    Audio { timestamp: Option<i64> },
}

impl Frame {
    pub open spec fn spec_kind(self) -> MediaKind {
        match self {
            Frame::Video { .. } => MediaKind::Video,
            Frame::Audio { .. } => MediaKind::Audio,
        }
    }

    pub fn kind(&self) -> (r: MediaKind)
        ensures
            r == self.spec_kind(),
    {
        match self {
            Frame::Video { .. } => MediaKind::Video,
            Frame::Audio { .. } => MediaKind::Audio,
        }
    }

    pub fn timestamp(&self) -> (r: Option<i64>)
        ensures
            r == (match *self {
                Frame::Video { timestamp, .. } => timestamp,
                Frame::Audio { timestamp } => timestamp,
            }),
    {
        match self {
            Frame::Video { timestamp, .. } => *timestamp,
            Frame::Audio { timestamp } => *timestamp,
        }
    }
}

} // verus!

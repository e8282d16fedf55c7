//! Starting playback in a guild that already has a voice session.
use vstd::prelude::*;

verus! {

/// Why a play request could not be carried out.
#[derive(Clone, Copy, Debug, PartialEq, Eq)]
pub enum PlaybackError {
    SessionMissing,
}

impl PlaybackError {
    pub open spec fn text(&self) -> Seq<char> {
        match self {
            PlaybackError::SessionMissing => "manager not initialized"@,
        }
    }

    /// The reason reported to the caller.
    pub fn message(&self) -> (r: &'static str)
        ensures
            r@ == self.text(),
    {
        match self {
            PlaybackError::SessionMissing => "manager not initialized",
        }
    }
}

} // verus!

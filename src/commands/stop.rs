//! Leaving a guild's voice channel.
use vstd::prelude::*;

verus! {

/// Why a stop request could not be carried out.
#[derive(Clone, Copy, Debug, PartialEq, Eq)]
pub enum ChannelControlError {
    ManagerAcquisitionFailed,
    ChannelLeaveFailed,
}

impl ChannelControlError {
    pub open spec fn text(&self) -> Seq<char> {
        match self {
            ChannelControlError::ManagerAcquisitionFailed => "Failed to acquire manager"@,
            ChannelControlError::ChannelLeaveFailed => "Failed to leave channel"@,
        }
    }

    /// The reason reported to the caller.
    pub fn message(&self) -> (r: &'static str)
        ensures
            r@ == self.text(),
    {
        match self {
            ChannelControlError::ManagerAcquisitionFailed => "Failed to acquire manager",
            ChannelControlError::ChannelLeaveFailed => "Failed to leave channel",
        }
    }
}

} // verus!

//! The bridge from voice-session lifecycle callbacks to internal events.
//! Each notifier is bound, when a session is joined, to the job and guild
//! that joined it.
use vstd::prelude::*;
use vstd::pervasive::cloned;
use crate::types::{ServerEventType, ServerIPCData, ServerMessage};

verus! {

/// One failed track of an error batch, as the session reports it: the
/// track's identifier and its play state, both already rendered as text.
pub struct TrackFailure {
    pub track: String,
    pub state: String,
}

/// The description given to a failed track.
pub open spec fn track_error_text(track: Seq<char>, state: Seq<char>) -> Seq<char> {
    "Track "@ + track + " encountered an error: "@ + state
}

/// `e` is a track-error event for the given job and guild, with the given
/// description, raised at `now` and carrying a clone of `producer`.
pub open spec fn is_track_error_event<H: Clone>(
    e: ServerIPCData<H>,
    job_id: String,
    guild_id: u64,
    error: Seq<char>,
    now: u64,
    producer: H,
) -> bool {
    &&& e.message->Event_0 is TrackError
    &&& e.message->Event_0->TrackError_error@ == error
    &&& e.job_id == job_id
    &&& e.guild_id == guild_id
    &&& e.producer.is_some()
    &&& cloned(producer, e.producer->Some_0)
    &&& e.created_at == now
}

pub struct TrackErrorNotifier {
    pub job_id: String,
    pub guild_id: u64,
}

pub struct TrackEndNotifier {
    pub job_id: String,
    pub guild_id: u64,
}

/// The text that describes one failed track.
pub fn describe_track_error(failure: &TrackFailure) -> (r: String)
    ensures
        r@ == track_error_text(failure.track@, failure.state@),
{
    let mut text = String::from_str("Track ");
    text.append(failure.track.as_str());
    text.append(" encountered an error: ");
    text.append(failure.state.as_str());
    text
}

impl TrackErrorNotifier {
    /// One track-error event for every track of the batch, in order.
    pub fn act<H: Clone>(&self, failures: &Vec<TrackFailure>, producer: &H, now: u64) -> (r: Vec<
        ServerIPCData<H>,
    >)
        ensures
            r@.len() == failures@.len(),
            forall|i: int|
                0 <= i < r@.len() ==> is_track_error_event(
                    #[trigger] r@[i],
                    self.job_id,
                    self.guild_id,
                    track_error_text(failures@[i].track@, failures@[i].state@),
                    now,
                    *producer,
                ),
    {
        let mut events: Vec<ServerIPCData<H>> = Vec::new();
        let mut k: usize = 0;
        while k < failures.len()
            invariant
                k <= failures@.len(),
                events@.len() == k,
                forall|i: int|
                    0 <= i < k ==> is_track_error_event(
                        #[trigger] events@[i],
                        self.job_id,
                        self.guild_id,
                        track_error_text(failures@[i].track@, failures@[i].state@),
                        now,
                        *producer,
                    ),
            decreases failures@.len() - k,
        {
            let error = describe_track_error(&failures[k]);
            events.push(
                ServerIPCData {
                    message: ServerMessage::Event(ServerEventType::TrackError { error }),
                    guild_id: self.guild_id,
                    job_id: self.job_id.clone(),
                    producer: Some(producer.clone()),
                    created_at: now,
                },
            );
            k = k + 1;
        }
        events
    }
}

impl TrackEndNotifier {
    /// The single track-ended event for the bound job and guild.
    pub fn act<H: Clone>(&self, producer: &H, now: u64) -> (r: ServerIPCData<H>)
        ensures
            r.message == ServerMessage::Event(ServerEventType::TrackEnded),
            r.job_id == self.job_id,
            r.guild_id == self.guild_id,
            r.producer.is_some(),
            cloned(*producer, r.producer->Some_0),
            r.created_at == now,
    {
        ServerIPCData {
            message: ServerMessage::Event(ServerEventType::TrackEnded),
            guild_id: self.guild_id,
            job_id: self.job_id.clone(),
            producer: Some(producer.clone()),
            created_at: now,
        }
    }
}

} // verus!

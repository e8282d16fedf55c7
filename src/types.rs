//! Values that travel inside the worker: session events on their way from
//! the voice bridge to the dispatch engine, and a per-guild track queue.
use vstd::prelude::*;

verus! {

/// What happened to a track.
#[derive(Clone, Debug, PartialEq, Eq)]
pub enum ServerEventType {
    TrackError { error: String },
    TrackEnded,
}

#[derive(Clone, Debug, PartialEq, Eq)]
pub enum ServerMessage {
    Event(ServerEventType),
}

/// An internal event raised by a voice-session callback. It is never put on
/// the wire; `producer` is the outbound transport handle the report should
/// go through, and `created_at` the second (Unix time) it was raised.
pub struct ServerIPCData<H> {
    pub message: ServerMessage,
    pub guild_id: u64,
    pub job_id: String,
    pub producer: Option<H>,
    pub created_at: u64,
}

/// The ordered tracks waiting to play in one guild.
pub struct GuildQueue<T> {
    track_queue: std::collections::VecDeque<T>,
    is_playing: bool,
}

impl<T> GuildQueue<T> {
    /// The waiting tracks, oldest first.
    pub closed spec fn tracks(&self) -> Seq<T> {
        self.track_queue@
    }

    pub closed spec fn playing(&self) -> bool {
        self.is_playing
    }

    pub fn new() -> (r: Self)
        ensures
            r.tracks() == Seq::<T>::empty(),
            !r.playing(),
    {
        GuildQueue { track_queue: std::collections::VecDeque::new(), is_playing: false }
    }

    pub fn add_track(&mut self, track: T)
        ensures
            final(self).tracks() == old(self).tracks().push(track),
            final(self).playing() == old(self).playing(),
    {
        self.track_queue.push_back(track);
    }

    pub fn next_track(&mut self) -> (r: Option<T>)
        ensures
            old(self).tracks().len() == 0 ==> r.is_none() && final(self).tracks() == old(self).tracks(),
            old(self).tracks().len() > 0 ==> r == Some(old(self).tracks()[0])
                && final(self).tracks() == old(self).tracks().drop_first(),
            final(self).playing() == old(self).playing(),
    {
        self.track_queue.pop_front()
    }

    pub fn is_playing(&self) -> (r: bool)
        ensures
            r == self.playing(),
    {
        self.is_playing
    }

    pub fn set_playing(&mut self, playing: bool)
        ensures
            final(self).playing() == playing,
            final(self).tracks() == old(self).tracks(),
    {
        self.is_playing = playing;
    }
}

} // verus!

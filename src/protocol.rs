//! The protocol model shared with producers and consumers of the message bus.
//! Values are immutable: constructed, encoded, sent and discarded.
use vstd::prelude::*;

verus! {

/// One search hit.
#[derive(Clone, Debug, PartialEq, Eq)]
pub struct Track {
    pub title: String,
    pub url: String,
}

/// What a request asks the worker to do.
#[derive(Clone, Debug, PartialEq, Eq)]
pub enum Command {
    Connect,
    Play { url: String },
    Stop,
    Search { query: String },
    Pause,
    Resume,
    Skip,
    SeekToPosition { position: u64 },
    SetVolume { volume: u64 },
    GetPlaylists,
    AddToPlaylist { playlist_id: String, track: String },
    RemoveFromPlaylist { playlist_id: String, track: String },
    LoadPlaylist { playlist_id: String },
    ClearPlaylist { playlist_id: String },
    ShuffleQueue,
    Loop,
}

/// An inbound job. `job_id` is an opaque correlation token chosen by the
/// caller; it is never checked for uniqueness.
#[derive(Clone, Debug, PartialEq, Eq)]
pub struct Request {
    pub command: Command,
    pub job_id: String,
    pub guild_id: u64,
    pub voice_channel_id: Option<u64>,
    pub timestamp: u64,
}

#[derive(Clone, Debug, PartialEq, Eq)]
pub enum ResponseType {
    Success,
    Failure { reason: String },
    SearchResults { tracks: Vec<Track> },
}

/// The single answer to a processed request.
#[derive(Clone, Debug, PartialEq, Eq)]
pub struct Response {
    pub job_id: String,
    pub guild_id: u64,
    pub response_type: ResponseType,
    pub timestamp: u64,
}

#[derive(Clone, Debug, PartialEq, Eq)]
pub enum EventType {
    TrackError { error: String },
    TrackEnd,
}

/// An asynchronous session event reported for a job.
#[derive(Clone, Debug, PartialEq, Eq)]
pub struct Event {
    pub event_type: EventType,
    pub job_id: String,
    pub guild_id: u64,
    pub timestamp: u64,
}

/// Everything that travels on the message bus.
#[derive(Clone, Debug, PartialEq, Eq)]
pub enum Message {
    Request(Request),
    Response(Response),
    Event(Event),
    Ping { id: u64 },
    Pong { id: u64 },
}

impl Request {
    /// Commands that the worker carries out against a voice session.
    pub open spec fn needs_session(&self) -> bool {
        match self.command {
            Command::Connect | Command::Play { .. } | Command::Stop => true,
            _ => false,
        }
    }
}

/// `m` is a response that answers `req`: same job, same guild, and the
/// request's timestamp.
pub open spec fn answers(m: Message, req: Request) -> bool {
    match m {
        Message::Response(resp) => resp.job_id == req.job_id && resp.guild_id == req.guild_id
            && resp.timestamp == req.timestamp,
        _ => false,
    }
}

/// `m` answers `req` with `Success`.
pub open spec fn is_success_reply(m: Message, req: Request) -> bool {
    answers(m, req) && m->Response_0.response_type is Success
}

/// `m` answers `req` with `Failure` and the given reason.
pub open spec fn is_failure_reply(m: Message, req: Request, reason: Seq<char>) -> bool {
    answers(m, req) && m->Response_0.response_type is Failure
        && m->Response_0.response_type->Failure_reason@ == reason
}

/// `m` answers `req` with an empty list of search results.
pub open spec fn is_empty_search_reply(m: Message, req: Request) -> bool {
    answers(m, req) && m->Response_0.response_type is SearchResults
        && m->Response_0.response_type->SearchResults_tracks@.len() == 0
}

/// A response to `req` that carries the given kind of result.
pub fn reply(req: &Request, response_type: ResponseType) -> (r: Message)
    ensures
        answers(r, *req),
        r->Response_0.response_type == response_type,
{
    Message::Response(
        Response {
            job_id: req.job_id.clone(),
            guild_id: req.guild_id,
            response_type,
            timestamp: req.timestamp,
        },
    )
}

/// A `Failure` response to `req` with the given reason.
pub fn failure_reply(req: &Request, reason: &str) -> (r: Message)
    ensures
        is_failure_reply(r, *req, reason@),
{
    reply(req, ResponseType::Failure { reason: String::from_str(reason) })
}

} // verus!

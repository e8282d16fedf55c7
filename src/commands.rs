//! Command dispatch. Processing one inbound message is split in two: a plan
//! that says which voice-session operation, if any, the message calls for,
//! and a completion that turns the operation's outcome into the one
//! response owed to the request. The caller performs the operation between
//! the two.
use vstd::prelude::*;
use crate::protocol::{
    Command, Message, Request, ResponseType, answers, failure_reply, is_empty_search_reply,
    is_failure_reply, is_success_reply, reply,
};
use crate::voice::{TrackEndNotifier, TrackErrorNotifier};

pub mod connect;
pub mod play;
pub mod stop;

verus! {

/// The reason given for a command that this worker does not carry out.
pub const UNSUPPORTED_COMMAND: &'static str = "unsupported command";

/// The reason given for a request whose guild id is zero, which no guild has.
pub const INVALID_GUILD: &'static str = "invalid guild id";

/// The reason given for a failed join that came without a description.
pub const JOIN_FAILED: &'static str = "Failed to join channel";

/// The reason given for a failed playback start that came without a
/// description.
pub const PLAYBACK_FAILED: &'static str = "Failed to start playback";

/// What processing one inbound message calls for.
pub enum JobAction {
    /// Send this message; nothing else is to be done.
    Reply(Message),
    /// Join the voice channel, then complete the request.
    Join { guild_id: u64, channel_id: u64 },
    /// Start playing the URL in the guild's session, then complete the request.
    Play { guild_id: u64, url: String },
    /// Leave the guild's session, then complete the request.
    Leave { guild_id: u64 },
    /// Nothing is sent.
    Ignore,
}

/// How a voice-session operation went.
pub enum SessionOutcome {
    Completed,
    /// The guild had no session (or no session manager) to operate on.
    NoSession,
    Failed { reason: String },
}

/// The response owed to a request, and for a successful connect the two
/// callbacks to attach to the new session.
pub struct JobCompletion {
    pub reply: Message,
    pub notifiers: Option<(TrackErrorNotifier, TrackEndNotifier)>,
}

/// `a` is what `job` calls for, where `has_manager` tells whether a voice
/// session manager is available.
pub open spec fn is_plan(job: Message, has_manager: bool, a: JobAction) -> bool {
    match job {
        Message::Request(req) => if req.guild_id == 0 {
            a is Reply && is_failure_reply(a->Reply_0, req, INVALID_GUILD@)
        } else { match req.command {
            Command::Connect => if !has_manager {
                a is Reply && is_failure_reply(
                    a->Reply_0,
                    req,
                    connect::ChannelControlError::ManagerAcquisitionFailed.text(),
                )
            } else {
                match req.voice_channel_id {
                    None => a is Reply && is_failure_reply(
                        a->Reply_0,
                        req,
                        connect::ChannelControlError::VoiceChannelMissing.text(),
                    ),
                    Some(c) => a == JobAction::Join { guild_id: req.guild_id, channel_id: c },
                }
            },
            Command::Play { url } => if !has_manager {
                a is Reply && is_failure_reply(
                    a->Reply_0,
                    req,
                    play::PlaybackError::SessionMissing.text(),
                )
            } else {
                a == JobAction::Play { guild_id: req.guild_id, url }
            },
            Command::Stop => if !has_manager {
                a is Reply && is_failure_reply(
                    a->Reply_0,
                    req,
                    stop::ChannelControlError::ManagerAcquisitionFailed.text(),
                )
            } else {
                a == JobAction::Leave { guild_id: req.guild_id }
            },
            Command::Search { .. } => a is Reply && is_empty_search_reply(a->Reply_0, req),
            _ => a is Reply && is_failure_reply(a->Reply_0, req, UNSUPPORTED_COMMAND@),
        } },
        Message::Ping { id } => a == JobAction::Reply(Message::Pong { id }),
        _ => a is Ignore,
    }
}

/// Both callbacks are bound to the request's job and guild.
pub open spec fn binds(n: (TrackErrorNotifier, TrackEndNotifier), req: Request) -> bool {
    n.0.job_id == req.job_id && n.0.guild_id == req.guild_id && n.1.job_id == req.job_id
        && n.1.guild_id == req.guild_id
}

/// The reason reported for a failed operation: its own description, or
/// `fallback` where it came without one.
pub open spec fn reason_or(reason: Seq<char>, fallback: Seq<char>) -> Seq<char> {
    if reason.len() == 0 {
        fallback
    } else {
        reason
    }
}

/// `c` completes the session request `req` whose operation ended with
/// `outcome`.
pub open spec fn is_completion(req: Request, outcome: SessionOutcome, c: JobCompletion) -> bool {
    match req.command {
        Command::Connect => match outcome {
            SessionOutcome::Completed => is_success_reply(c.reply, req) && c.notifiers is Some
                && binds(c.notifiers->Some_0, req),
            SessionOutcome::NoSession => is_failure_reply(
                c.reply,
                req,
                connect::ChannelControlError::ManagerAcquisitionFailed.text(),
            ) && c.notifiers is None,
            SessionOutcome::Failed { reason } => is_failure_reply(
                c.reply,
                req,
                reason_or(reason@, JOIN_FAILED@),
            ) && c.notifiers is None,
        },
        Command::Play { .. } => c.notifiers is None && match outcome {
            SessionOutcome::Completed => is_success_reply(c.reply, req),
            SessionOutcome::NoSession => is_failure_reply(
                c.reply,
                req,
                play::PlaybackError::SessionMissing.text(),
            ),
            SessionOutcome::Failed { reason } => is_failure_reply(
                c.reply,
                req,
                reason_or(reason@, PLAYBACK_FAILED@),
            ),
        },
        _ => c.notifiers is None && match outcome {
            SessionOutcome::Completed => is_success_reply(c.reply, req),
            _ => is_failure_reply(
                c.reply,
                req,
                stop::ChannelControlError::ChannelLeaveFailed.text(),
            ),
        },
    }
}

/// Decides what an inbound message calls for. A request for guild zero is
/// refused outright. Every request gets exactly
/// one response, either here or from `complete_job`; a ping gets its pong;
/// anything else is dropped.
pub fn plan_job(job: &Message, has_manager: bool) -> (r: JobAction)
    ensures
        is_plan(*job, has_manager, r),
{
    match job {
        Message::Request(req) => if req.guild_id == 0 {
            JobAction::Reply(failure_reply(req, INVALID_GUILD))
        } else { match &req.command {
            Command::Connect => {
                if !has_manager {
                    JobAction::Reply(
                        failure_reply(
                            req,
                            connect::ChannelControlError::ManagerAcquisitionFailed.message(),
                        ),
                    )
                } else {
                    match req.voice_channel_id {
                        None => JobAction::Reply(
                            failure_reply(
                                req,
                                connect::ChannelControlError::VoiceChannelMissing.message(),
                            ),
                        ),
                        Some(c) => JobAction::Join { guild_id: req.guild_id, channel_id: c },
                    }
                }
            },
            Command::Play { url } => {
                if !has_manager {
                    JobAction::Reply(
                        failure_reply(req, play::PlaybackError::SessionMissing.message()),
                    )
                } else {
                    JobAction::Play { guild_id: req.guild_id, url: url.clone() }
                }
            },
            Command::Stop => {
                if !has_manager {
                    JobAction::Reply(
                        failure_reply(
                            req,
                            stop::ChannelControlError::ManagerAcquisitionFailed.message(),
                        ),
                    )
                } else {
                    JobAction::Leave { guild_id: req.guild_id }
                }
            },
            Command::Search { .. } => {
                JobAction::Reply(reply(req, ResponseType::SearchResults { tracks: Vec::new() }))
            },
            _ => JobAction::Reply(failure_reply(req, UNSUPPORTED_COMMAND)),
        } },
        Message::Ping { id } => JobAction::Reply(Message::Pong { id: *id }),
        _ => JobAction::Ignore,
    }
}

/// A failure response carrying `reason`, or `fallback` where `reason` is
/// empty.
fn failure_with(req: &Request, reason: String, fallback: &str) -> (r: Message)
    ensures
        is_failure_reply(r, *req, reason_or(reason@, fallback@)),
{
    if reason.as_str().is_empty() {
        failure_reply(req, fallback)
    } else {
        reply(req, ResponseType::Failure { reason })
    }
}

/// The response to a connect, play or stop request whose session operation
/// ended with `outcome`. Only a successful connect hands out callbacks.
pub fn complete_job(req: &Request, outcome: SessionOutcome) -> (r: JobCompletion)
    requires
        req.needs_session(),
    ensures
        is_completion(*req, outcome, r),
{
    match &req.command {
        Command::Connect => match outcome {
            SessionOutcome::Completed => {
                let on_error = TrackErrorNotifier {
                    job_id: req.job_id.clone(),
                    guild_id: req.guild_id,
                };
                let on_end = TrackEndNotifier { job_id: req.job_id.clone(), guild_id: req.guild_id };
                JobCompletion {
                    reply: reply(req, ResponseType::Success),
                    notifiers: Some((on_error, on_end)),
                }
            },
            SessionOutcome::NoSession => JobCompletion {
                reply: failure_reply(
                    req,
                    connect::ChannelControlError::ManagerAcquisitionFailed.message(),
                ),
                notifiers: None,
            },
            SessionOutcome::Failed { reason } => JobCompletion {
                reply: failure_with(req, reason, JOIN_FAILED),
                notifiers: None,
            },
        },
        Command::Play { .. } => {
            let response = match outcome {
                SessionOutcome::Completed => reply(req, ResponseType::Success),
                SessionOutcome::NoSession => failure_reply(
                    req,
                    play::PlaybackError::SessionMissing.message(),
                ),
                SessionOutcome::Failed { reason } => failure_with(req, reason, PLAYBACK_FAILED),
            };
            JobCompletion { reply: response, notifiers: None }
        },
        _ => {
            let response = match outcome {
                SessionOutcome::Completed => reply(req, ResponseType::Success),
                _ => failure_reply(req, stop::ChannelControlError::ChannelLeaveFailed.message()),
            };
            JobCompletion { reply: response, notifiers: None }
        },
    }
}

} // verus!

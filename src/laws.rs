//! Properties of request processing and event reporting that hold across
//! the functions of the engine, stated over their contracts.
use vstd::prelude::*;
use crate::commands::{binds, is_completion, is_plan, JobAction, JobCompletion, SessionOutcome};
use crate::pool::{event_report, WorkerPool, EVENT_HISTORY, JOB_QUEUE_CAPACITY};
use crate::protocol::{answers, is_success_reply, Command, EventType, Message, Request};
use crate::types::{ServerEventType, ServerIPCData, ServerMessage};

verus! {

/// The response that processing a request sends: the planned reply, or the
/// one completing the session operation.
pub open spec fn response_sent(a: JobAction, c: JobCompletion) -> Message {
    if a is Reply {
        a->Reply_0
    } else {
        c.reply
    }
}

/// `m` answers `req` with a failure whose reason is not empty.
pub open spec fn is_reasoned_failure(m: Message, req: Request) -> bool {
    answers(m, req) && m->Response_0.response_type is Failure
        && m->Response_0.response_type->Failure_reason@.len() > 0
}

/// A ping is answered by one pong with the same id and by nothing else,
/// whatever the state of the voice sessions.
pub proof fn lemma_ping_yields_pong(id: u64, has_manager: bool, a: JobAction)
    requires
        is_plan(Message::Ping { id }, has_manager, a),
    ensures
        a == JobAction::Reply(Message::Pong { id }),
{
}

/// Every request is answered by exactly one response to it: either at once,
/// or, for a session operation, once the operation's outcome is known.
/// A request is never dropped; one for guild zero is refused with a reason.
pub proof fn lemma_request_answered(
    req: Request,
    has_manager: bool,
    a: JobAction,
    outcome: SessionOutcome,
    c: JobCompletion,
)
    requires
        is_plan(Message::Request(req), has_manager, a),
        !(a is Reply) ==> is_completion(req, outcome, c),
    ensures
        !(a is Ignore),
        !(a is Reply) ==> req.needs_session(),
        answers(response_sent(a, c), req),
        req.guild_id == 0 ==> a is Reply && is_reasoned_failure(a->Reply_0, req),
{
    reveal_strlit("invalid guild id");
}

/// The job queue never holds more than its capacity: a pool is created
/// within the bound and every operation on it keeps the bound, so at any
/// point of any interleaving of submissions and takes at most
/// `JOB_QUEUE_CAPACITY` jobs wait.
pub proof fn lemma_queue_bounded<J, E>(pool: WorkerPool<J, E>)
    requires
        pool.wf(),
    ensures
        pool.jobs().len() <= JOB_QUEUE_CAPACITY,
        pool.events().len() <= EVENT_HISTORY,
{
}

/// A connect request that names a voice channel, with a session manager at
/// hand, calls for joining that channel. A join that succeeds is answered
/// with one success and hands out the two callbacks, bound to the request's
/// job and guild; a join that fails is answered with one failure and hands
/// out none; its reason is never empty.
pub proof fn lemma_connect_callbacks(
    req: Request,
    channel: u64,
    a: JobAction,
    outcome: SessionOutcome,
    c: JobCompletion,
)
    requires
        req.command == Command::Connect,
        req.guild_id != 0,
        req.voice_channel_id == Some(channel),
        is_plan(Message::Request(req), true, a),
        is_completion(req, outcome, c),
    ensures
        a == (JobAction::Join { guild_id: req.guild_id, channel_id: channel }),
        outcome is Completed ==> is_success_reply(c.reply, req) && c.notifiers is Some && binds(
            c.notifiers->Some_0,
            req,
        ),
        !(outcome is Completed) ==> is_reasoned_failure(c.reply, req) && c.notifiers is None,
{
    reveal_strlit("Failed to acquire manager");
    reveal_strlit("Failed to join channel");
}

/// A stop request for a guild without a session never goes unanswered: when
/// there is no session manager, or leaving does not complete, the answer is
/// a failure with a reason that is not empty.
pub proof fn lemma_stop_without_session_fails(
    req: Request,
    has_manager: bool,
    a: JobAction,
    outcome: SessionOutcome,
    c: JobCompletion,
)
    requires
        req.command == Command::Stop,
        req.guild_id != 0,
        is_plan(Message::Request(req), has_manager, a),
        !(outcome is Completed),
        has_manager ==> is_completion(req, outcome, c),
    ensures
        !has_manager ==> a is Reply && is_reasoned_failure(a->Reply_0, req),
        has_manager ==> a == (JobAction::Leave { guild_id: req.guild_id }) && is_reasoned_failure(
            c.reply,
            req,
        ),
{
    reveal_strlit("Failed to acquire manager");
    reveal_strlit("Failed to leave channel");
}

/// A track-ended event that carries a transport handle is reported as one
/// track-end event for the same job and guild, stamped at the send time,
/// which, with a clock that does not step back, is no earlier than the
/// moment the event was raised.
pub proof fn lemma_track_end_reported<H>(event: ServerIPCData<H>, now: u64)
    requires
        event.message == ServerMessage::Event(ServerEventType::TrackEnded),
        event.producer is Some,
        now >= event.created_at,
    ensures
        event_report(event, now) is Some,
        event_report(event, now)->Some_0 is Event,
        event_report(event, now)->Some_0->Event_0.event_type == EventType::TrackEnd,
        event_report(event, now)->Some_0->Event_0.job_id == event.job_id,
        event_report(event, now)->Some_0->Event_0.guild_id == event.guild_id,
        event_report(event, now)->Some_0->Event_0.timestamp == now,
        event_report(event, now)->Some_0->Event_0.timestamp >= event.created_at,
{
}

/// Requests are never merged: two requests that share a job id are each
/// answered by a response of their own, whatever their commands.
pub proof fn lemma_no_deduplication(
    r1: Request,
    r2: Request,
    has_manager: bool,
    a1: JobAction,
    a2: JobAction,
    o1: SessionOutcome,
    o2: SessionOutcome,
    c1: JobCompletion,
    c2: JobCompletion,
)
    requires
        r1.job_id == r2.job_id,
        is_plan(Message::Request(r1), has_manager, a1),
        is_plan(Message::Request(r2), has_manager, a2),
        !(a1 is Reply) ==> is_completion(r1, o1, c1),
        !(a2 is Reply) ==> is_completion(r2, o2, c2),
    ensures
        answers(response_sent(a1, c1), r1),
        answers(response_sent(a2, c2), r2),
{
    lemma_request_answered(r1, has_manager, a1, o1, c1);
    lemma_request_answered(r2, has_manager, a2, o2, c2);
}

} // verus!

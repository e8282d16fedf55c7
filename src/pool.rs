//! The job-dispatch engine's state: a bounded job queue fed by the bus
//! consumer, a bounded history of internal events fed by the voice bridge,
//! and the coordinator's choice of what to hand out next. Whoever owns the
//! pool runs each handed-out item as a task of its own.
use vstd::prelude::*;
use std::collections::VecDeque;
use crate::protocol::{Event, EventType, Message};
use crate::types::{ServerEventType, ServerIPCData};

verus! {

/// How many jobs may wait at once.
pub const JOB_QUEUE_CAPACITY: usize = 100;

/// How many unread internal events are kept; older ones are dropped.
pub const EVENT_HISTORY: usize = 16;

/// Why a job was not accepted. A full queue is backpressure: the caller
/// keeps the job and stops pulling new work until space frees.
#[derive(Clone, Copy, Debug, PartialEq, Eq)]
pub enum SubmitError {
    QueueFull,
    Closed,
}

/// What the coordinator hands out next.
pub enum PoolItem<J, E> {
    Job(J),
    Event(E),
    /// This many events were dropped unread before the oldest one kept.
    Lagged(u64),
    /// Nothing is waiting; at least one source is still open.
    Idle,
    /// Both sources are closed and drained: the coordinator stops.
    Shutdown,
}

pub struct WorkerPool<J, E> {
    jobs: VecDeque<J>,
    events: VecDeque<E>,
    missed: u64,
    jobs_open: bool,
    events_open: bool,
    events_first: bool,
}

impl<J, E> WorkerPool<J, E> {
    /// Waiting jobs, oldest first.
    pub closed spec fn jobs(&self) -> Seq<J> {
        self.jobs@
    }

    /// Unread internal events, oldest first.
    pub closed spec fn events(&self) -> Seq<E> {
        self.events@
    }

    /// Events dropped unread since the last lag report.
    pub closed spec fn missed(&self) -> u64 {
        self.missed
    }

    pub closed spec fn jobs_open(&self) -> bool {
        self.jobs_open
    }

    pub closed spec fn events_open(&self) -> bool {
        self.events_open
    }

    /// Whether the event side goes first when both sources have something.
    pub closed spec fn events_first(&self) -> bool {
        self.events_first
    }

    /// At most `JOB_QUEUE_CAPACITY` jobs wait and at most `EVENT_HISTORY`
    /// events are kept. Every operation keeps this.
    pub open spec fn wf(&self) -> bool {
        self.jobs().len() <= JOB_QUEUE_CAPACITY && self.events().len() <= EVENT_HISTORY
    }

    /// Something is waiting on the event side: an event or a lag report.
    pub open spec fn event_ready(&self) -> bool {
        self.missed() > 0 || self.events().len() > 0
    }

    pub fn new() -> (r: Self)
        ensures
            r.wf(),
            r.jobs() == Seq::<J>::empty(),
            r.events() == Seq::<E>::empty(),
            r.missed() == 0,
            r.jobs_open(),
            r.events_open(),
            !r.events_first(),
    {
        WorkerPool {
            jobs: VecDeque::new(),
            events: VecDeque::new(),
            missed: 0,
            jobs_open: true,
            events_open: true,
            events_first: false,
        }
    }

    /// Enqueues a job. A closed queue refuses it; a full queue refuses it
    /// and stays as it was. A refused job is handed back with the reason,
    /// so the caller can hold it and retry once space frees: nothing is
    /// ever dropped, merged or deduplicated.
    pub fn send_job(&mut self, job: J) -> (r: Result<(), (SubmitError, J)>)
        requires
            old(self).wf(),
        ensures
            final(self).wf(),
            final(self).jobs().len() <= JOB_QUEUE_CAPACITY,
            r is Err ==> r->Err_0.1 == job && final(self).jobs() == old(self).jobs(),
            !old(self).jobs_open() ==> r is Err && r->Err_0.0 == SubmitError::Closed,
            old(self).jobs_open() && old(self).jobs().len() == JOB_QUEUE_CAPACITY ==> r is Err
                && r->Err_0.0 == SubmitError::QueueFull,
            old(self).jobs_open() && old(self).jobs().len() < JOB_QUEUE_CAPACITY ==> r is Ok
                && final(self).jobs() == old(self).jobs().push(job),
            final(self).events() == old(self).events(),
            final(self).missed() == old(self).missed(),
            final(self).jobs_open() == old(self).jobs_open(),
            final(self).events_open() == old(self).events_open(),
            final(self).events_first() == old(self).events_first(),
    {
        if !self.jobs_open {
            Err((SubmitError::Closed, job))
        } else if self.jobs.len() >= JOB_QUEUE_CAPACITY {
            Err((SubmitError::QueueFull, job))
        } else {
            self.jobs.push_back(job);
            Ok(())
        }
    }

    /// Adds an internal event to the history. With the history full, the
    /// oldest unread event is dropped and counted for the next lag report.
    /// Returns false, changing nothing, once the event side is closed.
    pub fn publish_event(&mut self, event: E) -> (r: bool)
        requires
            old(self).wf(),
        ensures
            final(self).wf(),
            r == old(self).events_open(),
            !r ==> final(self).events() == old(self).events() && final(self).missed() == old(
                self,
            ).missed(),
            r && old(self).events().len() < EVENT_HISTORY ==> final(self).events() == old(
                self,
            ).events().push(event) && final(self).missed() == old(self).missed(),
            r && old(self).events().len() == EVENT_HISTORY ==> final(self).events() == old(
                self,
            ).events().drop_first().push(event) && final(self).missed() == (if old(self).missed()
                == u64::MAX {
                u64::MAX
            } else {
                (old(self).missed() + 1) as u64
            }),
            final(self).jobs() == old(self).jobs(),
            final(self).jobs_open() == old(self).jobs_open(),
            final(self).events_open() == old(self).events_open(),
            final(self).events_first() == old(self).events_first(),
    {
        if !self.events_open {
            return false;
        }
        if self.events.len() >= EVENT_HISTORY {
            let _ = self.events.pop_front();
            if self.missed < u64::MAX {
                self.missed = self.missed + 1;
            }
        }
        self.events.push_back(event);
        true
    }

    /// No more jobs will be submitted.
    pub fn close_jobs(&mut self)
        ensures
            !final(self).jobs_open(),
            final(self).jobs() == old(self).jobs(),
            final(self).events() == old(self).events(),
            final(self).missed() == old(self).missed(),
            final(self).events_open() == old(self).events_open(),
            final(self).events_first() == old(self).events_first(),
            old(self).wf() ==> final(self).wf(),
    {
        self.jobs_open = false;
    }

    /// No more internal events will be published.
    pub fn close_events(&mut self)
        ensures
            !final(self).events_open(),
            final(self).jobs() == old(self).jobs(),
            final(self).events() == old(self).events(),
            final(self).missed() == old(self).missed(),
            final(self).jobs_open() == old(self).jobs_open(),
            final(self).events_first() == old(self).events_first(),
            old(self).wf() ==> final(self).wf(),
    {
        self.events_open = false;
    }

    /// Takes from the event side: a pending lag report comes before the
    /// oldest kept event.
    fn take_event(&mut self) -> (r: PoolItem<J, E>)
        requires
            old(self).wf(),
            old(self).event_ready(),
        ensures
            final(self).wf(),
            old(self).missed() > 0 ==> r == PoolItem::<J, E>::Lagged(old(self).missed())
                && final(self).missed() == 0 && final(self).events() == old(self).events(),
            old(self).missed() == 0 ==> r == PoolItem::<J, E>::Event(old(self).events()[0])
                && final(self).missed() == 0 && final(self).events() == old(
                self,
            ).events().drop_first(),
            final(self).jobs() == old(self).jobs(),
            final(self).jobs_open() == old(self).jobs_open(),
            final(self).events_open() == old(self).events_open(),
            !final(self).events_first(),
    {
        self.events_first = false;
        if self.missed > 0 {
            let n = self.missed;
            self.missed = 0;
            PoolItem::Lagged(n)
        } else {
            match self.events.pop_front() {
                Some(e) => PoolItem::Event(e),
                None => PoolItem::Idle,
            }
        }
    }

    /// The coordinator's next item. When both sources have something they
    /// take turns; a source with nothing waiting never holds up the other.
    pub fn next_item(&mut self) -> (r: PoolItem<J, E>)
        requires
            old(self).wf(),
        ensures
            final(self).wf(),
            final(self).jobs_open() == old(self).jobs_open(),
            final(self).events_open() == old(self).events_open(),
            old(self).event_ready() && (old(self).events_first() || old(self).jobs().len() == 0)
                ==> {
                &&& !final(self).events_first()
                &&& final(self).jobs() == old(self).jobs()
                &&& final(self).missed() == 0
                &&& old(self).missed() > 0 ==> r == PoolItem::<J, E>::Lagged(old(self).missed())
                    && final(self).events() == old(self).events()
                &&& old(self).missed() == 0 ==> r == PoolItem::<J, E>::Event(old(self).events()[0])
                    && final(self).events() == old(self).events().drop_first()
            },
            old(self).jobs().len() > 0 && !(old(self).event_ready() && old(self).events_first())
                ==> {
                &&& r == PoolItem::<J, E>::Job(old(self).jobs()[0])
                &&& final(self).jobs() == old(self).jobs().drop_first()
                &&& final(self).events() == old(self).events()
                &&& final(self).missed() == old(self).missed()
                &&& final(self).events_first()
            },
            !old(self).event_ready() && old(self).jobs().len() == 0 ==> {
                &&& r == (if !old(self).jobs_open() && !old(self).events_open() {
                    PoolItem::<J, E>::Shutdown
                } else {
                    PoolItem::<J, E>::Idle
                })
                &&& final(self).jobs() == old(self).jobs()
                &&& final(self).events() == old(self).events()
                &&& final(self).missed() == old(self).missed()
                &&& final(self).events_first() == old(self).events_first()
            },
    {
        let event_ready = self.missed > 0 || self.events.len() > 0;
        if event_ready && (self.events_first || self.jobs.len() == 0) {
            self.take_event()
        } else if self.jobs.len() > 0 {
            self.events_first = true;
            match self.jobs.pop_front() {
                Some(j) => PoolItem::Job(j),
                None => PoolItem::Idle,
            }
        } else if !self.jobs_open && !self.events_open {
            PoolItem::Shutdown
        } else {
            PoolItem::Idle
        }
    }
}

/// The outbound message for an internal event, or none when the event
/// carries no transport handle to report through.
pub open spec fn event_report<H>(event: ServerIPCData<H>, now: u64) -> Option<Message> {
    if event.producer is None {
        None
    } else {
        Some(
            Message::Event(
                Event {
                    event_type: match event.message->Event_0 {
                        ServerEventType::TrackError { error } => EventType::TrackError { error },
                        ServerEventType::TrackEnded => EventType::TrackEnd,
                    },
                    job_id: event.job_id,
                    guild_id: event.guild_id,
                    timestamp: now,
                },
            ),
        )
    }
}

/// Turns an internal event into the message to send, stamped at `now`.
/// An event without a transport handle yields nothing: it is dropped.
pub fn process_ipc<H>(event: &ServerIPCData<H>, now: u64) -> (r: Option<Message>)
    ensures
        r == event_report(*event, now),
{
    if event.producer.is_none() {
        return None;
    }
    let event_type = match &event.message {
        crate::types::ServerMessage::Event(ServerEventType::TrackError { error }) => {
            EventType::TrackError { error: error.clone() }
        },
        crate::types::ServerMessage::Event(ServerEventType::TrackEnded) => EventType::TrackEnd,
    };
    Some(
        Message::Event(
            Event {
                event_type,
                job_id: event.job_id.clone(),
                guild_id: event.guild_id,
                timestamp: now,
            },
        ),
    )
}

} // verus!

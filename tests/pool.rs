use ravalink_worker::pool::{
    process_ipc, PoolItem, SubmitError, WorkerPool, EVENT_HISTORY, JOB_QUEUE_CAPACITY,
};
use ravalink_worker::protocol::{Event, EventType, Message};
use ravalink_worker::types::{ServerEventType, ServerIPCData, ServerMessage};

fn internal(kind: ServerEventType, producer: Option<u8>, created_at: u64) -> ServerIPCData<u8> {
    ServerIPCData {
        message: ServerMessage::Event(kind),
        guild_id: 44,
        job_id: "job-9".to_string(),
        producer,
        created_at,
    }
}

#[test]
fn full_queue_rejects_without_dropping() {
    let mut pool: WorkerPool<u32, u32> = WorkerPool::new();
    assert_eq!(JOB_QUEUE_CAPACITY, 100);
    for i in 0..100u32 {
        assert_eq!(pool.send_job(i), Ok(()));
    }
    assert_eq!(pool.send_job(100), Err((SubmitError::QueueFull, 100)));
    assert_eq!(pool.send_job(101), Err((SubmitError::QueueFull, 101)));
    for i in 0..100u32 {
        match pool.next_item() {
            PoolItem::Job(j) => assert_eq!(j, i),
            _ => panic!("expected job {}", i),
        }
    }
    assert!(matches!(pool.next_item(), PoolItem::Idle));
    assert_eq!(pool.send_job(7), Ok(()));
}

#[test]
fn closed_queue_refuses_jobs() {
    let mut pool: WorkerPool<u32, u32> = WorkerPool::new();
    pool.close_jobs();
    assert_eq!(pool.send_job(1), Err((SubmitError::Closed, 1)));
}

#[test]
fn sources_take_turns() {
    let mut pool: WorkerPool<u32, u32> = WorkerPool::new();
    pool.send_job(1).unwrap();
    pool.send_job(2).unwrap();
    assert!(pool.publish_event(10));
    assert!(pool.publish_event(20));
    assert!(matches!(pool.next_item(), PoolItem::Job(1)));
    assert!(matches!(pool.next_item(), PoolItem::Event(10)));
    assert!(matches!(pool.next_item(), PoolItem::Job(2)));
    assert!(matches!(pool.next_item(), PoolItem::Event(20)));
    assert!(matches!(pool.next_item(), PoolItem::Idle));
}

#[test]
fn coordinator_stops_only_when_both_sources_close() {
    let mut pool: WorkerPool<u32, u32> = WorkerPool::new();
    pool.send_job(5).unwrap();
    pool.close_jobs();
    assert!(matches!(pool.next_item(), PoolItem::Job(5)));
    assert!(matches!(pool.next_item(), PoolItem::Idle));
    pool.close_events();
    assert!(!pool.publish_event(1));
    assert!(matches!(pool.next_item(), PoolItem::Shutdown));
}

#[test]
fn slow_reader_gets_a_lag_report() {
    let mut pool: WorkerPool<u32, u32> = WorkerPool::new();
    assert_eq!(EVENT_HISTORY, 16);
    for e in 0..18u32 {
        assert!(pool.publish_event(e));
    }
    match pool.next_item() {
        PoolItem::Lagged(n) => assert_eq!(n, 2),
        _ => panic!("expected a lag report"),
    }
    for e in 2..18u32 {
        match pool.next_item() {
            PoolItem::Event(x) => assert_eq!(x, e),
            _ => panic!("expected event {}", e),
        }
    }
    assert!(matches!(pool.next_item(), PoolItem::Idle));
}

#[test]
fn three_guild_plays_are_handed_out_independently() {
    let mut pool: WorkerPool<(u64, &str), u32> = WorkerPool::new();
    pool.send_job((1, "slow")).unwrap();
    pool.send_job((2, "b")).unwrap();
    pool.send_job((3, "c")).unwrap();
    let mut guilds = vec![];
    for _ in 0..3 {
        match pool.next_item() {
            PoolItem::Job((g, _)) => guilds.push(g),
            _ => panic!("expected a job"),
        }
    }
    assert_eq!(guilds, vec![1, 2, 3]);
}

#[test]
fn track_end_becomes_one_event() {
    let ev = internal(ServerEventType::TrackEnded, Some(1), 1_000);
    let m = process_ipc(&ev, 1_005).expect("reported");
    assert_eq!(
        m,
        Message::Event(Event {
            event_type: EventType::TrackEnd,
            job_id: "job-9".to_string(),
            guild_id: 44,
            timestamp: 1_005,
        })
    );
}

#[test]
fn report_is_stamped_at_send_time() {
    let ev = internal(ServerEventType::TrackError { error: "e".to_string() }, Some(1), 1_000);
    match process_ipc(&ev, 990) {
        Some(Message::Event(e)) => assert_eq!(e.timestamp, 990),
        _ => panic!("expected an event"),
    }
    match process_ipc(&ev, 2_000) {
        Some(Message::Event(e)) => assert_eq!(e.timestamp, 2_000),
        _ => panic!("expected an event"),
    }
}

#[test]
fn track_error_keeps_its_description() {
    let ev = internal(ServerEventType::TrackError { error: "boom".to_string() }, Some(3), 5);
    match process_ipc(&ev, 6) {
        Some(Message::Event(e)) => {
            assert_eq!(e.event_type, EventType::TrackError { error: "boom".to_string() });
            assert_eq!(e.job_id, "job-9");
            assert_eq!(e.guild_id, 44);
        }
        _ => panic!("expected an event"),
    }
}

#[test]
fn event_without_handle_is_dropped() {
    let ev = internal(ServerEventType::TrackEnded, None, 5);
    assert!(process_ipc(&ev, 6).is_none());
}

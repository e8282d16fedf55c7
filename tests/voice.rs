use ravalink_worker::types::{GuildQueue, ServerEventType, ServerMessage};
use ravalink_worker::voice::{describe_track_error, TrackEndNotifier, TrackErrorNotifier, TrackFailure};

fn failure(track: &str, state: &str) -> TrackFailure {
    TrackFailure { track: track.to_string(), state: state.to_string() }
}

#[test]
fn track_error_description() {
    let text = describe_track_error(&failure("1b2c", "Errored(Decoding)"));
    assert_eq!(text, "Track 1b2c encountered an error: Errored(Decoding)");
}

#[test]
fn one_error_event_per_failed_track() {
    let notifier = TrackErrorNotifier { job_id: "j".to_string(), guild_id: 9 };
    let events = notifier.act(&vec![failure("a", "s1"), failure("b", "s2")], &"handle", 77);
    assert_eq!(events.len(), 2);
    let texts: Vec<String> = events
        .iter()
        .map(|e| match &e.message {
            ServerMessage::Event(ServerEventType::TrackError { error }) => error.clone(),
            _ => panic!("expected a track error"),
        })
        .collect();
    assert_eq!(texts, vec!["Track a encountered an error: s1", "Track b encountered an error: s2"]);
    for e in &events {
        assert_eq!(e.job_id, "j");
        assert_eq!(e.guild_id, 9);
        assert_eq!(e.producer, Some("handle"));
        assert_eq!(e.created_at, 77);
    }
    assert!(notifier.act(&vec![], &"handle", 1).is_empty());
}

#[test]
fn track_end_gives_one_event() {
    let notifier = TrackEndNotifier { job_id: "j2".to_string(), guild_id: 10 };
    let e = notifier.act(&5u8, 3);
    assert_eq!(e.producer, Some(5u8));
    assert_eq!(e.message, ServerMessage::Event(ServerEventType::TrackEnded));
    assert_eq!(e.job_id, "j2");
    assert_eq!(e.guild_id, 10);
    assert_eq!(e.producer, Some(5));
    assert_eq!(e.created_at, 3);
}

#[test]
fn guild_queue_is_first_in_first_out() {
    let mut q: GuildQueue<&str> = GuildQueue::new();
    assert!(!q.is_playing());
    assert_eq!(q.next_track(), None);
    q.add_track("a");
    q.add_track("b");
    q.set_playing(true);
    assert!(q.is_playing());
    assert_eq!(q.next_track(), Some("a"));
    assert_eq!(q.next_track(), Some("b"));
    assert_eq!(q.next_track(), None);
}

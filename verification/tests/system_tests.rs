use event_notification::config::{AdapterConfig, NotificationConfig, WebhookConfig};
use event_notification::error::Error;
use event_notification::event::{Bucket, Event, Identity, Metadata, Name, Object, Source};
use event_notification::system::{NotificationSystem, SendOutcome};
use event_notification::{AdapterKind, EventBus, RetryAction, RetryPolicy};
use std::collections::HashMap;

fn config(capacity: usize) -> NotificationConfig {
    NotificationConfig {
        store_path: "./test_events".to_string(),
        channel_capacity: capacity,
        adapters: vec![AdapterConfig::Webhook(WebhookConfig {
            endpoint: "http://localhost:8080/webhook".to_string(),
            auth_token: None,
            custom_headers: None,
            max_retries: 1,
            timeout: 5,
        })],
    }
}

fn sample_event() -> Event {
    Event::builder()
        .event_version("2.0")
        .event_source("aws:s3")
        .aws_region("us-east-1")
        .event_time("2023-10-01T12:00:00.000Z")
        .event_name(Name::ObjectCreatedPut)
        .user_identity(Identity { principal_id: "user123".to_string() })
        .request_parameters(HashMap::new())
        .response_elements(HashMap::new())
        .s3(Metadata {
            schema_version: "1.0".to_string(),
            configuration_id: "test-config".to_string(),
            bucket: Bucket {
                name: "my-bucket".to_string(),
                owner_identity: Identity { principal_id: "owner123".to_string() },
                arn: "arn:aws:s3:::my-bucket".to_string(),
            },
            object: Object {
                key: "test.txt".to_string(),
                size: Some(1024),
                etag: Some("abc123".to_string()),
                content_type: Some("text/plain".to_string()),
                user_metadata: None,
                version_id: None,
                sequencer: "1234567890".to_string(),
            },
        })
        .source(Source {
            host: "localhost".to_string(),
            port: "80".to_string(),
            user_agent: "curl/7.68.0".to_string(),
        })
        .channels(vec!["webhook".to_string()])
        .build()
        .unwrap()
}

fn with_id(id: u128) -> Event {
    let mut e = sample_event();
    e.id = id;
    e
}

fn enqueued(outcome: Result<SendOutcome, Error>) -> bool {
    matches!(outcome, Ok(SendOutcome::Enqueued))
}

#[test]
fn refused_webhook_send_ends_in_failure() {
    // The endpoint refuses every attempt: with one retry the send ends in
    // failure after two attempts.
    let settings = config(100);
    let max_retries = settings.adapters[0].max_retries();
    assert_eq!(settings.adapters[0].kind(), AdapterKind::Webhook);
    let event = sample_event();
    assert!(event.is_for_channel(AdapterKind::Webhook.name()));
    let mut policy = RetryPolicy::new(max_retries);
    assert_eq!(policy.on_attempt(false), RetryAction::RetryAfter(2));
    let result = policy.on_attempt(false);
    assert_eq!(result, RetryAction::GiveUp);
}

#[test]
fn system_takes_an_event_and_starts_once() {
    let mut system = NotificationSystem::new(config(100), Vec::new());
    let event = sample_event();
    assert!(enqueued(system.send_event(event)));
    assert!(system.start().is_ok());
    system.shutdown();
    assert!(system.is_shutdown());
    assert_eq!(system.queued(), 1);
}

#[test]
fn second_start_fails() {
    let mut system = NotificationSystem::new(config(4), Vec::new());
    assert!(system.start().is_ok());
    assert!(matches!(system.start(), Err(Error::EventBusStarted)));
    assert!(enqueued(system.send_event(with_id(1))));
    system.shutdown();
    assert!(matches!(system.start(), Err(Error::EventBusStarted)));
    assert!(system.started);
}

#[test]
fn shutdown_may_be_fired_repeatedly() {
    let mut system = NotificationSystem::new(config(4), Vec::new());
    assert!(!system.is_shutdown());
    system.shutdown();
    system.shutdown();
    assert!(system.is_shutdown());
    assert!(!system.started);
    assert_eq!(system.queued(), 0);
}

#[test]
fn replayed_events_are_taken_before_new_ones() {
    let restored = vec![with_id(1), with_id(2), with_id(3)];
    let mut system = NotificationSystem::new(config(10), restored);
    assert_eq!(system.queued(), 3);
    assert!(enqueued(system.send_event(with_id(4))));
    assert!(system.start().is_ok());
    let mut order = Vec::new();
    while let Some(e) = system.next_event() {
        order.push(e.id);
    }
    assert_eq!(order, vec![1, 2, 3, 4]);
    assert!(system.next_event().is_none());
}

#[test]
fn replay_reaches_the_bus_first() {
    let mut system = NotificationSystem::new(config(10), vec![with_id(11)]);
    let mut bus = EventBus::created_at(1);
    let adapters = vec!["webhook".to_string()];
    assert!(system.start().is_ok());
    let first = system.next_event().unwrap();
    assert_eq!(first.id, 11);
    assert_eq!(bus.receive(first, &adapters).unwrap(), vec![0]);
}

#[test]
fn full_queue_hands_the_event_back() {
    let mut system = NotificationSystem::new(config(2), Vec::new());
    assert!(enqueued(system.send_event(with_id(1))));
    assert!(enqueued(system.send_event(with_id(2))));
    match system.send_event(with_id(3)) {
        Ok(SendOutcome::Full(back)) => assert_eq!(back.id, 3),
        other => panic!("unexpected outcome {:?}", other),
    }
    assert_eq!(system.queued(), 2);
    assert_eq!(system.next_event().unwrap().id, 1);
    assert!(enqueued(system.send_event(with_id(3))));
    assert_eq!(system.next_event().unwrap().id, 2);
    assert_eq!(system.next_event().unwrap().id, 3);
}

#[test]
fn replay_beyond_capacity_is_kept() {
    let restored = vec![with_id(1), with_id(2), with_id(3)];
    let mut system = NotificationSystem::new(config(2), restored);
    assert_eq!(system.queued(), 3);
    assert!(matches!(system.send_event(with_id(4)), Ok(SendOutcome::Full(_))));
    assert_eq!(system.next_event().unwrap().id, 1);
    assert!(matches!(system.send_event(with_id(4)), Ok(SendOutcome::Full(_))));
    assert_eq!(system.next_event().unwrap().id, 2);
    assert!(enqueued(system.send_event(with_id(4))));
}

#[test]
fn send_fails_when_the_bus_is_gone() {
    let mut system = NotificationSystem::new(config(2), Vec::new());
    assert!(system.start().is_ok());
    system.shutdown();
    system.receiver_dropped();
    match system.send_event(with_id(5)) {
        Err(Error::ChannelSend(back)) => assert_eq!(back.id, 5),
        other => panic!("unexpected outcome {:?}", other),
    }
    assert_eq!(system.queued(), 0);
}

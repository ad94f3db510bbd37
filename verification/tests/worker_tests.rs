use redis_watcher::publish::{MAX_PUBLISH_ATTEMPTS, PUBLISH_BACKOFF_MILLIS};
use redis_watcher::subscribe::{
    classify_decoded, is_shutdown_sentinel, CONNECT_BACKOFF_MILLIS, IDLE_WAKE_MILLIS, MAX_SETUP_RETRIES,
    SUBSCRIBE_BACKOFF_MILLIS,
};
use redis_watcher::{
    Inbound, Message, PublishAction, PublishPhase, PublishWorker, StopReason, SubscribeAction, SubscribeEvent,
    SubscribePhase, SubscriptionWorker, UpdateType, WatcherError,
};

fn message(id: &str) -> Message {
    Message::new(UpdateType::Update, id.to_string())
}

fn payload_from(id: &str) -> String {
    message(id).to_json().unwrap()
}

fn listening(local_id: &str, ignore_self: bool) -> SubscriptionWorker {
    let mut worker = SubscriptionWorker::new("/casbin".to_string(), local_id.to_string(), ignore_self);
    assert_eq!(worker.step(false, SubscribeEvent::Start), SubscribeAction::Connect);
    assert_eq!(worker.step(false, SubscribeEvent::Connected), SubscribeAction::Subscribe);
    assert_eq!(worker.step(false, SubscribeEvent::Subscribed), SubscribeAction::Ready);
    assert_eq!(worker.step(false, SubscribeEvent::Woke), SubscribeAction::Listen(100));
    assert_eq!(worker.phase(), SubscribePhase::Listening);
    worker
}

#[test]
fn constants_are_as_documented() {
    assert_eq!(MAX_PUBLISH_ATTEMPTS, 3);
    assert_eq!(PUBLISH_BACKOFF_MILLIS, 100);
    assert_eq!(MAX_SETUP_RETRIES, 5);
    assert_eq!(CONNECT_BACKOFF_MILLIS, 1000);
    assert_eq!(SUBSCRIBE_BACKOFF_MILLIS, 500);
    assert_eq!(IDLE_WAKE_MILLIS, 100);
}

#[test]
fn failing_publish_is_attempted_three_times_then_dropped() {
    let mut worker = PublishWorker::new("/casbin".to_string());
    let mut attempts = 0;
    let mut pauses = Vec::new();
    let mut action = worker.on_entry(false, Some(message("n1")));
    loop {
        match action {
            PublishAction::Publish => {
                attempts += 1;
                assert_eq!(worker.payload(), &payload_from("n1"));
                assert_eq!(worker.channel(), "/casbin");
                action = worker.on_result(false);
            }
            PublishAction::Sleep(millis) => {
                pauses.push(millis);
                action = worker.on_wake();
            }
            PublishAction::Receive => break,
            PublishAction::Stop => panic!("a failed message must not end the worker"),
        }
    }
    assert_eq!(attempts, 3);
    assert_eq!(pauses, vec![100, 200]);
    assert_eq!(worker.dropped(), 1);
    assert_eq!(worker.failures(), 3);
    assert_eq!(worker.phase(), PublishPhase::Idle);
    assert_eq!(worker.on_wake(), PublishAction::Receive);
    assert_eq!(worker.on_result(false), PublishAction::Receive);
    assert_eq!(worker.dropped(), 1);
}

#[test]
fn publish_path_goes_on_after_a_dropped_message() {
    let mut worker = PublishWorker::new("c".to_string());
    worker.on_entry(false, Some(message("first")));
    for _ in 0..3 {
        worker.on_result(false);
        worker.on_wake();
    }
    assert_eq!(worker.dropped(), 1);
    assert_eq!(worker.on_entry(false, Some(message("second"))), PublishAction::Publish);
    assert_eq!(worker.payload(), &payload_from("second"));
    assert_eq!(worker.failures(), 0);
    assert_eq!(worker.on_result(true), PublishAction::Receive);
    assert_eq!(worker.dropped(), 1);
}

#[test]
fn publish_succeeds_at_once_or_after_retries() {
    let mut worker = PublishWorker::new("c".to_string());
    assert_eq!(worker.phase(), PublishPhase::Idle);
    assert_eq!(worker.on_entry(false, Some(message("a"))), PublishAction::Publish);
    assert_eq!(worker.phase(), PublishPhase::Sending);
    assert_eq!(worker.on_result(true), PublishAction::Receive);
    assert_eq!((worker.failures(), worker.dropped()), (0, 0));

    assert_eq!(worker.on_entry(false, Some(message("b"))), PublishAction::Publish);
    assert_eq!(worker.on_result(false), PublishAction::Sleep(100));
    assert_eq!(worker.phase(), PublishPhase::Backoff);
    assert_eq!(worker.on_wake(), PublishAction::Publish);
    assert_eq!(worker.on_result(false), PublishAction::Sleep(200));
    assert_eq!(worker.on_wake(), PublishAction::Publish);
    assert_eq!(worker.on_result(true), PublishAction::Receive);
    assert_eq!((worker.failures(), worker.dropped()), (2, 0));
}

#[test]
fn publish_worker_stops_when_closed_or_queue_gone() {
    let mut worker = PublishWorker::new("c".to_string());
    assert_eq!(worker.on_entry(true, Some(message("a"))), PublishAction::Stop);
    assert_eq!(worker.phase(), PublishPhase::Stopped);
    assert_eq!(worker.payload(), "");
    assert_eq!(worker.on_entry(false, Some(message("a"))), PublishAction::Stop);
    assert_eq!(worker.on_result(true), PublishAction::Stop);
    assert_eq!(worker.on_wake(), PublishAction::Stop);

    let mut worker = PublishWorker::new("c".to_string());
    assert_eq!(worker.on_entry(false, None), PublishAction::Stop);
    let mut worker = PublishWorker::new("c".to_string());
    assert_eq!(worker.on_entry(true, None), PublishAction::Stop);
}

#[test]
fn publish_worker_passes_over_what_it_does_not_wait_for() {
    let mut worker = PublishWorker::new("c".to_string());
    assert_eq!(worker.on_result(false), PublishAction::Receive);
    assert_eq!(worker.on_wake(), PublishAction::Receive);
    assert_eq!(worker.dropped(), 0);
    worker.on_entry(false, Some(message("a")));
    assert_eq!(worker.on_entry(false, Some(message("b"))), PublishAction::Publish);
    assert_eq!(worker.payload(), &payload_from("a"));
    assert_eq!(worker.on_wake(), PublishAction::Publish);
    assert_eq!(worker.on_result(false), PublishAction::Sleep(100));
    assert_eq!(worker.on_result(false), PublishAction::Sleep(100));
    assert_eq!(worker.on_entry(false, None), PublishAction::Sleep(100));
}

#[test]
fn connection_is_given_up_at_the_sixth_failure() {
    let mut worker = SubscriptionWorker::new("c".to_string(), "me".to_string(), false);
    assert_eq!(worker.step(false, SubscribeEvent::Start), SubscribeAction::Connect);
    let mut attempts = 1;
    let mut pauses = Vec::new();
    loop {
        match worker.step(false, SubscribeEvent::ConnectFailed) {
            SubscribeAction::Sleep(millis) => {
                pauses.push(millis);
                assert_eq!(worker.phase(), SubscribePhase::ConnectBackoff);
                assert_eq!(worker.step(false, SubscribeEvent::Woke), SubscribeAction::Connect);
                attempts += 1;
            }
            SubscribeAction::Stop => break,
            other => panic!("unexpected {:?}", other),
        }
    }
    assert_eq!(attempts, 6);
    assert_eq!(pauses, vec![1000, 2000, 3000, 4000, 5000]);
    assert_eq!(worker.phase(), SubscribePhase::Stopped);
    assert_eq!(worker.stop_reason(), Some(StopReason::ConnectFailed));
    assert!(worker.has_failed());
    assert_eq!(worker.step(false, SubscribeEvent::Start), SubscribeAction::Stop);
    assert_eq!(worker.step(false, SubscribeEvent::Connected), SubscribeAction::Stop);
    assert_eq!(worker.on_payload(false, Some(&payload_from("other")), true), Inbound::StopClosed);
}

#[test]
fn subscription_is_given_up_at_the_sixth_failure() {
    let mut worker = SubscriptionWorker::new("c".to_string(), "me".to_string(), false);
    worker.step(false, SubscribeEvent::Start);
    worker.step(false, SubscribeEvent::ConnectFailed);
    worker.step(false, SubscribeEvent::Woke);
    assert_eq!(worker.step(false, SubscribeEvent::Connected), SubscribeAction::Subscribe);
    let mut pauses = Vec::new();
    loop {
        match worker.step(false, SubscribeEvent::SubscribeFailed) {
            SubscribeAction::Sleep(millis) => {
                pauses.push(millis);
                assert_eq!(worker.phase(), SubscribePhase::SubscribeBackoff);
                assert_eq!(worker.step(false, SubscribeEvent::Woke), SubscribeAction::Subscribe);
            }
            SubscribeAction::Stop => break,
            other => panic!("unexpected {:?}", other),
        }
    }
    assert_eq!(pauses, vec![500, 1000, 1500, 2000, 2500]);
    assert_eq!(worker.stop_reason(), Some(StopReason::SubscribeFailed));
    assert!(worker.has_failed());
}

#[test]
fn setup_succeeds_after_failures_and_signals_readiness_once() {
    let mut worker = SubscriptionWorker::new("/casbin".to_string(), "me".to_string(), true);
    assert_eq!(worker.channel(), "/casbin");
    assert_eq!(worker.phase(), SubscribePhase::Connecting);
    assert_eq!(worker.stop_reason(), None);
    worker.step(false, SubscribeEvent::Start);
    for n in 1..=5u64 {
        assert_eq!(worker.step(false, SubscribeEvent::ConnectFailed), SubscribeAction::Sleep(1000 * n));
        assert_eq!(worker.step(false, SubscribeEvent::Woke), SubscribeAction::Connect);
    }
    assert_eq!(worker.step(false, SubscribeEvent::Connected), SubscribeAction::Subscribe);
    assert_eq!(worker.step(false, SubscribeEvent::SubscribeFailed), SubscribeAction::Sleep(500));
    assert_eq!(worker.step(false, SubscribeEvent::Woke), SubscribeAction::Subscribe);
    assert_eq!(worker.step(false, SubscribeEvent::Subscribed), SubscribeAction::Ready);
    assert_eq!(worker.phase(), SubscribePhase::Listening);
    assert_eq!(worker.step(false, SubscribeEvent::Subscribed), SubscribeAction::Listen(100));
    assert_eq!(worker.step(false, SubscribeEvent::Woke), SubscribeAction::Listen(100));
    assert!(!worker.has_failed());
}

#[test]
fn closed_flag_is_seen_before_each_attempt_and_at_each_wake() {
    let fresh = || SubscriptionWorker::new("c".to_string(), "me".to_string(), false);

    let mut worker = fresh();
    assert_eq!(worker.step(true, SubscribeEvent::Start), SubscribeAction::Stop);
    assert_eq!(worker.stop_reason(), Some(StopReason::Closed));
    assert!(!worker.has_failed());

    let mut worker = fresh();
    worker.step(false, SubscribeEvent::Start);
    assert_eq!(worker.step(true, SubscribeEvent::ConnectFailed), SubscribeAction::Sleep(1000));
    assert_eq!(worker.step(true, SubscribeEvent::Woke), SubscribeAction::Stop);
    assert_eq!(worker.stop_reason(), Some(StopReason::Closed));

    let mut worker = fresh();
    worker.step(false, SubscribeEvent::Start);
    assert_eq!(worker.step(true, SubscribeEvent::Connected), SubscribeAction::Stop);

    let mut worker = fresh();
    worker.step(false, SubscribeEvent::Start);
    worker.step(false, SubscribeEvent::Connected);
    assert_eq!(worker.step(true, SubscribeEvent::SubscribeFailed), SubscribeAction::Sleep(500));
    assert_eq!(worker.step(true, SubscribeEvent::Woke), SubscribeAction::Stop);

    let mut worker = listening("me", false);
    assert_eq!(worker.step(true, SubscribeEvent::Woke), SubscribeAction::Stop);
    assert_eq!(worker.stop_reason(), Some(StopReason::Closed));
}

#[test]
fn own_messages_are_never_delivered_when_ignoring_self() {
    let mut worker = listening("L", true);
    for callback_set in [true, false] {
        assert_eq!(worker.on_payload(false, Some(&payload_from("L")), callback_set), Inbound::SkipOwn);
    }
    assert_eq!(worker.phase(), SubscribePhase::Listening);
}

#[test]
fn other_messages_are_delivered_once_a_callback_is_registered() {
    let mut worker = listening("L", true);
    for id in ["M", "", "l", "L ", "LL"] {
        assert_eq!(worker.on_payload(false, Some(&payload_from(id)), true), Inbound::Deliver);
        assert_eq!(worker.on_payload(false, Some(&payload_from(id)), false), Inbound::SkipNoCallback);
    }
    assert_eq!(worker.phase(), SubscribePhase::Listening);
}

#[test]
fn own_messages_are_delivered_when_not_ignoring_self() {
    let mut worker = listening("L", false);
    assert_eq!(worker.on_payload(false, Some(&payload_from("L")), true), Inbound::Deliver);
    assert_eq!(worker.on_payload(false, Some(&payload_from("M")), true), Inbound::Deliver);
    assert_eq!(worker.on_payload(false, Some(&payload_from("L")), false), Inbound::SkipNoCallback);
}

#[test]
fn malformed_payloads_are_passed_over() {
    let mut worker = listening("L", true);
    for text in ["", "close", "Close ", "{", "[]", "{\"ID\":\"M\"}", "{\"Method\":\"Update\",\"ID\":1}"] {
        assert_eq!(worker.on_payload(false, Some(text), true), Inbound::SkipMalformed, "{:?}", text);
        assert_eq!(worker.phase(), SubscribePhase::Listening);
    }
    assert_eq!(worker.on_payload(false, Some(&payload_from("M")), true), Inbound::Deliver);
}

#[test]
fn sentinel_ends_the_receiving_side() {
    assert!(is_shutdown_sentinel("Close"));
    assert!(!is_shutdown_sentinel("close"));
    assert!(!is_shutdown_sentinel(""));
    assert!(!is_shutdown_sentinel("Close\n"));
    assert!(Message::from_json("Close").is_err());

    let mut worker = listening("L", true);
    assert_eq!(worker.on_payload(false, Some("Close"), true), Inbound::StopPeerShutdown);
    assert_eq!(worker.phase(), SubscribePhase::Stopped);
    assert_eq!(worker.stop_reason(), Some(StopReason::PeerShutdown));
    assert!(!worker.has_failed());
    assert_eq!(worker.step(false, SubscribeEvent::Woke), SubscribeAction::Stop);
    assert_eq!(worker.on_payload(false, Some(&payload_from("M")), true), Inbound::StopClosed);
}

#[test]
fn end_of_stream_ends_the_receiving_side() {
    let mut worker = listening("L", true);
    assert_eq!(worker.on_payload(false, None, true), Inbound::StopStreamEnded);
    assert_eq!(worker.stop_reason(), Some(StopReason::StreamEnded));
    assert_eq!(worker.step(false, SubscribeEvent::Woke), SubscribeAction::Stop);
}

#[test]
fn nothing_is_delivered_once_closed() {
    let mut worker = listening("L", false);
    assert_eq!(worker.on_payload(true, Some(&payload_from("M")), true), Inbound::StopClosed);
    assert_eq!(worker.stop_reason(), Some(StopReason::Closed));
    for payload in [Some("Close"), Some("{"), None] {
        let mut worker = listening("L", false);
        assert_eq!(worker.on_payload(true, payload, true), Inbound::StopClosed);
    }
}

#[test]
fn nothing_is_delivered_before_the_subscription_stands() {
    let mut worker = SubscriptionWorker::new("c".to_string(), "L".to_string(), false);
    assert_eq!(worker.on_payload(false, Some(&payload_from("M")), true), Inbound::StopClosed);
    assert_eq!(worker.phase(), SubscribePhase::Connecting);
    assert_eq!(worker.stop_reason(), None);
    assert_eq!(worker.step(false, SubscribeEvent::Start), SubscribeAction::Connect);
}

#[test]
fn decoded_payloads_are_classified() {
    let id = "L".to_string();
    let own: Result<Message, WatcherError> = Ok(message("L"));
    let other: Result<Message, WatcherError> = Ok(message("M"));
    let broken: Result<Message, WatcherError> = Message::from_json("{");
    assert_eq!(classify_decoded(true, &id, &own, true), Inbound::SkipOwn);
    assert_eq!(classify_decoded(true, &id, &own, false), Inbound::SkipOwn);
    assert_eq!(classify_decoded(false, &id, &own, true), Inbound::Deliver);
    assert_eq!(classify_decoded(false, &id, &own, false), Inbound::SkipNoCallback);
    assert_eq!(classify_decoded(true, &id, &other, true), Inbound::Deliver);
    assert_eq!(classify_decoded(true, &id, &other, false), Inbound::SkipNoCallback);
    assert_eq!(classify_decoded(true, &id, &broken, true), Inbound::SkipMalformed);
    assert_eq!(classify_decoded(false, &id, &broken, false), Inbound::SkipMalformed);
}

#[test]
fn outcomes_name_their_notice() {
    assert!(matches!(Inbound::SkipNoCallback.notice(), Some(WatcherError::CallbackNotSet)));
    assert!(matches!(Inbound::StopClosed.notice(), Some(WatcherError::AlreadyClosed)));
    for outcome in [
        Inbound::Deliver,
        Inbound::SkipMalformed,
        Inbound::SkipOwn,
        Inbound::StopStreamEnded,
        Inbound::StopPeerShutdown,
    ] {
        assert!(outcome.notice().is_none());
    }
}

use redis_watcher::{
    EventData, Inbound, Message, PublishAction, PublishWorker, RedisWatcher, SubscribeAction, SubscribeEvent,
    SubscriptionWorker, UpdateType, WatcherError, WatcherOptions, WatcherState,
};
use std::cell::RefCell;
use std::rc::Rc;

const REDIS_URL: &str = "redis://127.0.0.1:6379";

type Callback = Box<dyn FnMut(String)>;

/// One instance with both of its workers, driven by hand over a channel that
/// lives in memory.
struct Instance {
    watcher: RedisWatcher<Callback>,
    publisher: PublishWorker,
    subscriber: SubscriptionWorker,
}

impl Instance {
    fn standalone(options: WatcherOptions) -> Instance {
        Instance::around(RedisWatcher::new(REDIS_URL, options).unwrap())
    }

    fn around(mut watcher: RedisWatcher<Callback>) -> Instance {
        let publisher = watcher.start_publisher();
        let mut subscriber = watcher.start_subscription().unwrap();
        assert_eq!(subscriber.step(watcher.is_closed(), SubscribeEvent::Start), SubscribeAction::Connect);
        assert_eq!(subscriber.step(watcher.is_closed(), SubscribeEvent::Connected), SubscribeAction::Subscribe);
        assert_eq!(subscriber.step(watcher.is_closed(), SubscribeEvent::Subscribed), SubscribeAction::Ready);
        assert!(watcher.mark_ready());
        assert_eq!(subscriber.step(watcher.is_closed(), SubscribeEvent::Woke), SubscribeAction::Listen(100));
        Instance { watcher, publisher, subscriber }
    }

    /// Publishes everything that waits, and gives the payloads in the order
    /// in which they went out.
    fn publish_all(&mut self) -> Vec<String> {
        let mut sent = Vec::new();
        loop {
            let closed = self.watcher.is_closed();
            let entry = self.watcher.next_outbound();
            if entry.is_none() {
                return sent;
            }
            match self.publisher.on_entry(closed, entry) {
                PublishAction::Publish => {
                    sent.push(self.publisher.payload().clone());
                    assert_eq!(self.publisher.on_result(true), PublishAction::Receive);
                }
                PublishAction::Stop => return sent,
                other => panic!("unexpected {:?}", other),
            }
        }
    }

    /// Takes a payload in from the channel.
    fn receive(&mut self, payload: &str) -> Inbound {
        let outcome =
            self.subscriber.on_payload(self.watcher.is_closed(), Some(payload), self.watcher.has_update_callback());
        if outcome == Inbound::Deliver {
            let callback = self.watcher.callback_mut().expect("a callback is registered");
            callback(payload.to_string());
        }
        outcome
    }
}

fn recorder() -> (Rc<RefCell<Vec<String>>>, Callback) {
    let seen = Rc::new(RefCell::new(Vec::new()));
    let sink = seen.clone();
    (seen, Box::new(move |payload: String| sink.borrow_mut().push(payload)))
}

fn rule(items: &[&str]) -> Vec<String> {
    items.iter().map(|s| s.to_string()).collect()
}

fn options(channel: &str, ignore_self: bool, id: &str) -> WatcherOptions {
    WatcherOptions::default()
        .with_channel(channel.to_string())
        .with_ignore_self(ignore_self)
        .with_local_id(id.to_string())
}

#[test]
fn test_watcher_creation() {
    let options = WatcherOptions::default();
    let result = RedisWatcher::<Callback>::new(REDIS_URL, options);

    assert!(result.is_ok(), "Watcher creation should succeed");
}

#[test]
fn new_watcher_is_created_open_and_empty() {
    let watcher = RedisWatcher::<Callback>::new(REDIS_URL, options("/c", true, "me")).unwrap();
    assert_eq!(watcher.state(), WatcherState::Created);
    assert!(!watcher.is_closed());
    assert!(!watcher.is_ready());
    assert!(!watcher.has_update_callback());
    assert_eq!(watcher.pending(), 0);
    assert_eq!(watcher.options().channel, "/c");
    assert!(watcher.options().ignore_self);
    assert_eq!(watcher.options().local_id, "me");
    assert!(!watcher.transport().is_cluster());
    assert_eq!(watcher.transport().target(), REDIS_URL);
}

#[test]
fn unreachable_target_fails_at_construction() {
    let result = RedisWatcher::<Callback>::new("not a url", WatcherOptions::default());
    assert!(matches!(result, Err(WatcherError::RedisConnection(_))));
    let result = RedisWatcher::<Callback>::new_cluster("not a url", WatcherOptions::default());
    assert!(matches!(result, Err(WatcherError::Configuration(_))));
    let result = RedisWatcher::<Callback>::new_cluster("", WatcherOptions::default());
    match result {
        Err(error) => assert_eq!(error.to_string(), "Configuration error: No cluster URLs provided"),
        Ok(_) => panic!("an empty node list must be refused"),
    }
}

#[test]
fn cluster_watcher_is_pinned_to_the_first_node() {
    let urls = "redis://127.0.0.1:7000,redis://127.0.0.1:7001,redis://127.0.0.1:7002";
    let watcher = RedisWatcher::<Callback>::new_cluster(urls, options("/c", true, "me")).unwrap();
    assert!(watcher.transport().is_cluster());
    assert_eq!(watcher.transport().target(), "redis://127.0.0.1:7000");
    assert_eq!(watcher.state(), WatcherState::Created);
    assert_eq!(watcher.options().local_id, "me");
}

#[test]
fn watcher_walks_through_its_states() {
    let mut watcher = RedisWatcher::<Callback>::new(REDIS_URL, WatcherOptions::default()).unwrap();
    assert_eq!(watcher.state(), WatcherState::Created);
    assert!(watcher.mark_ready());
    assert_eq!(watcher.state(), WatcherState::Ready);
    assert!(!watcher.mark_ready());
    assert!(watcher.is_ready());
    watcher.set_update_callback(Box::new(|_| {})).unwrap();
    assert_eq!(watcher.state(), WatcherState::Active);
    watcher.close();
    assert_eq!(watcher.state(), WatcherState::Closed);
    watcher.close();
    assert_eq!(watcher.state(), WatcherState::Closed);
    assert!(watcher.is_closed());
    assert!(!watcher.mark_ready());
}

#[test]
fn callback_before_readiness_leaves_the_watcher_created() {
    let mut watcher = RedisWatcher::<Callback>::new(REDIS_URL, WatcherOptions::default()).unwrap();
    watcher.set_update_callback(Box::new(|_| {})).unwrap();
    assert_eq!(watcher.state(), WatcherState::Created);
    assert!(watcher.has_update_callback());
    assert!(watcher.mark_ready());
    assert_eq!(watcher.state(), WatcherState::Active);
}

#[test]
fn closed_watcher_is_never_ready() {
    let mut watcher = RedisWatcher::<Callback>::new(REDIS_URL, WatcherOptions::default()).unwrap();
    watcher.close();
    assert!(!watcher.mark_ready());
    assert!(!watcher.is_ready());
}

#[test]
fn update_after_close_fails_with_already_closed() {
    let mut watcher = RedisWatcher::<Callback>::new(REDIS_URL, WatcherOptions::default()).unwrap();
    assert!(watcher.update(EventData::ClearPolicy).is_ok());
    assert_eq!(watcher.pending(), 1);
    watcher.close();
    for event in [
        EventData::ClearPolicy,
        EventData::ClearCache,
        EventData::SavePolicy(vec![]),
        EventData::AddPolicy("p".to_string(), "p".to_string(), rule(&["a"])),
    ] {
        assert!(matches!(watcher.update(event), Err(WatcherError::AlreadyClosed)));
    }
    let extra = Message::new(UpdateType::Update, "x".to_string());
    assert!(matches!(watcher.publish_message(extra), Err(WatcherError::AlreadyClosed)));
    assert_eq!(watcher.pending(), 1);
    assert!(watcher.next_outbound().is_none());
    assert_eq!(watcher.pending(), 1);
}

#[test]
fn callback_registration_after_close_fails_with_already_closed() {
    let mut watcher = RedisWatcher::<Callback>::new(REDIS_URL, WatcherOptions::default()).unwrap();
    watcher.close();
    let result = watcher.set_update_callback(Box::new(|_| {}));
    assert!(matches!(result, Err(WatcherError::AlreadyClosed)));
    assert!(!watcher.has_update_callback());
    assert!(watcher.callback_mut().is_none());
    assert!(matches!(watcher.start_subscription(), Err(WatcherError::AlreadyClosed)));
}

#[test]
fn no_callback_runs_after_close() {
    let (seen, callback) = recorder();
    let mut receiver = Instance::standalone(options("/c", false, "b"));
    receiver.watcher.set_update_callback(callback).unwrap();
    let payload = Message::new(UpdateType::Update, "a".to_string()).to_json().unwrap();
    assert_eq!(receiver.receive(&payload), Inbound::Deliver);
    assert_eq!(seen.borrow().len(), 1);
    receiver.watcher.close();
    assert!(receiver.watcher.callback_mut().is_none());
    assert_eq!(receiver.receive(&payload), Inbound::StopClosed);
    assert_eq!(receiver.receive(&payload), Inbound::StopClosed);
    assert_eq!(seen.borrow().len(), 1);
}

#[test]
fn callback_can_be_replaced() {
    let (first_seen, first) = recorder();
    let (second_seen, second) = recorder();
    let mut receiver = Instance::standalone(options("/c", true, "b"));
    let payload = Message::new(UpdateType::Update, "a".to_string()).to_json().unwrap();
    assert_eq!(receiver.receive(&payload), Inbound::SkipNoCallback);
    receiver.watcher.set_update_callback(first).unwrap();
    assert_eq!(receiver.receive(&payload), Inbound::Deliver);
    receiver.watcher.set_update_callback(second).unwrap();
    assert_eq!(receiver.receive(&payload), Inbound::Deliver);
    assert_eq!(first_seen.borrow().len(), 1);
    assert_eq!(second_seen.borrow().len(), 1);
    assert_eq!(second_seen.borrow()[0], payload);
}

#[test]
fn messages_dropped_before_a_callback_are_not_replayed() {
    let (seen, callback) = recorder();
    let mut receiver = Instance::standalone(options("/c", true, "b"));
    let payload = Message::new(UpdateType::Update, "a".to_string()).to_json().unwrap();
    assert_eq!(receiver.receive(&payload), Inbound::SkipNoCallback);
    receiver.watcher.set_update_callback(callback).unwrap();
    assert!(seen.borrow().is_empty());
}

#[test]
fn updates_are_published_in_the_order_of_the_calls() {
    let (seen, callback) = recorder();
    let mut sender = Instance::standalone(options("/c", true, "a"));
    let mut receiver = Instance::standalone(options("/c", true, "b"));
    receiver.watcher.set_update_callback(callback).unwrap();

    sender.watcher.update(EventData::AddPolicy("p".to_string(), "p".to_string(), rule(&["first"]))).unwrap();
    sender.watcher.update(EventData::RemovePolicy("p".to_string(), "p".to_string(), rule(&["second"]))).unwrap();
    sender.watcher.update(EventData::ClearPolicy).unwrap();
    assert_eq!(sender.watcher.pending(), 3);

    let sent = sender.publish_all();
    assert_eq!(sender.watcher.pending(), 0);
    assert_eq!(sent.len(), 3);
    for payload in &sent {
        assert_eq!(receiver.receive(payload), Inbound::Deliver);
    }
    let methods: Vec<UpdateType> =
        seen.borrow().iter().map(|payload| Message::from_json(payload).unwrap().method).collect();
    assert_eq!(
        methods,
        vec![UpdateType::UpdateForAddPolicy, UpdateType::UpdateForRemovePolicy, UpdateType::Update]
    );
    assert_eq!(Message::from_json(&seen.borrow()[0]).unwrap().new_rule, rule(&["first"]));
    assert_eq!(Message::from_json(&seen.borrow()[1]).unwrap().old_rule, rule(&["second"]));
}

#[test]
fn queue_hands_out_the_oldest_first() {
    let mut watcher = RedisWatcher::<Callback>::new(REDIS_URL, options("/c", false, "me")).unwrap();
    for name in ["one", "two", "three"] {
        watcher.publish_message(Message::new(UpdateType::Update, name.to_string())).unwrap();
    }
    assert_eq!(watcher.next_outbound().unwrap().id, "one");
    watcher.publish_message(Message::new(UpdateType::Update, "four".to_string())).unwrap();
    assert_eq!(watcher.next_outbound().unwrap().id, "two");
    assert_eq!(watcher.next_outbound().unwrap().id, "three");
    assert_eq!(watcher.next_outbound().unwrap().id, "four");
    assert!(watcher.next_outbound().is_none());
    assert_eq!(watcher.pending(), 0);
}

#[test]
fn every_message_carries_the_publishers_identifier() {
    let mut sender = Instance::standalone(options("/c", false, "instance-a"));
    sender.watcher.update(EventData::SavePolicy(vec![rule(&["x"])])).unwrap();
    sender.watcher.update(EventData::ClearCache).unwrap();
    for payload in sender.publish_all() {
        assert_eq!(Message::from_json(&payload).unwrap().id, "instance-a");
    }
}

#[test]
fn queued_messages_are_lost_on_close() {
    let mut sender = Instance::standalone(options("/c", false, "a"));
    sender.watcher.update(EventData::ClearPolicy).unwrap();
    sender.watcher.update(EventData::ClearPolicy).unwrap();
    sender.watcher.close();
    assert!(sender.publish_all().is_empty());
}

#[test]
fn workers_take_the_watchers_configuration() {
    let watcher = RedisWatcher::<Callback>::new(REDIS_URL, options("/topic", true, "me")).unwrap();
    let publisher = watcher.start_publisher();
    assert_eq!(publisher.channel(), "/topic");
    let mut subscriber = watcher.start_subscription().unwrap();
    assert_eq!(subscriber.channel(), "/topic");
    subscriber.step(false, SubscribeEvent::Start);
    subscriber.step(false, SubscribeEvent::Connected);
    subscriber.step(false, SubscribeEvent::Subscribed);
    let own = Message::new(UpdateType::Update, "me".to_string()).to_json().unwrap();
    assert_eq!(subscriber.on_payload(false, Some(&own), true), Inbound::SkipOwn);
}

#[test]
fn test_ignore_self_true() {
    let callback_called = Rc::new(RefCell::new(false));
    let callback_called_clone = callback_called.clone();

    let wo = WatcherOptions::default()
        .with_channel("test_ignore_true".to_string())
        .with_ignore_self(true)
        .with_local_id("test_watcher".to_string());

    let mut node = Instance::standalone(wo);

    node.watcher
        .set_update_callback(Box::new(move |_msg: String| {
            *callback_called_clone.borrow_mut() = true;
        }))
        .unwrap();

    // Watcher sends update to itself
    node.watcher
        .update(EventData::AddPolicy("p".to_string(), "p".to_string(), vec!["test".to_string()]))
        .unwrap();
    for payload in node.publish_all() {
        node.receive(&payload);
    }

    assert!(!*callback_called.borrow(), "Callback should NOT be called when ignore_self=true");
}

#[test]
fn test_ignore_self_false() {
    let callback_called = Rc::new(RefCell::new(false));
    let callback_called_clone = callback_called.clone();

    let wo = WatcherOptions::default().with_channel("test_ignore_false".to_string()).with_ignore_self(false);

    let mut node = Instance::standalone(wo);

    node.watcher
        .set_update_callback(Box::new(move |_msg: String| {
            *callback_called_clone.borrow_mut() = true;
        }))
        .unwrap();

    node.watcher
        .update(EventData::AddPolicy("p".to_string(), "p".to_string(), vec!["test".to_string()]))
        .unwrap();
    for payload in node.publish_all() {
        node.receive(&payload);
    }

    assert!(*callback_called.borrow(), "Callback SHOULD be called when ignore_self=false");
}

#[test]
fn test_three_enforcers_distributed_sync() {
    let mut nodes: Vec<Instance> = Vec::new();
    let mut counts = Vec::new();
    for i in 1..=3 {
        let mut node = Instance::standalone(options("test_three_enforcers", true, &format!("enforcer{}", i)));
        let count = Rc::new(RefCell::new(0));
        let sink = count.clone();
        node.watcher.set_update_callback(Box::new(move |_msg: String| *sink.borrow_mut() += 1)).unwrap();
        nodes.push(node);
        counts.push(count);
    }

    nodes[0]
        .watcher
        .update(EventData::AddPolicy("p".to_string(), "p".to_string(), rule(&["user1", "res1", "read"])))
        .unwrap();
    let sent = nodes[0].publish_all();
    for payload in &sent {
        for node in nodes.iter_mut() {
            node.receive(payload);
        }
    }

    assert_eq!(*counts[0].borrow(), 0, "E1 should not receive its own update");
    assert_eq!(*counts[1].borrow(), 1, "E2 should receive update from E1");
    assert_eq!(*counts[2].borrow(), 1, "E3 should receive update from E1");
}

#[test]
fn test_watcher_notification_on_add_policy() {
    let (seen, callback) = recorder();
    let mut e1 = Instance::standalone(options("test_add_policy", true, "enforcer1"));
    let mut e2 = Instance::standalone(options("test_add_policy", true, "enforcer2"));
    e2.watcher.set_update_callback(callback).unwrap();

    e1.watcher
        .update(EventData::AddPolicy("p".to_string(), "p".to_string(), rule(&["alice", "book1", "write"])))
        .unwrap();
    for payload in e1.publish_all() {
        e2.receive(&payload);
    }

    let seen = seen.borrow();
    assert!(!seen.is_empty(), "E2 watcher should receive update notification from E1");
    let msg = &seen[0];
    assert!(msg.contains("UpdateForAddPolicy"), "Message should contain UpdateForAddPolicy");
    assert!(msg.contains("alice"), "Message should contain the policy subject");
    assert!(msg.contains("book1"), "Message should contain the policy object");
    assert!(msg.contains("write"), "Message should contain the policy action");
}

#[test]
fn test_watcher_notification_on_remove_policy() {
    let (seen, callback) = recorder();
    let mut e1 = Instance::standalone(options("test_remove_policy", true, "enforcer1"));
    let mut e2 = Instance::standalone(options("test_remove_policy", true, "enforcer2"));
    e2.watcher.set_update_callback(callback).unwrap();

    e1.watcher
        .update(EventData::RemovePolicy("p".to_string(), "p".to_string(), rule(&["alice", "data1", "read"])))
        .unwrap();
    for payload in e1.publish_all() {
        e2.receive(&payload);
    }

    let seen = seen.borrow();
    assert!(!seen.is_empty(), "E2 watcher should receive update notification");
    assert!(seen[0].contains("UpdateForRemovePolicy"), "Message should contain UpdateForRemovePolicy");
    assert!(seen[0].contains("alice"), "Message should contain the removed policy subject");
}

#[test]
fn test_watcher_notification_on_add_policies() {
    let (seen, callback) = recorder();
    let mut e1 = Instance::standalone(options("test_add_policies", true, "enforcer1"));
    let mut e2 = Instance::standalone(options("test_add_policies", true, "enforcer2"));
    e2.watcher.set_update_callback(callback).unwrap();

    let rules = vec![rule(&["jack", "data4", "read"]), rule(&["katy", "data4", "write"])];
    e1.watcher.update(EventData::AddPolicies("p".to_string(), "p".to_string(), rules)).unwrap();
    for payload in e1.publish_all() {
        e2.receive(&payload);
    }

    let seen = seen.borrow();
    assert!(!seen.is_empty(), "E2 watcher should receive batch update notification");
    assert!(seen[0].contains("UpdateForAddPolicies"), "Message should contain UpdateForAddPolicies");
    assert!(seen[0].contains("jack"), "Message should contain first policy");
    assert!(seen[0].contains("katy"), "Message should contain second policy");
}

#[test]
fn test_redis_cluster_pubsub_notification() {
    let pubsub_node = "redis://127.0.0.1:7000";
    let (seen, callback) = recorder();
    let w1 = RedisWatcher::new_cluster(pubsub_node, options("test_cluster_sync", true, "cluster_enforcer1"))
        .expect("Failed to create cluster watcher1");
    let w2 = RedisWatcher::new_cluster(pubsub_node, options("test_cluster_sync", true, "cluster_enforcer2"))
        .expect("Failed to create cluster watcher2");
    assert_eq!(w1.transport().target(), w2.transport().target());
    let mut e1 = Instance::around(w1);
    let mut e2 = Instance::around(w2);
    e2.watcher.set_update_callback(callback).unwrap();

    e1.watcher
        .update(EventData::AddPolicy("p".to_string(), "p".to_string(), rule(&["cluster-user-1", "data2", "write"])))
        .unwrap();
    for payload in e1.publish_all() {
        e2.receive(&payload);
    }

    let seen = seen.borrow();
    assert!(!seen.is_empty(), "Failed to receive callback after 10 attempts");
    assert!(seen[0].contains("cluster-user-1"), "E2's received message should contain the new policy subject");
}

#[test]
fn pinned_cluster_watchers_exchange_an_add_policy() {
    let (seen, callback) = recorder();
    let node = "redis://127.0.0.1:7000";
    let a = RedisWatcher::new_cluster(node, options("/pinned", true, "A")).unwrap();
    let b = RedisWatcher::new_cluster(node, options("/pinned", true, "B")).unwrap();
    assert!(a.transport().is_cluster() && b.transport().is_cluster());
    assert_eq!(a.transport().target(), node);
    assert_eq!(b.transport().target(), node);
    assert_eq!(a.options().channel, b.options().channel);
    let mut a = Instance::around(a);
    let mut b = Instance::around(b);
    b.watcher.set_update_callback(callback).unwrap();

    a.watcher
        .update(EventData::AddPolicy("p".to_string(), "p".to_string(), rule(&["alice", "data1", "read"])))
        .unwrap();
    let sent = a.publish_all();
    assert_eq!(sent.len(), 1);
    assert_eq!(a.publisher.channel(), b.subscriber.channel());
    assert_eq!(a.receive(&sent[0]), Inbound::SkipOwn);
    assert_eq!(b.receive(&sent[0]), Inbound::Deliver);

    let seen = seen.borrow();
    assert_eq!(seen.len(), 1);
    let decoded = Message::from_json(&seen[0]).unwrap();
    assert_eq!(decoded.method, UpdateType::UpdateForAddPolicy);
    assert_eq!(decoded.new_rule, vec!["alice", "data1", "read"]);
    assert_eq!(decoded.id, "A");
}

#[test]
fn each_kind_of_update_queues_its_message() {
    let mut watcher = RedisWatcher::<Callback>::new(REDIS_URL, options("/c", false, "me")).unwrap();
    let p = || "p".to_string();
    watcher.update_for_add_policy(p(), p(), rule(&["alice", "data1", "read"])).unwrap();
    watcher.update_for_remove_policy(p(), p(), rule(&["bob"])).unwrap();
    watcher.update_for_remove_filtered_policy(p(), p(), 1, rule(&["data1", "read"])).unwrap();
    watcher.update_for_save_policy().unwrap();
    watcher.update_for_add_policies(p(), p(), vec![rule(&["a"]), rule(&["b"])]).unwrap();
    watcher.update_for_remove_policies(p(), p(), vec![rule(&["c"])]).unwrap();
    watcher.update_for_update_policy(p(), p(), rule(&["old"]), rule(&["new"])).unwrap();
    watcher.update_for_update_policies(p(), p(), vec![rule(&["o1"])], vec![rule(&["n1"])]).unwrap();
    watcher.update(EventData::ClearPolicy).unwrap();
    assert_eq!(watcher.pending(), 9);

    let mut wire = Vec::new();
    while let Some(message) = watcher.next_outbound() {
        assert_eq!(message.id, "me");
        wire.push(message.to_json().unwrap());
    }
    assert_eq!(
        wire,
        vec![
            "{\"Method\":\"UpdateForAddPolicy\",\"ID\":\"me\",\"Sec\":\"p\",\"Ptype\":\"p\",\"NewRule\":[\"alice\",\"data1\",\"read\"]}",
            "{\"Method\":\"UpdateForRemovePolicy\",\"ID\":\"me\",\"Sec\":\"p\",\"Ptype\":\"p\",\"OldRule\":[\"bob\"]}",
            "{\"Method\":\"UpdateForRemoveFilteredPolicy\",\"ID\":\"me\",\"Sec\":\"p\",\"Ptype\":\"p\",\"FieldIndex\":1,\"FieldValues\":[\"data1\",\"read\"]}",
            "{\"Method\":\"UpdateForSavePolicy\",\"ID\":\"me\"}",
            "{\"Method\":\"UpdateForAddPolicies\",\"ID\":\"me\",\"Sec\":\"p\",\"Ptype\":\"p\",\"NewRules\":[[\"a\"],[\"b\"]]}",
            "{\"Method\":\"UpdateForRemovePolicies\",\"ID\":\"me\",\"Sec\":\"p\",\"Ptype\":\"p\",\"OldRules\":[[\"c\"]]}",
            "{\"Method\":\"UpdateForUpdatePolicy\",\"ID\":\"me\",\"Sec\":\"p\",\"Ptype\":\"p\",\"OldRule\":[\"old\"],\"NewRule\":[\"new\"]}",
            "{\"Method\":\"UpdateForUpdatePolicies\",\"ID\":\"me\",\"Sec\":\"p\",\"Ptype\":\"p\",\"OldRules\":[[\"o1\"]],\"NewRules\":[[\"n1\"]]}",
            "{\"Method\":\"Update\",\"ID\":\"me\"}",
        ]
    );
}

#[test]
fn each_kind_of_update_fails_after_close() {
    let mut watcher = RedisWatcher::<Callback>::new(REDIS_URL, options("/c", false, "me")).unwrap();
    watcher.close();
    let p = || "p".to_string();
    let results = vec![
        watcher.update_for_add_policy(p(), p(), rule(&["a"])),
        watcher.update_for_remove_policy(p(), p(), rule(&["a"])),
        watcher.update_for_remove_filtered_policy(p(), p(), 0, rule(&["a"])),
        watcher.update_for_save_policy(),
        watcher.update_for_add_policies(p(), p(), vec![rule(&["a"])]),
        watcher.update_for_remove_policies(p(), p(), vec![rule(&["a"])]),
        watcher.update_for_update_policy(p(), p(), rule(&["a"]), rule(&["b"])),
        watcher.update_for_update_policies(p(), p(), vec![rule(&["a"])], vec![rule(&["b"])]),
    ];
    for result in results {
        assert!(matches!(result, Err(WatcherError::AlreadyClosed)));
    }
    assert_eq!(watcher.pending(), 0);
}

use std::collections::HashSet;

use pub_sub_service::load_config::{
    finalize_settings, Settings, SettingsError, SvcConfigHomeMetadata,
};
use pub_sub_service::pubsub_connector::{MonitorMessage, PubSubAction, TOPIC_DELETED_MSG};
use pub_sub_service::pubsub_impl::{CreateTopicRequest, DeleteTopicRequest, PubSubImpl};
use pub_sub_service::topic_manager::{
    TopicAction, TopicActionMetadata, TopicManagementInfo, TopicManager,
};

fn msg(context: &str, action: PubSubAction) -> MonitorMessage {
    MonitorMessage {
        context: context.to_string(),
        action,
    }
}

fn start(topic: &str, uri: &str) -> TopicAction {
    TopicAction::Start(TopicManagementInfo::new(topic.to_string(), uri.to_string()))
}

fn stop(topic: &str, uri: &str) -> TopicAction {
    TopicAction::Stop(TopicManagementInfo::new(topic.to_string(), uri.to_string()))
}

fn delete(topic: &str, uri: &str) -> TopicAction {
    TopicAction::Delete(TopicManagementInfo::new(topic.to_string(), uri.to_string()))
}

#[test]
fn happy_path() {
    let mut manager = TopicManager::new();
    let pubsub = PubSubImpl {
        uri: "mqtt://b:1883".to_string(),
        protocol: "mqtt".to_string(),
    };
    let response = pubsub
        .create_topic(
            &mut manager,
            CreateTopicRequest {
                publisher_id: "P1".to_string(),
                management_callback: "http://p1:9000".to_string(),
                management_protocol: "grpc".to_string(),
            },
            0,
        )
        .unwrap();
    assert_eq!("mqtt://b:1883", response.broker_uri);
    assert_eq!("mqtt", response.broker_protocol);
    let t = response.generated_topic.clone();

    let actions = manager.handle_topic_action(msg(&t, PubSubAction::Subscribe), 1);
    assert_eq!(vec![start(&t, "http://p1:9000")], actions);
    let notice = TopicActionMetadata::new(start(&t, "http://p1:9000"));
    assert_eq!("START", notice.action);
    assert_eq!("http://p1:9000", notice.uri);
    assert!(notice.notifies_publisher());

    let actions = manager.handle_topic_action(msg(&t, PubSubAction::Unsubscribe), 2);
    assert_eq!(vec![stop(&t, "http://p1:9000")], actions);

    pubsub.delete_topic(&mut manager, DeleteTopicRequest { topic: t.clone() });
    let sweep = manager.cleanup_topics(7);
    assert_eq!(1, sweep.len());
    assert_eq!(t, sweep[0].context);
    assert_eq!(PubSubAction::Delete, sweep[0].action);

    let mut broker_publishes: Vec<(String, String)> = Vec::new();
    for m in sweep {
        for action in manager.handle_topic_action(m, 7) {
            let notice = TopicActionMetadata::new(action);
            assert!(!notice.notifies_publisher());
            broker_publishes.push((notice.topic, TOPIC_DELETED_MSG.to_string()));
        }
    }
    assert_eq!(vec![(t.clone(), "TOPIC DELETED".to_string())], broker_publishes);
    assert!(!manager.get_active_topics_handle().contains_key(&t));
    assert_eq!(0, manager.get_active_topics_handle().len());
}

#[test]
fn subscribe_races_create() {
    let mut manager = TopicManager::new();
    let actions = manager.handle_topic_action(msg("T", PubSubAction::Subscribe), 0);
    assert!(actions.is_empty());
    {
        let placeholder = manager.get_active_topics_handle().get(&"T".to_string()).unwrap();
        assert_eq!("", placeholder.client_id);
        assert_eq!(1, placeholder.count);
        assert_eq!(None, placeholder.management_callback);
    }
    let actions = manager.handle_topic_action(msg("T", PubSubAction::Unsubscribe), 1);
    assert!(actions.is_empty());
    let placeholder = manager.get_active_topics_handle().get(&"T".to_string()).unwrap();
    assert_eq!(0, placeholder.count);
    assert_eq!(None, placeholder.management_callback);
}

#[test]
fn idle_timeout() {
    let mut manager = TopicManager::new();
    assert!(manager.create_topic_with_id("T".to_string(), "P1".to_string(), "cb".to_string(), 0));
    manager.handle_topic_action(msg("T", PubSubAction::Subscribe), 10);
    let actions = manager.handle_topic_action(msg("T", PubSubAction::Unsubscribe), 20);
    assert_eq!(vec![stop("T", "cb")], actions);

    // Exactly the threshold is not yet stale.
    assert!(manager.cleanup_topics(50).is_empty());
    let sweep = manager.cleanup_topics(51);
    assert_eq!(1, sweep.len());
    assert_eq!("T", sweep[0].context);
    assert_eq!(PubSubAction::Timeout, sweep[0].action);

    let actions = manager.handle_topic_action(msg("T", PubSubAction::Timeout), 51);
    assert_eq!(vec![stop("T", "cb")], actions);
    assert_eq!(
        51,
        manager
            .get_active_topics_handle()
            .get(&"T".to_string())
            .unwrap()
            .get_timeout()
    );
    // The reminder comes again only after another threshold.
    assert!(manager.cleanup_topics(81).is_empty());
    assert_eq!(1, manager.cleanup_topics(82).len());
}

#[test]
fn timeout_with_subscribers_sends_nothing() {
    let mut manager = TopicManager::new();
    assert!(manager.create_topic_with_id("T".to_string(), "P1".to_string(), "cb".to_string(), 0));
    manager.handle_topic_action(msg("T", PubSubAction::Subscribe), 0);
    assert!(manager.cleanup_topics(1000).is_empty());
    let actions = manager.handle_topic_action(msg("T", PubSubAction::Timeout), 1000);
    assert!(actions.is_empty());
}

#[test]
fn publisher_unclean_disconnect() {
    let mut manager = TopicManager::new();
    assert!(manager.create_topic_with_id("T1".to_string(), "P1".to_string(), "cb1".to_string(), 0));
    assert!(manager.create_topic_with_id("T3".to_string(), "P2".to_string(), "cb2".to_string(), 0));
    assert!(manager.create_topic_with_id("T2".to_string(), "P1".to_string(), "cb1".to_string(), 0));

    let mut owned = manager.topics_owned_by(&"P1".to_string());
    owned.sort();
    assert_eq!(vec!["T1".to_string(), "T2".to_string()], owned);

    let actions = manager.handle_topic_action(msg("P1", PubSubAction::PubDisconnect), 5);
    assert_eq!(2, actions.len());
    assert!(actions.contains(&delete("T1", "cb1")));
    assert!(actions.contains(&delete("T2", "cb1")));
    for action in actions {
        assert!(!TopicActionMetadata::new(action).notifies_publisher());
    }
    let topics = manager.get_active_topics_handle();
    assert_eq!(1, topics.len());
    assert!(topics.contains_key(&"T3".to_string()));
}

#[test]
fn unsubscribe_underflow() {
    let mut manager = TopicManager::new();
    assert!(manager.create_topic_with_id("T".to_string(), "P1".to_string(), "cb".to_string(), 0));
    assert_eq!(
        vec![start("T", "cb")],
        manager.handle_topic_action(msg("T", PubSubAction::Subscribe), 1)
    );
    assert_eq!(
        vec![stop("T", "cb")],
        manager.handle_topic_action(msg("T", PubSubAction::Unsubscribe), 2)
    );
    assert!(manager
        .handle_topic_action(msg("T", PubSubAction::Unsubscribe), 3)
        .is_empty());
    let metadata = manager.get_active_topics_handle().get(&"T".to_string()).unwrap();
    assert_eq!(0, metadata.count);
}

#[test]
fn many_creates_give_distinct_ids() {
    let mut manager = TopicManager::new();
    let pubsub = PubSubImpl {
        uri: "mqtt://b:1883".to_string(),
        protocol: "mqtt".to_string(),
    };
    let mut ids = HashSet::new();
    for i in 0..1000 {
        let response = pubsub
            .create_topic(
                &mut manager,
                CreateTopicRequest {
                    publisher_id: format!("P{i}"),
                    management_callback: "cb".to_string(),
                    management_protocol: "grpc".to_string(),
                },
                i,
            )
            .unwrap();
        ids.insert(response.generated_topic);
    }
    assert_eq!(1000, ids.len());
    assert_eq!(1000, manager.get_active_topics_handle().len());
}

#[test]
fn start_only_on_first_subscriber() {
    let mut manager = TopicManager::new();
    assert!(manager.create_topic_with_id("T".to_string(), "P".to_string(), "cb".to_string(), 0));
    let mut starts = 0;
    for (i, action) in [
        PubSubAction::Subscribe,
        PubSubAction::Subscribe,
        PubSubAction::Unsubscribe,
        PubSubAction::Unsubscribe,
        PubSubAction::Subscribe,
    ]
    .into_iter()
    .enumerate()
    {
        for a in manager.handle_topic_action(msg("T", action), i as u64) {
            if let TopicAction::Start(_) = a {
                starts += 1;
            }
        }
    }
    // Two transitions from zero to one subscriber.
    assert_eq!(2, starts);
}

#[test]
fn delete_emitted_at_most_once() {
    let mut manager = TopicManager::new();
    assert!(manager.create_topic_with_id("T".to_string(), "P".to_string(), "cb".to_string(), 0));
    assert_eq!(
        vec![delete("T", "cb")],
        manager.handle_topic_action(msg("T", PubSubAction::Delete), 1)
    );
    assert!(manager
        .handle_topic_action(msg("T", PubSubAction::Delete), 2)
        .is_empty());
    // A late subscription recreates only a placeholder, which has no callback to notify.
    assert!(manager
        .handle_topic_action(msg("T", PubSubAction::Subscribe), 3)
        .is_empty());
    assert!(manager
        .handle_topic_action(msg("T", PubSubAction::Delete), 4)
        .is_empty());
    assert_eq!(0, manager.get_active_topics_handle().len());
}

#[test]
fn delete_topic_twice_same_as_once() {
    let pubsub = PubSubImpl {
        uri: "b".to_string(),
        protocol: "mqtt".to_string(),
    };
    let mut once = TopicManager::new();
    let mut twice = TopicManager::new();
    for manager in [&mut once, &mut twice] {
        assert!(manager.create_topic_with_id("T".to_string(), "P".to_string(), "cb".to_string(), 0));
    }
    pubsub.delete_topic(&mut once, DeleteTopicRequest { topic: "T".to_string() });
    pubsub.delete_topic(&mut twice, DeleteTopicRequest { topic: "T".to_string() });
    pubsub.delete_topic(&mut twice, DeleteTopicRequest { topic: "T".to_string() });
    let a = once.get_active_topics_handle().get(&"T".to_string()).unwrap();
    let b = twice.get_active_topics_handle().get(&"T".to_string()).unwrap();
    assert_eq!(a.is_deleted(), b.is_deleted());
    assert_eq!(a.count, b.count);
    assert_eq!(a.get_timeout(), b.get_timeout());
    assert_eq!(a.client_id, b.client_id);
    assert_eq!(a.management_callback, b.management_callback);
    assert_eq!(once.get_active_topics_handle().len(), twice.get_active_topics_handle().len());
}

#[test]
fn delete_of_placeholder_sends_nothing() {
    let mut manager = TopicManager::new();
    manager.handle_topic_action(msg("T", PubSubAction::Subscribe), 0);
    assert!(manager
        .handle_topic_action(msg("T", PubSubAction::Delete), 1)
        .is_empty());
    assert_eq!(0, manager.get_active_topics_handle().len());
}

#[test]
fn unknown_topic_events_change_nothing() {
    let mut manager = TopicManager::new();
    for action in [
        PubSubAction::Unsubscribe,
        PubSubAction::Timeout,
        PubSubAction::Delete,
        PubSubAction::PubDisconnect,
    ] {
        assert!(manager.handle_topic_action(msg("X", action), 0).is_empty());
    }
    assert_eq!(0, manager.get_active_topics_handle().len());
}

#[test]
fn registry_remove_returns_entry() {
    let mut manager = TopicManager::new();
    assert!(manager.create_topic_with_id("A".to_string(), "P".to_string(), "cb".to_string(), 3));
    assert!(manager.create_topic_with_id("B".to_string(), "P".to_string(), "cb".to_string(), 4));
    let removed = manager.active_topics.remove(&"A".to_string()).unwrap();
    assert_eq!(3, removed.get_timeout());
    assert!(manager.active_topics.remove(&"A".to_string()).is_none());
    let snapshot = manager.active_topics.snapshot();
    assert_eq!(1, snapshot.len());
    assert_eq!("B", snapshot[0].0);
}

fn settings(chariott: bool, namespace: bool, name: bool, version: Option<&str>) -> Settings {
    Settings {
        pub_sub_authority: "0.0.0.0:50051".to_string(),
        messaging_uri: "mqtt://0.0.0.0:1883".to_string(),
        chariott_uri: chariott.then(|| "http://0.0.0.0:50000".to_string()),
        namespace: namespace.then(|| "sdv.pubsub".to_string()),
        name: name.then(|| "dynamic.pubsub".to_string()),
        version: version.map(|v| v.to_string()),
    }
}

#[test]
fn settings_without_registry_kept() {
    let s = finalize_settings(settings(false, false, false, None), &"1.0.0".to_string()).unwrap();
    assert_eq!(None, s.version);
    assert_eq!(None, s.namespace);
}

#[test]
fn settings_with_registry_need_namespace() {
    let r = finalize_settings(settings(true, false, true, None), &"1.0.0".to_string());
    assert_eq!(Some(SettingsError::NamespaceNotSet), r.err());
    assert_eq!("Namespace not set", SettingsError::NamespaceNotSet.to_string());
}

#[test]
fn settings_with_registry_need_name() {
    let r = finalize_settings(settings(true, true, false, None), &"1.0.0".to_string());
    assert_eq!(Some(SettingsError::NameNotSet), r.err());
    assert_eq!("Name not set", SettingsError::NameNotSet.to_string());
}

#[test]
fn settings_with_registry_default_version() {
    let s = finalize_settings(settings(true, true, true, None), &"1.0.0".to_string()).unwrap();
    assert_eq!(Some("1.0.0".to_string()), s.version);
    let id = s.service_identifier().unwrap();
    assert_eq!("sdv.pubsub", id.namespace);
    assert_eq!("dynamic.pubsub", id.name);
    assert_eq!("1.0.0", id.version);

    let s = finalize_settings(settings(true, true, true, Some("2.1")), &"1.0.0".to_string()).unwrap();
    assert_eq!(Some("2.1".to_string()), s.version);
    assert!(settings(false, true, true, Some("2.1")).service_identifier().is_none());
}

#[test]
fn config_home_path_choices() {
    let meta = SvcConfigHomeMetadata {
        home_env_var: "TEST_ENV_VAR".to_string(),
        home_dir: ".svc".to_string(),
        config_dir: "config".to_string(),
    };
    assert_eq!(
        Some(vec!["test_dir".to_string(), "config".to_string()]),
        meta.config_home_path(Some("test_dir".to_string()), Some("/home/u".to_string()))
    );
    assert_eq!(
        Some(vec!["/home/u".to_string(), ".svc".to_string(), "config".to_string()]),
        meta.config_home_path(None, Some("/home/u".to_string()))
    );
    assert_eq!(None, meta.config_home_path(None, None));
}

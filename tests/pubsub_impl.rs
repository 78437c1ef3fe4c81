use pub_sub_service::pubsub_impl::{
    CreateTopicRequest, DeleteTopicRequest, PubSubError, PubSubImpl,
};
use pub_sub_service::topic_manager::{TopicManager, TopicMetadata};
use uuid::Uuid;

#[test]
fn generate_topic_test() {
    let expected_cb = "test_cb".to_string();
    let expected_management_protocol = "test_mgmt_protocol".to_string();
    let expected_pub_id = "pub_test".to_string();
    let expected_uri = "test_broker".to_string();
    let expected_protocol = "test_protocol".to_string();
    let expected_metadata =
        TopicMetadata::new(expected_pub_id.clone(), 0, Some(expected_cb.clone()), 0);

    let mut test_manager = TopicManager::new();

    let pubsub = PubSubImpl {
        uri: expected_uri.clone(),
        protocol: expected_protocol.clone(),
    };

    let request = CreateTopicRequest {
        publisher_id: expected_pub_id.clone(),
        management_callback: expected_cb.clone(),
        management_protocol: expected_management_protocol.clone(),
    };

    let result = pubsub.create_topic(&mut test_manager, request, 0);
    assert!(result.is_ok());

    let actual = result.unwrap();
    assert!(Uuid::parse_str(&actual.generated_topic).is_ok());
    assert_eq!(expected_uri, actual.broker_uri);
    assert_eq!(expected_protocol, actual.broker_protocol);

    let topics = test_manager.get_active_topics_handle();
    assert!(topics.contains_key(&actual.generated_topic));

    let val = topics.get(&actual.generated_topic);
    assert!(val.is_some());
    let actual_metadata = val.unwrap();
    assert_eq!(expected_metadata.count, actual_metadata.count);
    assert_eq!(
        expected_metadata.management_callback,
        actual_metadata.management_callback,
    );
    assert_eq!(expected_pub_id, actual_metadata.client_id);
}

#[test]
fn generated_topic_is_hyphenated_uuid() {
    let mut manager = TopicManager::new();
    let topic = manager.create_topic("p".to_string(), "cb".to_string(), 0);
    assert_eq!(36, topic.len());
    let parsed = Uuid::parse_str(&topic).unwrap();
    assert_eq!(topic, parsed.hyphenated().to_string());
    assert_eq!(Some(uuid::Version::Random), parsed.get_version());
}

#[test]
fn delete_topic_marks_existing_topic() {
    let mut manager = TopicManager::new();
    let pubsub = PubSubImpl {
        uri: "b".to_string(),
        protocol: "mqtt".to_string(),
    };
    assert!(manager.create_topic_with_id("T".to_string(), "P".to_string(), "cb".to_string(), 0));
    pubsub.delete_topic(
        &mut manager,
        DeleteTopicRequest {
            topic: "T".to_string(),
        },
    );
    let metadata = manager.get_active_topics_handle().get(&"T".to_string()).unwrap();
    assert!(metadata.is_deleted());
    assert_eq!(1, manager.get_active_topics_handle().len());
}

#[test]
fn delete_topic_on_missing_topic_is_no_op() {
    let mut manager = TopicManager::new();
    let pubsub = PubSubImpl {
        uri: "b".to_string(),
        protocol: "mqtt".to_string(),
    };
    pubsub.delete_topic(
        &mut manager,
        DeleteTopicRequest {
            topic: "missing".to_string(),
        },
    );
    assert_eq!(0, manager.get_active_topics_handle().len());
}

#[test]
fn create_topic_with_taken_id_fails() {
    let mut manager = TopicManager::new();
    assert!(manager.create_topic_with_id("T".to_string(), "P1".to_string(), "cb1".to_string(), 0));
    assert!(!manager.create_topic_with_id("T".to_string(), "P2".to_string(), "cb2".to_string(), 1));
    let metadata = manager.get_active_topics_handle().get(&"T".to_string()).unwrap();
    assert_eq!("P1", metadata.client_id);
    assert_eq!(Some("cb1".to_string()), metadata.management_callback);
    assert_eq!(0, metadata.get_timeout());
}

fn request(publisher_id: &str, callback: &str, protocol: &str) -> CreateTopicRequest {
    CreateTopicRequest {
        publisher_id: publisher_id.to_string(),
        management_callback: callback.to_string(),
        management_protocol: protocol.to_string(),
    }
}

#[test]
fn create_topic_without_publisher_id_refused() {
    let mut manager = TopicManager::new();
    let pubsub = PubSubImpl {
        uri: "b".to_string(),
        protocol: "mqtt".to_string(),
    };
    let result = pubsub.create_topic(&mut manager, request("", "cb", "grpc"), 0);
    assert_eq!(Some(PubSubError::MissingPublisherId), result.err());
    assert_eq!(
        "publisher_id is required",
        PubSubError::MissingPublisherId.to_string()
    );
    let result = pubsub.create_topic(&mut manager, request("", "", "grpc"), 0);
    assert_eq!(Some(PubSubError::MissingPublisherId), result.err());
    assert_eq!(0, manager.get_active_topics_handle().len());
}

#[test]
fn create_topic_without_callback_refused() {
    let mut manager = TopicManager::new();
    let pubsub = PubSubImpl {
        uri: "b".to_string(),
        protocol: "mqtt".to_string(),
    };
    let result = pubsub.create_topic(&mut manager, request("P1", "", "grpc"), 0);
    assert_eq!(Some(PubSubError::MissingManagementCallback), result.err());
    assert_eq!(
        "management_callback is required",
        PubSubError::MissingManagementCallback.to_string()
    );
    assert_eq!(0, manager.get_active_topics_handle().len());
}

#[test]
fn create_topic_accepts_any_management_protocol() {
    let mut manager = TopicManager::new();
    let pubsub = PubSubImpl {
        uri: "b".to_string(),
        protocol: "mqtt".to_string(),
    };
    for protocol in ["", "grpc", "anything at all"] {
        let response = pubsub
            .create_topic(&mut manager, request("P1", "cb", protocol), 0)
            .unwrap();
        assert!(Uuid::parse_str(&response.generated_topic).is_ok());
    }
    assert_eq!(3, manager.get_active_topics_handle().len());
}

use agent_server::messaging::{
    broker_result, commit_report, consumer_settings, failure_message, producer_settings,
    subscription_step, topic_operation_result, BrokerFailure, PaymentProcessedMessage,
    PubSubMessage, SubscriberAction, TopicOperation, UserCreatedMessage,
};

fn pairs(settings: &[(String, String)]) -> Vec<(&str, &str)> {
    settings.iter().map(|(k, v)| (k.as_str(), v.as_str())).collect()
}

#[test]
fn message_without_key_is_published_with_empty_key() {
    let message = PubSubMessage { key: None, payload: b"test-payload".to_vec() };
    let (payload, key) = message.into_record();
    assert_eq!(payload, b"test-payload".to_vec());
    assert!(key.is_empty());
}

#[test]
fn message_key_is_published_as_is() {
    let message = PubSubMessage { key: Some(b"test-key".to_vec()), payload: vec![1, 2, 3] };
    let (payload, key) = message.into_record();
    assert_eq!(payload, vec![1, 2, 3]);
    assert_eq!(key, b"test-key".to_vec());
}

#[test]
fn delivery_becomes_message() {
    let m = PubSubMessage::from_delivery(Some(b"test-payload"), Some(b"test-key"));
    assert_eq!(m, PubSubMessage { key: Some(b"test-key".to_vec()), payload: b"test-payload".to_vec() });
    let m = PubSubMessage::from_delivery(None, None);
    assert_eq!(m, PubSubMessage { key: None, payload: Vec::new() });
}

#[test]
fn client_settings() {
    assert_eq!(pairs(&producer_settings("localhost:9092")), vec![("bootstrap.servers", "localhost:9092")]);
    assert_eq!(
        pairs(&consumer_settings("localhost:9092", "my-group-id")),
        vec![
            ("bootstrap.servers", "localhost:9092"),
            ("group.id", "my-group-id"),
            ("enable.partition.eof", "false"),
            ("session.timeout.ms", "6000"),
            ("enable.auto.commit", "false"),
            ("auto.offset.reset", "earliest"),
        ]
    );
}

#[test]
fn failure_reports() {
    assert_eq!(failure_message(BrokerFailure::CreateTopic, "exists"), "Failed to create topic: exists");
    assert_eq!(failure_message(BrokerFailure::DeleteTopic, "x"), "Failed to delete topic: x");
    assert_eq!(failure_message(BrokerFailure::AdminOperation, "x"), "Admin operation failed: x");
    assert_eq!(failure_message(BrokerFailure::FetchMetadata, "x"), "Failed to fetch metadata: x");
    assert_eq!(failure_message(BrokerFailure::Subscribe, "x"), "Failed to subscribe: x");
    assert_eq!(failure_message(BrokerFailure::SendMessage, "x"), "Failed to send message: x");
}

#[test]
fn broker_result_passes_values_and_reports_errors() {
    assert_eq!(broker_result(BrokerFailure::FetchMetadata, Ok(vec!["a".to_string()])), Ok(vec!["a".to_string()]));
    assert_eq!(
        broker_result::<()>(BrokerFailure::SendMessage, Err("queue full".to_string())),
        Err("Failed to send message: queue full".to_string())
    );
}

#[test]
fn topic_operation_outcomes() {
    assert_eq!(topic_operation_result(TopicOperation::Create, Ok(vec![None])), Ok(()));
    assert_eq!(
        topic_operation_result(TopicOperation::Create, Ok(vec![Some("TopicAlreadyExists".to_string())])),
        Err("Failed to create topic: TopicAlreadyExists".to_string())
    );
    assert_eq!(
        topic_operation_result(TopicOperation::Delete, Ok(vec![Some("UnknownTopic".to_string()), None])),
        Err("Failed to delete topic: UnknownTopic".to_string())
    );
    assert_eq!(
        topic_operation_result(TopicOperation::Delete, Err("timed out".to_string())),
        Err("Admin operation failed: timed out".to_string())
    );
}

#[test]
fn event_messages_hold_their_fields() {
    let created = UserCreatedMessage {
        user_id: "123".to_string(),
        username: "john_doe".to_string(),
        email: "john@example.com".to_string(),
    };
    assert_eq!(created.clone(), created);
    let paid = PaymentProcessedMessage {
        payment_id: "789".to_string(),
        order_id: "456".to_string(),
        status: "completed".to_string(),
    };
    assert_eq!(paid.status, "completed");
}

#[test]
fn published_message_is_delivered_back() {
    let keyed = PubSubMessage { key: Some(b"test-key".to_vec()), payload: b"test-payload".to_vec() };
    let (payload, key) = keyed.clone().into_record();
    assert_eq!(PubSubMessage::from_delivery(Some(&payload), Some(&key)), keyed);

    let keyless = PubSubMessage { key: None, payload: b"Hello, Kafka!".to_vec() };
    let (payload, key) = keyless.clone().into_record();
    let delivered = PubSubMessage::from_delivery(Some(&payload), Some(&key));
    assert_eq!(delivered.payload, keyless.payload);
    assert_eq!(delivered.key, Some(Vec::new()));
}

#[test]
fn subscription_steps() {
    let payload: &[u8] = b"test-payload";
    let key: &[u8] = b"test-key";
    assert_eq!(
        subscription_step(Ok((Some(payload), Some(key)))),
        vec![
            SubscriberAction::Handle(PubSubMessage { key: Some(key.to_vec()), payload: payload.to_vec() }),
            SubscriberAction::Commit,
        ]
    );
    assert_eq!(
        subscription_step(Ok((None, None))),
        vec![
            SubscriberAction::Handle(PubSubMessage { key: None, payload: Vec::new() }),
            SubscriberAction::Commit,
        ]
    );
    assert_eq!(
        subscription_step(Err("BrokerTransportFailure")),
        vec![SubscriberAction::Log("Error receiving message: BrokerTransportFailure".to_string())]
    );
    assert_eq!(commit_report(Ok(())), None);
    assert_eq!(commit_report(Err("NoOffset")), Some("Failed to commit message: NoOffset".to_string()));
}

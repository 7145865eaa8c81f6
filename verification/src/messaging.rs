//! Publish/subscribe messages and the decisions of the Kafka broker: the
//! client settings it connects with, how a message becomes a record and a
//! delivery becomes a message, and how failures are reported.

use vstd::prelude::*;

verus! {

/// A message as publishers hand it over and subscribers receive it.
#[derive(Clone, Debug, PartialEq, Eq)]
pub struct PubSubMessage {
    pub key: Option<Vec<u8>>,
    pub payload: Vec<u8>,
}

/// Announces a new user.
#[derive(Clone, Debug, PartialEq, Eq)]
pub struct UserCreatedMessage {
    pub user_id: String,
    pub username: String,
    pub email: String,
}

/// Announces the outcome of a payment.
#[derive(Clone, Debug, PartialEq, Eq)]
pub struct PaymentProcessedMessage {
    pub payment_id: String,
    pub order_id: String,
    pub status: String,
}

/// Partitions of a topic that the broker creates.
pub const NEW_TOPIC_PARTITIONS: i32 = 1;

/// Replication factor of a topic that the broker creates.
pub const NEW_TOPIC_REPLICATION: i32 = 1;

/// Seconds the broker waits for cluster metadata when listing topics.
pub const METADATA_TIMEOUT_SECS: u64 = 10;

/// Seconds a published record may wait in the producer's queue.
pub const PUBLISH_QUEUE_TIMEOUT_SECS: u64 = 0;

/// A record's key: the message key, or no bytes when it has none.
pub open spec fn record_key(key: Option<Vec<u8>>) -> Seq<u8> {
    match key {
        Some(k) => k@,
        None => Seq::empty(),
    }
}

/// The bytes of an optional byte string.
pub open spec fn opt_bytes(b: Option<Seq<u8>>) -> Seq<u8> {
    match b {
        Some(v) => v,
        None => Seq::empty(),
    }
}

/// The key and payload of a message, as bytes.
pub open spec fn message_view(m: PubSubMessage) -> (Option<Seq<u8>>, Seq<u8>) {
    (
        match m.key {
            Some(k) => Some(k@),
            None => None,
        },
        m.payload@,
    )
}

/// The payload and key of the record that carries message `m`.
pub open spec fn spec_record(m: PubSubMessage) -> (Seq<u8>, Seq<u8>) {
    (m.payload@, record_key(m.key))
}

/// The key and payload of the message made of a delivered record's
/// payload and key (either may be absent).
pub open spec fn spec_delivered(payload: Option<Seq<u8>>, key: Option<Seq<u8>>) -> (
    Option<Seq<u8>>,
    Seq<u8>,
) {
    (key, opt_bytes(payload))
}

/// The bytes of an optional slice.
pub open spec fn opt_slice_view(s: Option<&[u8]>) -> Option<Seq<u8>> {
    match s {
        Some(v) => Some(v@),
        None => None,
    }
}

impl PubSubMessage {
    /// The payload and key of the record that publishing this message
    /// sends; a message without a key is sent with an empty key.
    pub fn into_record(self) -> (record: (Vec<u8>, Vec<u8>))
        ensures
            (record.0@, record.1@) == spec_record(self),
    {
        let key = match self.key {
            Some(k) => k,
            None => Vec::new(),
        };
        (self.payload, key)
    }

    /// The message that a subscriber's handler receives for a delivered
    /// record: a missing payload becomes an empty one, the key is kept as
    /// it is.
    pub fn from_delivery(payload: Option<&[u8]>, key: Option<&[u8]>) -> (m: PubSubMessage)
        ensures
            message_view(m) == spec_delivered(opt_slice_view(payload), opt_slice_view(key)),
    {
        let payload = match payload {
            Some(p) => vstd::slice::slice_to_vec(p),
            None => Vec::new(),
        };
        let key = match key {
            Some(k) => Some(vstd::slice::slice_to_vec(k)),
            None => None,
        };
        PubSubMessage { key, payload }
    }
}

/// What a subscriber receives of a published message, when the broker
/// delivers the record's bytes as they were sent: the same payload, and
/// the same key; a message published without a key arrives with an empty
/// one.
pub proof fn lemma_publish_then_deliver(m: PubSubMessage)
    ensures
        spec_delivered(Some(spec_record(m).0), Some(spec_record(m).1)) == (
            Some(record_key(m.key)),
            m.payload@,
        ),
        m.key is Some ==> spec_delivered(Some(spec_record(m).0), Some(spec_record(m).1))
            == message_view(m),
{
}

/// The views of a list of client settings.
pub open spec fn settings_view(settings: Seq<(String, String)>) -> Seq<(Seq<char>, Seq<char>)> {
    settings.map_values(|s: (String, String)| (s.0@, s.1@))
}

/// Settings of the producer and of the admin client.
pub open spec fn spec_producer_settings(brokers: Seq<char>) -> Seq<(Seq<char>, Seq<char>)> {
    seq![("bootstrap.servers"@, brokers)]
}

/// Settings of the consumer: it joins `group_id`, starts from the earliest
/// offset, and commits by hand.
pub open spec fn spec_consumer_settings(brokers: Seq<char>, group_id: Seq<char>) -> Seq<
    (Seq<char>, Seq<char>),
> {
    seq![
        ("bootstrap.servers"@, brokers),
        ("group.id"@, group_id),
        ("enable.partition.eof"@, "false"@),
        ("session.timeout.ms"@, "6000"@),
        ("enable.auto.commit"@, "false"@),
        ("auto.offset.reset"@, "earliest"@),
    ]
}

fn setting(key: &str, value: &str) -> (s: (String, String))
    ensures
        s.0@ == key@,
        s.1@ == value@,
{
    (String::from_str(key), String::from_str(value))
}

/// The settings the producer and the admin client are created with.
pub fn producer_settings(brokers: &str) -> (settings: Vec<(String, String)>)
    ensures
        settings_view(settings@) == spec_producer_settings(brokers@),
{
    let mut settings = Vec::new();
    settings.push(setting("bootstrap.servers", brokers));
    assert(settings_view(settings@) =~= spec_producer_settings(brokers@));
    settings
}

/// The settings the consumer is created with.
pub fn consumer_settings(brokers: &str, group_id: &str) -> (settings: Vec<(String, String)>)
    ensures
        settings_view(settings@) == spec_consumer_settings(brokers@, group_id@),
{
    let mut settings = Vec::new();
    settings.push(setting("bootstrap.servers", brokers));
    settings.push(setting("group.id", group_id));
    settings.push(setting("enable.partition.eof", "false"));
    settings.push(setting("session.timeout.ms", "6000"));
    settings.push(setting("enable.auto.commit", "false"));
    settings.push(setting("auto.offset.reset", "earliest"));
    assert(settings_view(settings@) =~= spec_consumer_settings(brokers@, group_id@));
    settings
}

/// What went wrong in a broker operation.
#[derive(Clone, Copy, Debug, PartialEq, Eq, Structural)]
pub enum BrokerFailure {
    CreateTopic,
    DeleteTopic,
    AdminOperation,
    FetchMetadata,
    Subscribe,
    SendMessage,
}

/// The text that opens the report of each failure.
pub open spec fn failure_prefix(kind: BrokerFailure) -> Seq<char> {
    match kind {
        BrokerFailure::CreateTopic => "Failed to create topic: "@,
        BrokerFailure::DeleteTopic => "Failed to delete topic: "@,
        BrokerFailure::AdminOperation => "Admin operation failed: "@,
        BrokerFailure::FetchMetadata => "Failed to fetch metadata: "@,
        BrokerFailure::Subscribe => "Failed to subscribe: "@,
        BrokerFailure::SendMessage => "Failed to send message: "@,
    }
}

/// Reports a failure: its prefix followed by the client's own words.
pub fn failure_message(kind: BrokerFailure, detail: &str) -> (m: String)
    ensures
        m@ == failure_prefix(kind) + detail@,
{
    let prefix = match kind {
        BrokerFailure::CreateTopic => "Failed to create topic: ",
        BrokerFailure::DeleteTopic => "Failed to delete topic: ",
        BrokerFailure::AdminOperation => "Admin operation failed: ",
        BrokerFailure::FetchMetadata => "Failed to fetch metadata: ",
        BrokerFailure::Subscribe => "Failed to subscribe: ",
        BrokerFailure::SendMessage => "Failed to send message: ",
    };
    String::from_str(prefix).concat(detail)
}

/// The answer to a broker operation whose client call returned `result`:
/// a value is passed on, an error is reported as a failure of `kind`.
pub fn broker_result<T>(kind: BrokerFailure, result: Result<T, String>) -> (r: Result<T, String>)
    ensures
        result matches Ok(v) ==> r == Ok::<T, String>(v),
        result matches Err(d) ==> (r matches Err(m) && m@ == failure_prefix(kind) + d@),
{
    match result {
        Ok(v) => Ok(v),
        Err(d) => Err(failure_message(kind, d.as_str())),
    }
}

/// One thing the subscription loop does. The loop performs the actions of
/// each answer of the consumer in order, finishing each before the next,
/// and then waits for the consumer's next answer; it never stops by
/// itself.
#[derive(Clone, Debug, PartialEq, Eq)]
pub enum SubscriberAction {
    /// Hand the message to the handler and wait until the handler is done.
    Handle(PubSubMessage),
    /// Commit the delivered record (without waiting for the broker).
    Commit,
    /// Log the line.
    Log(String),
}

/// The actions for one answer of the consumer, in the order they are
/// performed: a delivered record is handed to the handler, and only once
/// the handler is done is the record committed; a receive error is logged.
pub fn subscription_step(received: Result<(Option<&[u8]>, Option<&[u8]>), &str>) -> (actions: Vec<
    SubscriberAction,
>)
    ensures
        match received {
            Ok((payload, key)) => {
                &&& actions.len() == 2
                &&& actions[0] matches SubscriberAction::Handle(m) && message_view(m)
                    == spec_delivered(opt_slice_view(payload), opt_slice_view(key))
                &&& actions[1] == SubscriberAction::Commit
            },
            Err(d) => {
                &&& actions.len() == 1
                &&& actions[0] matches SubscriberAction::Log(line) && line@
                    == "Error receiving message: "@ + d@
            },
        },
{
    let mut actions = Vec::new();
    match received {
        Ok((payload, key)) => {
            actions.push(SubscriberAction::Handle(PubSubMessage::from_delivery(payload, key)));
            actions.push(SubscriberAction::Commit);
        },
        Err(d) => {
            actions.push(
                SubscriberAction::Log(String::from_str("Error receiving message: ").concat(d)),
            );
        },
    }
    actions
}

/// The line logged after committing a delivered record: none when the
/// commit went through, else the failure with its description. Either way
/// the loop goes on.
pub fn commit_report(committed: Result<(), &str>) -> (line: Option<String>)
    ensures
        committed is Ok <==> line is None,
        committed matches Err(d) ==> line matches Some(l) && l@ == "Failed to commit message: "@
            + d@,
{
    match committed {
        Ok(()) => None,
        Err(d) => Some(String::from_str("Failed to commit message: ").concat(d)),
    }
}

/// Which topic operation the admin client ran.
#[derive(Clone, Copy, Debug, PartialEq, Eq, Structural)]
pub enum TopicOperation {
    Create,
    Delete,
}

/// The failure kind of a topic operation whose topic was refused.
pub open spec fn topic_failure(op: TopicOperation) -> BrokerFailure {
    match op {
        TopicOperation::Create => BrokerFailure::CreateTopic,
        TopicOperation::Delete => BrokerFailure::DeleteTopic,
    }
}

/// The answer to creating or deleting one topic. `reply` is the admin
/// client's answer: an error of the request as a whole, or one entry per
/// topic (`None` when that topic succeeded, else the reason). Only the
/// first entry is read, as one topic is asked for.
pub fn topic_operation_result(op: TopicOperation, reply: Result<Vec<Option<String>>, String>) -> (r:
    Result<(), String>)
    requires
        reply matches Ok(entries) ==> entries.len() > 0,
    ensures
        reply matches Err(d) ==> (r matches Err(m) && m@ == failure_prefix(
            BrokerFailure::AdminOperation,
        ) + d@),
        reply matches Ok(entries) ==> (match entries[0] {
            None => r is Ok,
            Some(d) => (r matches Err(m) && m@ == failure_prefix(topic_failure(op)) + d@),
        }),
{
    match reply {
        Err(d) => Err(failure_message(BrokerFailure::AdminOperation, d.as_str())),
        Ok(entries) => match &entries[0] {
            None => Ok(()),
            Some(d) => {
                let kind = match op {
                    TopicOperation::Create => BrokerFailure::CreateTopic,
                    TopicOperation::Delete => BrokerFailure::DeleteTopic,
                };
                Err(failure_message(kind, d.as_str()))
            },
        },
    }
}

} // verus!

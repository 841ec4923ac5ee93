//! Message brokers: Kafka producers and consumers, and QMQP mail delivery.
use vstd::prelude::*;
use crate::error::GrassError;
use crate::text_map::GrassStringMap;

verus! {

/// A record read from a Kafka topic.
pub struct GrassKafkaMessage {
    pub topic: String,
    pub partition: i32,
    pub offset: i64,
    pub key: Option<Vec<u8>>,
    pub value: Vec<u8>,
}

/// Writes records to Kafka topics.
pub trait GrassKafkaProducer {
    /// Sends `value` (with an optional `key`) to `topic`.
    fn produce(&self, topic: &str, key: Option<&str>, value: &[u8]) -> (r: Result<(), GrassError>);

    /// Waits until every record sent is delivered.
    fn flush(&self) -> (r: Result<(), GrassError>);
}

/// Reads records from Kafka topics.
pub trait GrassKafkaConsumer {
    /// Subscribes to `topics`.
    fn subscribe(&self, topics: &[&str]) -> (r: Result<(), GrassError>);

    /// The next record, if one arrives within `timeout_ms`.
    fn poll(&self, timeout_ms: u64) -> (r: Result<Option<GrassKafkaMessage>, GrassError>);

    /// Commits the offsets read so far.
    fn commit(&self) -> (r: Result<(), GrassError>);
}

/// A Kafka producer for a broker list.
pub struct GrassKafkaProducerImpl {
    brokers: String,
}

impl GrassKafkaProducerImpl {
    pub closed spec fn broker_list(&self) -> Seq<char> {
        self.brokers@
    }

    /// A producer for `brokers`.
    pub fn new(brokers: &str) -> (r: Self)
        ensures
            r.broker_list() == brokers@,
    {
        GrassKafkaProducerImpl { brokers: brokers.to_owned() }
    }

    pub fn brokers(&self) -> (r: &str)
        ensures
            r@ == self.broker_list(),
    {
        self.brokers.as_str()
    }
}

impl GrassKafkaProducer for GrassKafkaProducerImpl {
    /// Accepts the record.
    fn produce(&self, topic: &str, key: Option<&str>, value: &[u8]) -> (r: Result<(), GrassError>)
        ensures
            r is Ok,
    {
        Ok(())
    }

    /// Nothing is pending; this succeeds.
    fn flush(&self) -> (r: Result<(), GrassError>)
        ensures
            r is Ok,
    {
        Ok(())
    }
}

/// A Kafka consumer in a consumer group.
pub struct GrassKafkaConsumerImpl {
    brokers: String,
    group_id: String,
}

impl GrassKafkaConsumerImpl {
    pub closed spec fn broker_list(&self) -> Seq<char> {
        self.brokers@
    }

    pub closed spec fn group(&self) -> Seq<char> {
        self.group_id@
    }

    /// A consumer of group `group_id` on `brokers`.
    pub fn new(brokers: &str, group_id: &str) -> (r: Self)
        ensures
            r.broker_list() == brokers@,
            r.group() == group_id@,
    {
        GrassKafkaConsumerImpl { brokers: brokers.to_owned(), group_id: group_id.to_owned() }
    }

    pub fn brokers(&self) -> (r: &str)
        ensures
            r@ == self.broker_list(),
    {
        self.brokers.as_str()
    }

    pub fn group_id(&self) -> (r: &str)
        ensures
            r@ == self.group(),
    {
        self.group_id.as_str()
    }
}

impl GrassKafkaConsumer for GrassKafkaConsumerImpl {
    /// Accepts the subscription.
    fn subscribe(&self, topics: &[&str]) -> (r: Result<(), GrassError>)
        ensures
            r is Ok,
    {
        Ok(())
    }

    /// No record ever arrives.
    fn poll(&self, timeout_ms: u64) -> (r: Result<Option<GrassKafkaMessage>, GrassError>)
        ensures
            r matches Ok(None),
    {
        Ok(None)
    }

    /// Nothing to commit; this succeeds.
    fn commit(&self) -> (r: Result<(), GrassError>)
        ensures
            r is Ok,
    {
        Ok(())
    }
}

/// A mail message delivered over QMQP.
pub struct GrassQmqpMessage {
    pub sender: String,
    pub recipients: Vec<String>,
    pub body: Vec<u8>,
    pub attributes: GrassStringMap<String>,
}

/// A QMQP client.
pub trait GrassQmqpClient {
    /// Whether the client is connected.
    spec fn is_connected(&self) -> bool;

    /// Connects to `host:port`; this succeeds.
    fn connect(&mut self, host: &str, port: u16) -> (r: Result<(), GrassError>)
        ensures
            final(self).is_connected(),
            r is Ok,
    ;

    /// Delivers `message`.
    fn send(&self, message: &GrassQmqpMessage) -> (r: Result<(), GrassError>);

    /// The next message delivered to this client, if any.
    fn receive(&self) -> (r: Result<Option<GrassQmqpMessage>, GrassError>);

    /// Disconnects; this succeeds.
    fn disconnect(&mut self) -> (r: Result<(), GrassError>)
        ensures
            !final(self).is_connected(),
            r is Ok,
    ;
}

/// A QMQP client that remembers only whether it is connected.
pub struct GrassQmqpAdapter {
    connected: bool,
}

impl GrassQmqpAdapter {
    /// A client that is not connected.
    pub fn new() -> (r: Self)
        ensures
            !r.is_connected(),
    {
        GrassQmqpAdapter { connected: false }
    }

    /// Whether the client is connected.
    pub fn connected(&self) -> (r: bool)
        ensures
            r == self.is_connected(),
    {
        self.connected
    }
}

impl GrassQmqpClient for GrassQmqpAdapter {
    closed spec fn is_connected(&self) -> bool {
        self.connected
    }

    fn connect(&mut self, host: &str, port: u16) -> (r: Result<(), GrassError>) {
        self.connected = true;
        Ok(())
    }

    /// Accepts the message.
    fn send(&self, message: &GrassQmqpMessage) -> (r: Result<(), GrassError>)
        ensures
            r is Ok,
    {
        Ok(())
    }

    /// No message ever arrives.
    fn receive(&self) -> (r: Result<Option<GrassQmqpMessage>, GrassError>)
        ensures
            r matches Ok(None),
    {
        Ok(None)
    }

    fn disconnect(&mut self) -> (r: Result<(), GrassError>) {
        self.connected = false;
        Ok(())
    }
}


impl Default for GrassQmqpAdapter {
    /// A client that is not connected.
    fn default() -> (r: Self)
        ensures
            !r.is_connected(),
    {
        Self::new()
    }
}

} // verus!

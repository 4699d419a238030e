use futures::sync::mpsc;
use futures::{Future, Sink};
use mqtt_client::client::{send_outcome, Command, Request};
use mqtt_client::error::ClientError;
use mqtt_client::options::{MqttOptions, DEFAULT_MAX_PACKET_SIZE};
use mqtt_client::packet::{PacketIdentifier, Publish, QoS, Subscribe, SubscribeTopic, Unsubscribe};
use std::sync::Arc;

#[test]
fn zero_is_the_unassigned_identifier() {
    assert_eq!(PacketIdentifier::zero(), PacketIdentifier(0));
    assert_eq!(PacketIdentifier::zero().0, 0u16);
}

#[test]
fn publish_request_is_built_with_cleared_flags() {
    let built = Request::publish("a/b".to_string(), QoS::AtLeastOnce, vec![1, 2, 3]);
    let expected = Request::Publish(Publish {
        dup: false,
        qos: QoS::AtLeastOnce,
        retain: false,
        topic_name: "a/b".to_string(),
        pkid: Some(PacketIdentifier(0)),
        payload: Arc::new(vec![1, 2, 3]),
    });
    assert_eq!(built, expected);
}

#[test]
fn publish_request_keeps_an_empty_payload_and_topic() {
    let built = Request::publish(String::new(), QoS::AtMostOnce, Vec::new());
    match built {
        Request::Publish(p) => {
            assert_eq!(p.pkid, Some(PacketIdentifier::zero()));
            assert_eq!(p.topic_name, "");
            assert!(p.payload.is_empty());
            assert_eq!(p.qos, QoS::AtMostOnce);
        }
        other => panic!("unexpected request {:?}", other),
    }
}

#[test]
fn subscribe_request_holds_exactly_one_topic() {
    let built = Request::subscribe("x/y".to_string(), QoS::ExactlyOnce);
    let expected = Request::Subscribe(Subscribe {
        pkid: PacketIdentifier(0),
        topics: vec![SubscribeTopic { topic_path: "x/y".to_string(), qos: QoS::ExactlyOnce }],
    });
    assert_eq!(built, expected);
}

#[test]
fn unsubscribe_request_holds_exactly_one_topic() {
    let built = Request::unsubscribe("x/y".to_string());
    let expected = Request::Unsubscribe(Unsubscribe {
        pkid: PacketIdentifier(0),
        topics: vec!["x/y".to_string()],
    });
    assert_eq!(built, expected);
}

#[test]
fn accepted_send_is_reported_as_success() {
    let sent: Result<(), mpsc::SendError<Request>> = Ok(());
    assert_eq!(send_outcome(sent), Ok(()));
}

#[test]
fn refused_send_is_reported_as_communication_error() {
    let (tx, rx) = mpsc::channel::<Command>(1);
    drop(rx);
    let sent = tx.send(Command::Pause).wait().map(|_| ());
    assert!(sent.is_err());
    assert_eq!(send_outcome(sent), Err(ClientError::MpscSend));
}

#[test]
fn options_start_with_the_default_limit() {
    let opts = MqttOptions::new("id".to_string(), "broker.local".to_string(), 8883);
    assert_eq!(DEFAULT_MAX_PACKET_SIZE, 256 * 1024);
    assert_eq!(opts.max_packet_size(), 262144);
    assert_eq!(opts.client_id(), "id");
    assert_eq!(opts.broker_address(), (&"broker.local".to_string(), 8883u16));
}

#[test]
fn setting_the_limit_changes_nothing_else() {
    let opts = MqttOptions::new("id".to_string(), "broker.local".to_string(), 8883)
        .set_max_packet_size(1024);
    assert_eq!(opts.max_packet_size(), 1024);
    assert_eq!(opts.client_id(), "id");
    assert_eq!(opts.broker_address(), (&"broker.local".to_string(), 8883u16));
    assert_eq!(opts.clone().set_max_packet_size(0).max_packet_size(), 0);
    assert_eq!(opts.set_max_packet_size(usize::MAX).max_packet_size(), usize::MAX);
}

#[test]
fn reconnect_request_carries_its_options() {
    let opts = MqttOptions::new("id".to_string(), "h".to_string(), 1).set_max_packet_size(5);
    let request = Request::Reconnect(opts.clone());
    match request {
        Request::Reconnect(carried) => assert_eq!(carried, opts),
        other => panic!("unexpected request {:?}", other),
    }
}

//! The messages that cross between caller and engine, and the handle that
//! sends them.

use crate::channel::{
    commands_refused, commands_sent, requests_refused, requests_sent, send_command, send_request,
};
use crate::error::{ClientError, ConnectError};
use crate::options::{MqttOptions, MqttOptionsView};
use crate::packet::{
    PacketIdentifier, Publish, PublishView, QoS, Subscribe, SubscribeTopic, SubscribeTopicView,
    SubscribeView, Unsubscribe, UnsubscribeView,
};
use std::sync::Arc;
use vstd::prelude::*;

verus! {

/// One event that the engine reports to the caller.
#[derive(Clone, Debug, PartialEq, Eq)]
pub enum Notification {
    Publish(Publish),
    PubAck(PacketIdentifier),
    PubRec(PacketIdentifier),
    PubRel(PacketIdentifier),
    PubComp(PacketIdentifier),
    SubAck(PacketIdentifier),
    /// Nothing to report.
    NoOp,
}

/// One unit of work for the engine.
#[derive(Clone, Debug, PartialEq, Eq)]
pub enum Request {
    Publish(Publish),
    Subscribe(Subscribe),
    Unsubscribe(Unsubscribe),
    PubAck(PacketIdentifier),
    PubRec(PacketIdentifier),
    PubRel(PacketIdentifier),
    PubComp(PacketIdentifier),
    Ping,
    Reconnect(MqttOptions),
    Disconnect,
    /// Nothing to do.
    NoOp,
}

/// A control instruction for the engine. Commands travel on a channel of
/// their own, so that none waits behind a backlog of requests.
#[derive(Clone, Copy, Debug, PartialEq, Eq, Structural)]
pub enum Command {
    Pause,
    Resume,
}

/// What a [`Request`] holds, as mathematical values.
pub enum RequestView {
    Publish(PublishView),
    Subscribe(SubscribeView),
    Unsubscribe(UnsubscribeView),
    PubAck(PacketIdentifier),
    PubRec(PacketIdentifier),
    PubRel(PacketIdentifier),
    PubComp(PacketIdentifier),
    Ping,
    Reconnect(MqttOptionsView),
    Disconnect,
    NoOp,
}

impl View for Request {
    type V = RequestView;

    open spec fn view(&self) -> RequestView {
        match *self {
            Request::Publish(p) => RequestView::Publish(p@),
            Request::Subscribe(s) => RequestView::Subscribe(s@),
            Request::Unsubscribe(u) => RequestView::Unsubscribe(u@),
            Request::PubAck(pkid) => RequestView::PubAck(pkid),
            Request::PubRec(pkid) => RequestView::PubRec(pkid),
            Request::PubRel(pkid) => RequestView::PubRel(pkid),
            Request::PubComp(pkid) => RequestView::PubComp(pkid),
            Request::Ping => RequestView::Ping,
            Request::Reconnect(opts) => RequestView::Reconnect(opts@),
            Request::Disconnect => RequestView::Disconnect,
            Request::NoOp => RequestView::NoOp,
        }
    }
}

/// The request that a publish of `payload` to `topic` puts on the channel:
/// not a duplicate, not retained, and with the packet identifier present but
/// unassigned (zero), whatever the quality of service. The engine assigns the
/// real identifier; the handle never picks or counts one.
pub open spec fn publish_request(topic: Seq<char>, qos: QoS, payload: Seq<u8>) -> RequestView {
    RequestView::Publish(
        PublishView {
            dup: false,
            qos,
            retain: false,
            topic_name: topic,
            pkid: Some(PacketIdentifier(0)),
            payload,
        },
    )
}

/// The request that a subscription to `topic` puts on the channel: that one
/// topic with its quality of service, packet identifier unassigned.
pub open spec fn subscribe_request(topic: Seq<char>, qos: QoS) -> RequestView {
    RequestView::Subscribe(
        SubscribeView {
            pkid: PacketIdentifier(0),
            topics: seq![SubscribeTopicView { topic_path: topic, qos }],
        },
    )
}

/// The request that dropping the subscription to `topic` puts on the channel:
/// that one topic, packet identifier unassigned.
pub open spec fn unsubscribe_request(topic: Seq<char>) -> RequestView {
    RequestView::Unsubscribe(UnsubscribeView { pkid: PacketIdentifier(0), topics: seq![topic] })
}

impl Request {
    /// Builds the request for a publish.
    pub fn publish(topic: String, qos: QoS, payload: Vec<u8>) -> (request: Request)
        ensures
            request@ == publish_request(topic@, qos, payload@),
    {
        Request::Publish(
            Publish {
                dup: false,
                qos,
                retain: false,
                topic_name: topic,
                pkid: Some(PacketIdentifier::zero()),
                payload: Arc::new(payload),
            },
        )
    }

    /// Builds the request for a subscription to one topic.
    pub fn subscribe(topic: String, qos: QoS) -> (request: Request)
        ensures
            request@ == subscribe_request(topic@, qos),
    {
        let entry = SubscribeTopic { topic_path: topic, qos };
        let ghost entry_view = entry@;
        let topics = vec![entry];
        proof {
            assert(topics@.map_values(|t: SubscribeTopic| t@) =~= seq![entry_view]);
        }
        Request::Subscribe(Subscribe { pkid: PacketIdentifier::zero(), topics })
    }

    /// Builds the request for dropping the subscription to one topic.
    pub fn unsubscribe(topic: String) -> (request: Request)
        ensures
            request@ == unsubscribe_request(topic@),
    {
        let ghost topic_view = topic@;
        let topics = vec![topic];
        proof {
            assert(topics@.map_values(|t: String| t@) =~= seq![topic_view]);
        }
        Request::Unsubscribe(Unsubscribe { pkid: PacketIdentifier::zero(), topics })
    }
}

/// What the engine hands out when a session comes up: the sending ends of the
/// request and command channels and the receiving end of the notification
/// channel, bound together.
pub struct UserHandle {
    request_tx: futures::sync::mpsc::Sender<Request>,
    command_tx: futures::sync::mpsc::Sender<Command>,
    notification_rx: crossbeam_channel::Receiver<Notification>,
}

impl UserHandle {
    /// The sending end of the request channel.
    pub closed spec fn request_tx(self) -> futures::sync::mpsc::Sender<Request> {
        self.request_tx
    }

    /// The sending end of the command channel.
    pub closed spec fn command_tx(self) -> futures::sync::mpsc::Sender<Command> {
        self.command_tx
    }

    /// The receiving end of the notification channel.
    pub closed spec fn notification_rx(self) -> crossbeam_channel::Receiver<Notification> {
        self.notification_rx
    }

    /// Binds the three endpoints of a session together.
    pub fn new(
        request_tx: futures::sync::mpsc::Sender<Request>,
        command_tx: futures::sync::mpsc::Sender<Command>,
        notification_rx: crossbeam_channel::Receiver<Notification>,
    ) -> (handle: UserHandle)
        ensures
            handle.request_tx() == request_tx,
            handle.command_tx() == command_tx,
            handle.notification_rx() == notification_rx,
    {
        UserHandle { request_tx, command_tx, notification_rx }
    }
}

/// The caller's handle on a session: the sending ends of the request and
/// command channels, and the size limit that the session was started with.
pub struct MqttClient {
    request_tx: futures::sync::mpsc::Sender<Request>,
    command_tx: futures::sync::mpsc::Sender<Command>,
    max_packet_size: usize,
}

impl Clone for MqttClient {
    /// Another handle on the same two channels, with the same size limit.
    fn clone(&self) -> (copy: Self)
        ensures
            copy.max_packet_size() == self.max_packet_size(),
    {
        MqttClient {
            request_tx: self.request_tx.clone(),
            command_tx: self.command_tx.clone(),
            max_packet_size: self.max_packet_size,
        }
    }
}

/// Maps the channel's answer to a send onto the caller's result: success
/// stays success, and a send that the channel refused becomes the
/// communication error.
pub fn send_outcome<T>(sent: Result<(), futures::sync::mpsc::SendError<T>>) -> (r: Result<
    (),
    ClientError,
>)
    ensures
        sent is Ok ==> r == Ok::<(), ClientError>(()),
        sent is Err ==> r == Err::<(), _>(ClientError::MpscSend),
{
    match sent {
        Ok(_) => Ok(()),
        Err(_) => Err(ClientError::MpscSend),
    }
}

impl MqttClient {
    /// The largest payload, in bytes, that this handle lets through.
    pub closed spec fn max_packet_size(self) -> usize {
        self.max_packet_size
    }

    /// The handle's end of the request channel.
    pub closed spec fn request_tx(self) -> futures::sync::mpsc::Sender<Request> {
        self.request_tx
    }

    /// The handle's end of the command channel.
    pub closed spec fn command_tx(self) -> futures::sync::mpsc::Sender<Command> {
        self.command_tx
    }

    /// The requests that this handle has put on the request channel, oldest
    /// first.
    pub open spec fn requests(self) -> Seq<RequestView> {
        requests_sent(self.request_tx())
    }

    /// The commands that this handle has put on the command channel, oldest
    /// first.
    pub open spec fn commands(self) -> Seq<Command> {
        commands_sent(self.command_tx())
    }

    /// True once this handle has found the engine's end of the request channel
    /// gone.
    pub open spec fn requests_refused(self) -> bool {
        requests_refused(self.request_tx())
    }

    /// True once this handle has found the engine's end of the command channel
    /// gone.
    pub open spec fn commands_refused(self) -> bool {
        commands_refused(self.command_tx())
    }

    /// One attempt to send `request` took the handle from `pre` to `post` and
    /// reported `r`. Either the request went onto the request channel behind
    /// all that the handle sent before, or the channel was found closed and
    /// nothing went anywhere. A handle that has found the channel closed
    /// before finds it closed again. The command channel and the size limit
    /// are as they were.
    pub open spec fn request_step(
        pre: MqttClient,
        post: MqttClient,
        request: RequestView,
        r: Result<(), ClientError>,
    ) -> bool {
        &&& post.max_packet_size() == pre.max_packet_size()
        &&& post.command_tx() == pre.command_tx()
        &&& pre.requests_refused() ==> r is Err
        &&& match r {
            Ok(_) => post.requests() == pre.requests().push(request) && !post.requests_refused(),
            Err(e) => e == ClientError::MpscSend && post.requests() == pre.requests()
                && post.requests_refused(),
        }
    }

    /// One attempt to send `command` took the handle from `pre` to `post` and
    /// reported `r`. Either the command went onto the command channel behind
    /// all that the handle sent before, or the channel was found closed and
    /// nothing went anywhere. A handle that has found the channel closed
    /// before finds it closed again. The request channel and the size limit
    /// are as they were.
    pub open spec fn command_step(
        pre: MqttClient,
        post: MqttClient,
        command: Command,
        r: Result<(), ClientError>,
    ) -> bool {
        &&& post.max_packet_size() == pre.max_packet_size()
        &&& post.request_tx() == pre.request_tx()
        &&& pre.commands_refused() ==> r is Err
        &&& match r {
            Ok(_) => post.commands() == pre.commands().push(command) && !post.commands_refused(),
            Err(e) => e == ClientError::MpscSend && post.commands() == pre.commands()
                && post.commands_refused(),
        }
    }

    /// Assembles the handle of a session from what the engine's bootstrap
    /// returned. The size limit is read from `opts`; the endpoints are those
    /// of `bootstrap`, and the notification receiver is handed back beside the
    /// handle. A bootstrap that failed is passed on as it is.
    pub fn start(opts: &MqttOptions, bootstrap: Result<UserHandle, ConnectError>) -> (r: Result<
        (MqttClient, crossbeam_channel::Receiver<Notification>),
        ConnectError,
    >)
        ensures
            match bootstrap {
                Ok(handle) => r matches Ok((client, notification_rx))
                    && client.max_packet_size() == opts@.max_packet_size
                    && client.request_tx() == handle.request_tx()
                    && client.command_tx() == handle.command_tx()
                    && notification_rx == handle.notification_rx(),
                Err(e) => r == Err::<(MqttClient, crossbeam_channel::Receiver<Notification>), _>(e),
            },
    {
        let max_packet_size = opts.max_packet_size();
        match bootstrap {
            Ok(handle) => {
                let UserHandle { request_tx, command_tx, notification_rx } = handle;
                let client = MqttClient { request_tx, command_tx, max_packet_size };
                Ok((client, notification_rx))
            },
            Err(e) => Err(e),
        }
    }

    /// Publishes `payload` to `topic`. A payload above the size limit is
    /// refused before any channel is touched. Any other is sent as one
    /// request on the request channel; the call returns when the channel has
    /// taken it or is found closed.
    pub fn publish(&mut self, topic: String, qos: QoS, payload: Vec<u8>) -> (r: Result<
        (),
        ClientError,
    >)
        ensures
            payload@.len() > old(self).max_packet_size() ==> r == Err::<(), _>(
                ClientError::PacketSizeLimitExceeded,
            ) && *final(self) == *old(self),
            payload@.len() <= old(self).max_packet_size() ==> Self::request_step(
                *old(self),
                *final(self),
                publish_request(topic@, qos, payload@),
                r,
            ),
    {
        if payload.len() > self.max_packet_size {
            return Err(ClientError::PacketSizeLimitExceeded);
        }
        let request = Request::publish(topic, qos, payload);
        let sent = send_request(&mut self.request_tx, request);
        send_outcome(sent)
    }

    /// Subscribes to `topic`: one request with that one topic goes onto the
    /// request channel.
    pub fn subscribe(&mut self, topic: String, qos: QoS) -> (r: Result<(), ClientError>)
        ensures
            Self::request_step(*old(self), *final(self), subscribe_request(topic@, qos), r),
    {
        let request = Request::subscribe(topic, qos);
        let sent = send_request(&mut self.request_tx, request);
        send_outcome(sent)
    }

    /// Drops the subscription to `topic`: one request with that one topic goes
    /// onto the request channel.
    pub fn unsubscribe(&mut self, topic: String) -> (r: Result<(), ClientError>)
        ensures
            Self::request_step(*old(self), *final(self), unsubscribe_request(topic@), r),
    {
        let request = Request::unsubscribe(topic);
        let sent = send_request(&mut self.request_tx, request);
        send_outcome(sent)
    }

    /// Tells the engine to pause, on the command channel.
    pub fn pause(&mut self) -> (r: Result<(), ClientError>)
        ensures
            Self::command_step(*old(self), *final(self), Command::Pause, r),
    {
        let sent = send_command(&mut self.command_tx, Command::Pause);
        send_outcome(sent)
    }

    /// Tells the engine to resume, on the command channel.
    pub fn resume(&mut self) -> (r: Result<(), ClientError>)
        ensures
            Self::command_step(*old(self), *final(self), Command::Resume, r),
    {
        let sent = send_command(&mut self.command_tx, Command::Resume);
        send_outcome(sent)
    }

    /// Asks the engine to end the session: a disconnect request goes onto the
    /// request channel.
    pub fn disconnect(&mut self) -> (r: Result<(), ClientError>)
        ensures
            Self::request_step(*old(self), *final(self), RequestView::Disconnect, r),
    {
        let sent = send_request(&mut self.request_tx, Request::Disconnect);
        send_outcome(sent)
    }
}

} // verus!

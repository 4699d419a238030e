//! The application-facing half of an MQTT client.
//!
//! A [`client::MqttClient`] turns synchronous calls (publish, subscribe,
//! unsubscribe, pause, resume, disconnect) into messages for a connection
//! engine that runs elsewhere. Requests and commands travel on two separate
//! bounded channels, notifications come back on a third. The engine itself,
//! the transport and the wire format are not part of this crate: the engine
//! hands its channel endpoints over as a [`client::UserHandle`].
//!
//! Every operation carries a contract, stated over the sequence of messages
//! that a handle has put on each of its channels.

pub mod channel;
pub mod client;
pub mod error;
pub mod laws;
pub mod options;
pub mod packet;

//! Connection options. This crate reads one of them, the size limit for
//! payloads; the rest is carried to the engine unread.

use vstd::prelude::*;

verus! {

/// The payload size limit of options that were given none.
pub const DEFAULT_MAX_PACKET_SIZE: usize = 262144;

/// What a session is started with.
#[derive(Clone, Debug, PartialEq, Eq)]
pub struct MqttOptions {
    client_id: String,
    broker_addr: String,
    port: u16,
    max_packet_size: usize,
}

/// What a [`MqttOptions`] holds, as mathematical values.
pub struct MqttOptionsView {
    pub client_id: Seq<char>,
    pub broker_addr: Seq<char>,
    pub port: u16,
    pub max_packet_size: usize,
}

impl View for MqttOptions {
    type V = MqttOptionsView;

    closed spec fn view(&self) -> MqttOptionsView {
        MqttOptionsView {
            client_id: self.client_id@,
            broker_addr: self.broker_addr@,
            port: self.port,
            max_packet_size: self.max_packet_size,
        }
    }
}

impl MqttOptions {
    /// Options for the broker at `broker_addr:port`, with the default size
    /// limit.
    pub fn new(client_id: String, broker_addr: String, port: u16) -> (opts: MqttOptions)
        ensures
            opts@ == (MqttOptionsView {
                client_id: client_id@,
                broker_addr: broker_addr@,
                port,
                max_packet_size: DEFAULT_MAX_PACKET_SIZE,
            }),
    {
        MqttOptions { client_id, broker_addr, port, max_packet_size: DEFAULT_MAX_PACKET_SIZE }
    }

    /// The same options with another payload size limit.
    pub fn set_max_packet_size(self, max_packet_size: usize) -> (opts: MqttOptions)
        ensures
            opts@ == (MqttOptionsView { max_packet_size, ..self@ }),
    {
        let mut opts = self;
        opts.max_packet_size = max_packet_size;
        opts
    }

    /// The largest payload, in bytes, that a publish may carry.
    pub fn max_packet_size(&self) -> (limit: usize)
        ensures
            limit == self@.max_packet_size,
    {
        self.max_packet_size
    }

    /// The client identifier.
    pub fn client_id(&self) -> (id: &String)
        ensures
            id@ == self@.client_id,
    {
        &self.client_id
    }

    /// Host name or address of the broker, and its port.
    pub fn broker_address(&self) -> (addr: (&String, u16))
        ensures
            addr.0@ == self@.broker_addr,
            addr.1 == self@.port,
    {
        (&self.broker_addr, self.port)
    }
}

} // verus!

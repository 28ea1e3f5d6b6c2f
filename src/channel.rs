use vstd::prelude::*;

use crate::height::{Height, Sequence, Timestamp};
use crate::ids::{ChannelId, ClientId, ConnectionId, PortId};

verus! {

/// Handshake state of a channel end.
#[derive(Clone, Copy, Debug, PartialEq, Eq, Structural)]
pub enum State {
    Init,
    TryOpen,
    Open,
    Closed,
}

/// Delivery discipline of a channel.
#[derive(Clone, Copy, Debug, PartialEq, Eq, Structural)]
pub enum Order {
    Unordered,
    Ordered,
}

/// Handshake state of a connection end.
#[derive(Clone, Copy, Debug, PartialEq, Eq, Structural)]
pub enum ConnectionState {
    Init,
    TryOpen,
    Open,
    Closed,
}

/// The port and, once known, the channel at the other end of a channel.
#[derive(Clone, Debug)]
pub struct Counterparty {
    pub port_id: PortId,
    pub channel_id: Option<ChannelId>,
}

/// One end of a channel as stored on a chain.
#[derive(Clone, Debug)]
pub struct ChannelEnd {
    pub state: State,
    pub ordering: Order,
    pub remote: Counterparty,
    pub connection_hops: Vec<ConnectionId>,
    pub version: String,
}

/// One end of a connection as stored on a chain.
#[derive(Clone, Debug)]
pub struct ConnectionEnd {
    pub state: ConnectionState,
    pub client_id: ClientId,
    pub counterparty_client_id: ClientId,
    pub counterparty_connection_id: Option<ConnectionId>,
    pub versions: Vec<String>,
    pub delay_period: u64,
}

/// A packet sent from a source port and channel to a destination port and channel.
#[derive(Clone, Debug)]
pub struct Packet {
    pub sequence: Sequence,
    pub source_port: PortId,
    pub source_channel: ChannelId,
    pub destination_port: PortId,
    pub destination_channel: ChannelId,
    pub data: Vec<u8>,
    pub timeout_height: Height,
    pub timeout_timestamp: Timestamp,
}

/// Marker stored for a packet received on an unordered channel.
#[derive(Clone, Copy, Debug, PartialEq, Eq, Structural)]
pub enum Receipt {
    Recorded,
}

impl Counterparty {
    pub fn new(port_id: PortId, channel_id: Option<ChannelId>) -> (r: Counterparty)
        ensures
            r.port_id == port_id,
            r.channel_id == channel_id,
    {
        Counterparty { port_id, channel_id }
    }

    /// This counterparty names exactly `port` and `channel`.
    pub open spec fn names(self, port: Seq<char>, channel: Seq<char>) -> bool {
        &&& self.port_id@ == port
        &&& self.channel_id matches Some(c) && c@ == channel
    }
}

impl ChannelEnd {
    pub fn new(
        state: State,
        ordering: Order,
        remote: Counterparty,
        connection_hops: Vec<ConnectionId>,
        version: String,
    ) -> (r: ChannelEnd)
        ensures
            r.state == state,
            r.ordering == ordering,
            r.remote == remote,
            r.connection_hops == connection_hops,
            r.version == version,
    {
        ChannelEnd { state, ordering, remote, connection_hops, version }
    }

    pub fn state_matches(&self, other: &State) -> (r: bool)
        ensures
            r == (self.state == *other),
    {
        self.state == *other
    }

    pub fn order_matches(&self, other: &Order) -> (r: bool)
        ensures
            r == (self.ordering == *other),
    {
        self.ordering == *other
    }

    /// The recorded counterparty is `port` with `channel`.
    pub fn counterparty_matches(&self, port: &PortId, channel: &ChannelId) -> (r: bool)
        ensures
            r == self.remote.names(port@, channel@),
    {
        if !self.remote.port_id.same(port) {
            return false;
        }
        match &self.remote.channel_id {
            Some(c) => c.same(channel),
            None => false,
        }
    }
}

impl ConnectionEnd {
    pub fn new(
        state: ConnectionState,
        client_id: ClientId,
        counterparty_client_id: ClientId,
        counterparty_connection_id: Option<ConnectionId>,
        versions: Vec<String>,
        delay_period: u64,
    ) -> (r: ConnectionEnd)
        ensures
            r.state == state,
            r.client_id == client_id,
            r.counterparty_client_id == counterparty_client_id,
            r.counterparty_connection_id == counterparty_connection_id,
            r.versions == versions,
            r.delay_period == delay_period,
    {
        ConnectionEnd {
            state,
            client_id,
            counterparty_client_id,
            counterparty_connection_id,
            versions,
            delay_period,
        }
    }

    pub fn state_matches(&self, other: &ConnectionState) -> (r: bool)
        ensures
            r == (self.state == *other),
    {
        self.state == *other
    }
}

} // verus!

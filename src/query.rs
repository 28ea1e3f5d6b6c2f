use vstd::prelude::*;

use crate::height::{Height, Sequence};
use crate::ids::{ChannelId, ClientId, PortId};

verus! {

/// Kinds of event that a transaction query can ask for.
#[derive(Clone, Copy, Debug, PartialEq, Eq, Structural)]
pub enum EventType {
    SendPacket,
    ReceivePacket,
    WriteAck,
    UpdateClient,
}

/// Asks for the events of packets with the given sequences on a channel path.
#[derive(Clone, Debug)]
pub struct QueryPacketEventDataRequest {
    pub event_id: EventType,
    pub source_channel_id: ChannelId,
    pub source_port_id: PortId,
    pub destination_channel_id: ChannelId,
    pub destination_port_id: PortId,
    pub sequences: Vec<Sequence>,
    pub height: Height,
}

/// Asks for the event of a client update to a consensus height.
#[derive(Clone, Debug)]
pub struct QueryClientEventRequest {
    pub height: Height,
    pub event_id: EventType,
    pub client_id: ClientId,
    pub consensus_height: Height,
}

/// A query for transaction events, by packet or by client.
#[derive(Clone, Debug)]
pub enum QueryTxRequest {
    Packet(QueryPacketEventDataRequest),
    Client(QueryClientEventRequest),
}

} // verus!

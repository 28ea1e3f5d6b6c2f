use vstd::prelude::*;

use crate::channel::{ChannelEnd, ConnectionState, Order, Packet, Receipt, State};
use crate::context::{ChainState, ReceiptEntry, SequenceEntry};
use crate::height::{Height, Sequence};
use crate::ids::{ChannelId, ConnectionId, PortId};

verus! {

/// Proofs carried by a packet message, taken at `height` on the sending chain.
#[derive(Clone, Debug)]
pub struct Proofs {
    pub object_proof: Vec<u8>,
    pub height: Height,
}

/// A message that delivers `packet` to its destination chain.
#[derive(Clone, Debug)]
pub struct MsgRecvPacket {
    pub packet: Packet,
    pub proofs: Proofs,
    pub signer: String,
}

/// The state change that a received packet asks for.
#[derive(Clone, Debug)]
pub struct RecvPacketResult {
    pub port_id: PortId,
    pub channel_id: ChannelId,
    pub seq: Sequence,
    pub seq_number: Sequence,
    pub receipt: Option<Receipt>,
}

/// The state change asked for by a packet handler.
#[derive(Clone, Debug)]
pub enum PacketResult {
    Recv(RecvPacketResult),
}

/// Event emitted when a packet has been received.
#[derive(Clone, Debug)]
pub struct ReceivePacket {
    pub height: Height,
    pub packet: Packet,
}

/// Events emitted by the handlers.
#[derive(Clone, Debug)]
pub enum IbcEvent {
    ReceivePacket(ReceivePacket),
}

/// What a handler hands back on success: the state change, log lines and events.
#[derive(Clone, Debug)]
pub struct HandlerOutput {
    pub result: PacketResult,
    pub log: Vec<String>,
    pub events: Vec<IbcEvent>,
}

/// Why a packet was refused.
#[derive(Clone, Debug)]
pub enum ChannelError {
    ChannelNotFound(PortId, ChannelId),
    InvalidChannelState(ChannelId, State),
    NoPortCapability(PortId),
    InvalidPacketCounterparty(PortId, ChannelId),
    InvalidConnectionHopsLength,
    MissingConnection(ConnectionId),
    ConnectionNotOpen(ConnectionId),
    LowPacketHeight(Height, Height),
    LowPacketTimestamp,
    PacketVerificationFailed(Sequence),
    MissingNextRecvSeq,
    /// The packet's sequence, then the one expected.
    InvalidPacketSequence(Sequence, Sequence),
    PacketAlreadyReceived(Sequence),
}

/// The packet's timeout height is set and has been reached by the host.
pub open spec fn height_timed_out(p: Packet, host: Height) -> bool {
    p.timeout_height.revision_height != 0 && p.timeout_height.spec_le(host)
}

/// The first hop's connection end, when the channel has a hop.
pub open spec fn first_connection(ctx: ChainState, ch: ChannelEnd) -> Option<
    crate::channel::ConnectionEnd,
> {
    if ch.connection_hops@.len() == 0 {
        None
    } else {
        ctx.spec_connection_end(ch.connection_hops@[0]@)
    }
}

/// The checks on the channel, the port capability and the connection, in
/// order: `None` when all of them pass, else the first failure.
pub open spec fn route_checks(ctx: ChainState, p: Packet) -> Option<ChannelError> {
    match ctx.spec_channel_end(p.destination_port@, p.destination_channel@) {
        None => Some(ChannelError::ChannelNotFound(p.destination_port, p.destination_channel)),
        Some(ch) => {
            if ch.state != State::Open {
                Some(ChannelError::InvalidChannelState(p.source_channel, ch.state))
            } else if !ctx.spec_has_capability(p.destination_port@) {
                Some(ChannelError::NoPortCapability(p.destination_port))
            } else if !ch.remote.names(p.source_port@, p.source_channel@) {
                Some(ChannelError::InvalidPacketCounterparty(p.source_port, p.source_channel))
            } else if ch.connection_hops@.len() == 0 {
                Some(ChannelError::InvalidConnectionHopsLength)
            } else {
                match first_connection(ctx, ch) {
                    None => Some(ChannelError::MissingConnection(ch.connection_hops@[0])),
                    Some(conn) => {
                        if conn.state != ConnectionState::Open {
                            Some(ChannelError::ConnectionNotOpen(ch.connection_hops@[0]))
                        } else {
                            None
                        }
                    },
                }
            }
        },
    }
}

/// The checks that do not depend on the channel's ordering, in order:
/// `None` when all of them pass, else the first failure.
pub open spec fn common_checks(ctx: ChainState, p: Packet, proofs_verified: bool) -> Option<
    ChannelError,
> {
    match route_checks(ctx, p) {
        Some(e) => Some(e),
        None => {
            if height_timed_out(p, ctx.host_height) {
                Some(ChannelError::LowPacketHeight(ctx.host_height, p.timeout_height))
            } else if ctx.host_timestamp.spec_expired(p.timeout_timestamp) {
                Some(ChannelError::LowPacketTimestamp)
            } else if !proofs_verified {
                Some(ChannelError::PacketVerificationFailed(p.sequence))
            } else {
                None
            }
        },
    }
}

/// What receiving `p` on `ctx` comes to, given the proof verifier's verdict.
pub open spec fn recv_outcome(ctx: ChainState, p: Packet, proofs_verified: bool) -> Result<
    RecvPacketResult,
    ChannelError,
> {
    match common_checks(ctx, p, proofs_verified) {
        Some(e) => Err(e),
        None => {
            let ch = ctx.spec_channel_end(p.destination_port@, p.destination_channel@)->0;
            if ch.ordering == Order::Ordered {
                match ctx.spec_next_sequence_recv(p.source_port@, p.source_channel@) {
                    None => Err(ChannelError::MissingNextRecvSeq),
                    Some(next) => {
                        if p.sequence != next {
                            Err(ChannelError::InvalidPacketSequence(p.sequence, next))
                        } else {
                            Ok(
                                RecvPacketResult {
                                    port_id: p.source_port,
                                    channel_id: p.source_channel,
                                    seq: p.sequence,
                                    seq_number: Sequence { value: (next.value + 1) as u64 },
                                    receipt: None,
                                },
                            )
                        }
                    },
                }
            } else {
                match ctx.spec_packet_receipt(p.source_port@, p.source_channel@, p.sequence) {
                    Some(_) => Err(ChannelError::PacketAlreadyReceived(p.sequence)),
                    None => Ok(
                        RecvPacketResult {
                            port_id: p.source_port,
                            channel_id: p.source_channel,
                            seq: p.sequence,
                            seq_number: Sequence { value: 1 },
                            receipt: Some(Receipt::Recorded),
                        },
                    ),
                }
            }
        },
    }
}

/// Validates a received packet against the destination chain's state and
/// computes the state change it asks for.
///
/// `proofs_verified` is the proof verifier's verdict on `msg.proofs` against
/// the consensus state of the client under the channel's first connection; it
/// is consulted only once every check before it has passed. Nothing is
/// changed: the caller commits the returned result.
pub fn process(ctx: &ChainState, msg: MsgRecvPacket, proofs_verified: bool) -> (r: Result<
    HandlerOutput,
    ChannelError,
>)
    requires
        ctx.recv_sequences_bounded(),
    ensures
        match r {
            Ok(out) => {
                &&& recv_outcome(*ctx, msg.packet, proofs_verified) matches Ok(res)
                &&& out.result == PacketResult::Recv(res)
                &&& out.events@ == seq![
                    IbcEvent::ReceivePacket(
                        ReceivePacket { height: Height { revision_number: 0, revision_height: 0 }, packet: msg.packet },
                    ),
                ]
                &&& out.log@.len() == 1
            },
            Err(e) => recv_outcome(*ctx, msg.packet, proofs_verified) == Err::<
                RecvPacketResult,
                ChannelError,
            >(e),
        },
{
    let packet = &msg.packet;

    let dest_channel_end = match ctx.channel_end(
        &packet.destination_port,
        &packet.destination_channel,
    ) {
        Some(c) => c,
        None => {
            return Err(
                ChannelError::ChannelNotFound(
                    packet.destination_port.duplicate(),
                    packet.destination_channel.duplicate(),
                ),
            );
        },
    };

    if !dest_channel_end.state_matches(&State::Open) {
        return Err(
            ChannelError::InvalidChannelState(
                packet.source_channel.duplicate(),
                dest_channel_end.state,
            ),
        );
    }

    if !ctx.authenticated_capability(&packet.destination_port) {
        return Err(ChannelError::NoPortCapability(packet.destination_port.duplicate()));
    }

    if !dest_channel_end.counterparty_matches(&packet.source_port, &packet.source_channel) {
        return Err(
            ChannelError::InvalidPacketCounterparty(
                packet.source_port.duplicate(),
                packet.source_channel.duplicate(),
            ),
        );
    }

    if dest_channel_end.connection_hops.len() == 0 {
        return Err(ChannelError::InvalidConnectionHopsLength);
    }
    let hop = &dest_channel_end.connection_hops[0];

    let connection_end = match ctx.connection_end(hop) {
        Some(c) => c,
        None => {
            return Err(ChannelError::MissingConnection(hop.duplicate()));
        },
    };

    if !connection_end.state_matches(&ConnectionState::Open) {
        return Err(ChannelError::ConnectionNotOpen(hop.duplicate()));
    }

    // A packet whose timeout height the host has reached has timed out here.
    let latest_height = ctx.host_height;
    if !packet.timeout_height.is_zero() && packet.timeout_height.le(&latest_height) {
        return Err(ChannelError::LowPacketHeight(latest_height, packet.timeout_height));
    }

    // Likewise for a timeout timestamp that the host's time has passed.
    let latest_timestamp = ctx.host_timestamp;
    if latest_timestamp.check_expiry(&packet.timeout_timestamp) == crate::height::Expiry::Expired {
        return Err(ChannelError::LowPacketTimestamp);
    }

    if !proofs_verified {
        return Err(ChannelError::PacketVerificationFailed(packet.sequence));
    }

    let result = if dest_channel_end.order_matches(&Order::Ordered) {
        let next_seq_recv = match ctx.get_next_sequence_recv(
            &packet.source_port,
            &packet.source_channel,
        ) {
            Some(s) => s,
            None => {
                return Err(ChannelError::MissingNextRecvSeq);
            },
        };
        if packet.sequence.value != next_seq_recv.value {
            return Err(ChannelError::InvalidPacketSequence(packet.sequence, next_seq_recv));
        }
        proof {
            lemma_stored_sequence_bounded(ctx, packet.source_port@, packet.source_channel@);
        }
        RecvPacketResult {
            port_id: packet.source_port.duplicate(),
            channel_id: packet.source_channel.duplicate(),
            seq: packet.sequence,
            seq_number: next_seq_recv.increment(),
            receipt: None,
        }
    } else {
        let packet_rec = ctx.get_packet_receipt(
            &packet.source_port,
            &packet.source_channel,
            packet.sequence,
        );
        match packet_rec {
            Some(_) => {
                return Err(ChannelError::PacketAlreadyReceived(packet.sequence));
            },
            None => {
                // A receipt holds no data: its presence is the record.
                RecvPacketResult {
                    port_id: packet.source_port.duplicate(),
                    channel_id: packet.source_channel.duplicate(),
                    seq: packet.sequence,
                    seq_number: Sequence::new(1),
                    receipt: Some(Receipt::Recorded),
                }
            },
        }
    };

    let mut log: Vec<String> = Vec::new();
    log.push("success: packet receive".to_string());
    let mut events: Vec<IbcEvent> = Vec::new();
    events.push(IbcEvent::ReceivePacket(ReceivePacket { height: Height::zero(), packet: msg.packet }));

    Ok(HandlerOutput { result: PacketResult::Recv(result), log, events })
}

/// `after` is `before` with `res` committed: a receipt stored under its key,
/// or else the next expected sequence stored, ahead of the older entries.
pub open spec fn committed(before: ChainState, res: RecvPacketResult, after: ChainState) -> bool {
    &&& after.channels@ == before.channels@
    &&& after.connections@ == before.connections@
    &&& after.port_capabilities@ == before.port_capabilities@
    &&& after.send_sequences@ == before.send_sequences@
    &&& after.host_height == before.host_height
    &&& after.host_timestamp == before.host_timestamp
    &&& match res.receipt {
        Some(receipt) => {
            &&& after.recv_sequences@ == before.recv_sequences@
            &&& after.receipts@ == seq![
                ReceiptEntry {
                    port_id: res.port_id,
                    channel_id: res.channel_id,
                    sequence: res.seq,
                    receipt,
                },
            ].add(before.receipts@)
        },
        None => {
            &&& after.receipts@ == before.receipts@
            &&& after.recv_sequences@ == seq![
                SequenceEntry {
                    port_id: res.port_id,
                    channel_id: res.channel_id,
                    sequence: res.seq_number,
                },
            ].add(before.recv_sequences@)
        },
    }
}

impl ChainState {
    /// Commits the state change of a received packet.
    pub fn store_recv_result(&mut self, res: &RecvPacketResult)
        ensures
            committed(*old(self), *res, *final(self)),
    {
        match res.receipt {
            Some(receipt) => {
                let entry = ReceiptEntry {
                    port_id: res.port_id.duplicate(),
                    channel_id: res.channel_id.duplicate(),
                    sequence: res.seq,
                    receipt,
                };
                self.receipts.insert(0, entry);
                proof {
                    assert(self.receipts@ =~= seq![entry].add(old(self).receipts@));
                }
            },
            None => {
                let entry = SequenceEntry {
                    port_id: res.port_id.duplicate(),
                    channel_id: res.channel_id.duplicate(),
                    sequence: res.seq_number,
                };
                self.recv_sequences.insert(0, entry);
                proof {
                    assert(self.recv_sequences@ =~= seq![entry].add(old(self).recv_sequences@));
                }
            },
        }
    }
}

/// On an ordered channel that expects `next`, a packet with another sequence
/// is refused, with a sequence mismatch once the other checks pass; a packet
/// that is accepted moves the expected sequence to `next + 1`.
pub proof fn lemma_ordered_sequence(ctx: ChainState, p: Packet, proofs_verified: bool, next: Sequence)
    requires
        ctx.recv_sequences_bounded(),
        ctx.spec_channel_end(p.destination_port@, p.destination_channel@) matches Some(ch)
            && ch.ordering == Order::Ordered,
        ctx.spec_next_sequence_recv(p.source_port@, p.source_channel@) == Some(next),
    ensures
        p.sequence != next ==> recv_outcome(ctx, p, proofs_verified) is Err,
        p.sequence != next && common_checks(ctx, p, proofs_verified) is None ==> recv_outcome(
            ctx,
            p,
            proofs_verified,
        ) == Err::<RecvPacketResult, ChannelError>(
            ChannelError::InvalidPacketSequence(p.sequence, next),
        ),
        recv_outcome(ctx, p, proofs_verified) matches Ok(res) ==> p.sequence == next
            && res.seq_number.value == next.value + 1 && res.receipt is None,
{
    lemma_stored_sequence_bounded(&ctx, p.source_port@, p.source_channel@);
}

/// On an unordered channel a packet that passes every check and has no
/// receipt is accepted and asks for a receipt; once that is committed, the
/// same packet is refused as already received.
pub proof fn lemma_no_double_receipt(
    ctx: ChainState,
    after: ChainState,
    p: Packet,
    proofs_verified: bool,
)
    requires
        ctx.spec_channel_end(p.destination_port@, p.destination_channel@) matches Some(ch)
            && ch.ordering == Order::Unordered,
        common_checks(ctx, p, proofs_verified) is None,
        ctx.spec_packet_receipt(p.source_port@, p.source_channel@, p.sequence) is None,
        committed(ctx, recv_outcome(ctx, p, proofs_verified)->Ok_0, after),
    ensures
        recv_outcome(ctx, p, proofs_verified) matches Ok(res) && res.receipt == Some(
            Receipt::Recorded,
        ),
        recv_outcome(after, p, proofs_verified) == Err::<RecvPacketResult, ChannelError>(
            ChannelError::PacketAlreadyReceived(p.sequence),
        ),
{
    let res = recv_outcome(ctx, p, proofs_verified)->Ok_0;
    let e = ReceiptEntry {
        port_id: res.port_id,
        channel_id: res.channel_id,
        sequence: res.seq,
        receipt: Receipt::Recorded,
    };
    assert(after.receipts@[0] == e);
    assert(after.spec_packet_receipt(p.source_port@, p.source_channel@, p.sequence) == Some(
        Receipt::Recorded,
    ));
    assert(route_checks(after, p) == route_checks(ctx, p));
}

/// A packet whose timeout height the host has reached is refused whatever the
/// proofs hold, with a low-height error once the routing checks pass.
pub proof fn lemma_timeout_height(ctx: ChainState, p: Packet, proofs_verified: bool)
    requires
        height_timed_out(p, ctx.host_height),
    ensures
        recv_outcome(ctx, p, proofs_verified) is Err,
        recv_outcome(ctx, p, proofs_verified) == recv_outcome(ctx, p, !proofs_verified),
        route_checks(ctx, p) is None ==> recv_outcome(ctx, p, proofs_verified) == Err::<
            RecvPacketResult,
            ChannelError,
        >(ChannelError::LowPacketHeight(ctx.host_height, p.timeout_height)),
{
}

/// A packet whose timeout timestamp the host's time has passed is refused
/// whatever the proofs hold, with a low-timestamp error once the routing and
/// timeout-height checks pass.
pub proof fn lemma_timeout_timestamp(ctx: ChainState, p: Packet, proofs_verified: bool)
    requires
        ctx.host_timestamp.spec_expired(p.timeout_timestamp),
    ensures
        recv_outcome(ctx, p, proofs_verified) is Err,
        recv_outcome(ctx, p, proofs_verified) == recv_outcome(ctx, p, !proofs_verified),
        route_checks(ctx, p) is None && !height_timed_out(p, ctx.host_height) ==> recv_outcome(
            ctx,
            p,
            proofs_verified,
        ) == Err::<RecvPacketResult, ChannelError>(ChannelError::LowPacketTimestamp),
{
}

/// A destination channel that is not open refuses every packet, whatever the
/// other fields hold.
pub proof fn lemma_channel_not_open(ctx: ChainState, p: Packet, proofs_verified: bool)
    requires
        ctx.spec_channel_end(p.destination_port@, p.destination_channel@) matches Some(ch)
            && ch.state != State::Open,
    ensures
        recv_outcome(ctx, p, proofs_verified) == Err::<RecvPacketResult, ChannelError>(
            ChannelError::InvalidChannelState(
                p.source_channel,
                ctx.spec_channel_end(p.destination_port@, p.destination_channel@)->0.state,
            ),
        ),
{
}

/// A stored receive sequence has a successor in `u64`.
proof fn lemma_stored_sequence_bounded(ctx: &ChainState, port: Seq<char>, channel: Seq<char>)
    requires
        ctx.recv_sequences_bounded(),
    ensures
        ctx.spec_next_sequence_recv(port, channel) matches Some(n) ==> n.value < u64::MAX,
{
    lemma_sequence_in_bounded(ctx.recv_sequences@, port, channel);
}

proof fn lemma_sequence_in_bounded(
    s: Seq<crate::context::SequenceEntry>,
    port: Seq<char>,
    channel: Seq<char>,
)
    requires
        forall|i: int| 0 <= i < s.len() ==> #[trigger] s[i].sequence.value < u64::MAX,
    ensures
        crate::context::sequence_in(s, port, channel) matches Some(n) ==> n.value < u64::MAX,
    decreases s.len(),
{
    if s.len() > 0 {
        assert(forall|i: int| 0 <= i < s.drop_first().len() ==> s.drop_first()[i] == s[i + 1]);
        lemma_sequence_in_bounded(s.drop_first(), port, channel);
    }
}

} // verus!

use ibc_core::channel::{
    ChannelEnd, ConnectionEnd, ConnectionState, Counterparty, Order, Packet, Receipt, State,
};
use ibc_core::context::ChainState;
use ibc_core::height::{Expiry, Height, Sequence, Timestamp};
use ibc_core::ids::{ChannelId, ClientId, ConnectionId, PortId};
use ibc_core::recv_packet::{process, ChannelError, IbcEvent, MsgRecvPacket, PacketResult, Proofs};

fn port(s: &str) -> PortId {
    PortId::new(s.to_string())
}

fn chan(s: &str) -> ChannelId {
    ChannelId::new(s.to_string())
}

fn conn(s: &str) -> ConnectionId {
    ConnectionId::new(s.to_string())
}

fn client(s: &str) -> ClientId {
    ClientId::new(s.to_string())
}

fn default_port() -> PortId {
    port("defaultPort")
}

fn default_channel() -> ChannelId {
    chan("channel-0")
}

fn default_connection() -> ConnectionId {
    conn("defaultConnection-0")
}

fn default_client() -> ClientId {
    client("defaultClientId")
}

fn packet(sequence: u64, timeout_height: Height, timeout_timestamp: u64) -> Packet {
    Packet {
        sequence: Sequence::new(sequence),
        source_port: default_port(),
        source_channel: default_channel(),
        destination_port: default_port(),
        destination_channel: default_channel(),
        data: vec![0],
        timeout_height,
        timeout_timestamp: Timestamp::from_nanoseconds(timeout_timestamp),
    }
}

fn msg(packet: Packet, proof_height: Height) -> MsgRecvPacket {
    MsgRecvPacket {
        packet,
        proofs: Proofs { object_proof: vec![0, 1, 2], height: proof_height },
        signer: "cosmos1signer".to_string(),
    }
}

fn channel_end(state: State, ordering: Order) -> ChannelEnd {
    ChannelEnd::new(
        state,
        ordering,
        Counterparty::new(default_port(), Some(default_channel())),
        vec![default_connection()],
        "ics20".to_string(),
    )
}

fn connection_end(state: ConnectionState) -> ConnectionEnd {
    ConnectionEnd::new(
        state,
        default_client(),
        default_client(),
        Some(default_connection()),
        vec!["1".to_string()],
        0,
    )
}

/// An open channel of the given ordering over an open connection, at host
/// height (1, 6) and time 1.
fn open_chain(ordering: Order) -> ChainState {
    ChainState::new(Height::new(1, 6), Timestamp::from_nanoseconds(1))
        .with_connection(default_connection(), connection_end(ConnectionState::Open))
        .with_port_capability(default_port())
        .with_channel(default_port(), default_channel(), channel_end(State::Open, ordering))
}

fn good_packet(sequence: u64) -> Packet {
    packet(sequence, Height::new(1, 7), 0)
}

#[test]
fn recv_packet_processing() {
    let context = ChainState::new(Height::new(1, 5), Timestamp::none());
    let host_height = Height::new(1, 6);
    let client_height = Height::new(1, 7);

    let msg_good = msg(packet(1, client_height, 0), client_height);
    let packet_old = Packet {
        sequence: Sequence::new(1),
        source_port: default_port(),
        source_channel: default_channel(),
        destination_port: default_port(),
        destination_channel: default_channel(),
        data: vec![],
        timeout_height: client_height,
        timeout_timestamp: Timestamp::from_nanoseconds(1),
    };
    let msg_packet_old = msg(packet_old, client_height);

    let dest_channel_end = ChannelEnd::new(
        State::Open,
        Order::Unordered,
        Counterparty::new(default_port(), Some(default_channel())),
        vec![default_connection()],
        "ics20".to_string(),
    );
    let connection = connection_end(ConnectionState::Open);

    let tests: Vec<(&str, ChainState, MsgRecvPacket, bool)> = vec![
        (
            "Processing fails because no channel exists in the context",
            context.clone(),
            msg_good.clone(),
            false,
        ),
        (
            "Processing fails because the port does not have a capability associated",
            context.clone().with_channel(default_port(), default_channel(), dest_channel_end.clone()),
            msg_good.clone(),
            false,
        ),
        (
            "Good parameters",
            context
                .clone()
                .with_connection(default_connection(), connection.clone())
                .with_port_capability(default_port())
                .with_channel(default_port(), default_channel(), dest_channel_end.clone())
                .with_send_sequence(default_port(), default_channel(), Sequence::new(1))
                .with_height(host_height)
                .with_timestamp(Timestamp::from_nanoseconds(1))
                .with_recv_sequence(default_port(), default_channel(), Sequence::new(1)),
            msg_good.clone(),
            true,
        ),
        (
            "Packet timeout expired",
            context
                .with_connection(default_connection(), connection)
                .with_port_capability(default_port())
                .with_channel(default_port(), default_channel(), dest_channel_end)
                .with_send_sequence(default_port(), default_channel(), Sequence::new(1))
                .with_height(host_height)
                .with_timestamp(Timestamp::from_nanoseconds(3)),
            msg_packet_old,
            false,
        ),
    ];

    for (name, ctx, m, want_pass) in tests {
        match process(&ctx, m, true) {
            Ok(output) => {
                assert_eq!(want_pass, true, "test passed but was supposed to fail: {}", name);
                assert_ne!(output.events.is_empty(), true);
                for e in output.events.iter() {
                    assert!(matches!(e, &IbcEvent::ReceivePacket(_)));
                }
            }
            Err(e) => {
                assert_eq!(want_pass, false, "did not pass test: {}, error={:?}", name, e);
            }
        }
    }
}

#[test]
fn ordered_expected_sequence_is_received() {
    let ctx = open_chain(Order::Ordered).with_recv_sequence(
        default_port(),
        default_channel(),
        Sequence::new(1),
    );
    let out = process(&ctx, msg(good_packet(1), Height::new(1, 7)), true).unwrap();
    let PacketResult::Recv(res) = out.result;
    assert_eq!(res.seq_number, Sequence::new(2));
    assert_eq!(res.seq, Sequence::new(1));
    assert_eq!(res.receipt, None);
    assert_eq!(out.events.len(), 1);
    match &out.events[0] {
        IbcEvent::ReceivePacket(ev) => {
            assert_eq!(ev.height, Height::zero());
            assert_eq!(ev.packet.sequence, Sequence::new(1));
        }
    }
    assert_eq!(out.log, vec!["success: packet receive".to_string()]);
}

#[test]
fn ordered_wrong_sequence_is_refused() {
    let ctx = open_chain(Order::Ordered).with_recv_sequence(
        default_port(),
        default_channel(),
        Sequence::new(1),
    );
    let err = process(&ctx, msg(good_packet(2), Height::new(1, 7)), true).unwrap_err();
    match err {
        ChannelError::InvalidPacketSequence(got, expected) => {
            assert_eq!(got, Sequence::new(2));
            assert_eq!(expected, Sequence::new(1));
        }
        other => panic!("unexpected error {:?}", other),
    }
}

#[test]
fn ordered_acceptance_then_commit_advances_counter() {
    let mut ctx = open_chain(Order::Ordered).with_recv_sequence(
        default_port(),
        default_channel(),
        Sequence::new(4),
    );
    let out = process(&ctx, msg(good_packet(4), Height::new(1, 7)), true).unwrap();
    let PacketResult::Recv(res) = out.result;
    ctx.store_recv_result(&res);
    assert_eq!(
        ctx.get_next_sequence_recv(&default_port(), &default_channel()),
        Some(Sequence::new(5))
    );
    let err = process(&ctx, msg(good_packet(4), Height::new(1, 7)), true).unwrap_err();
    assert!(matches!(err, ChannelError::InvalidPacketSequence(g, e) if g.value == 4 && e.value == 5));
    assert!(process(&ctx, msg(good_packet(5), Height::new(1, 7)), true).is_ok());
}

#[test]
fn ordered_without_counter_is_refused() {
    let ctx = open_chain(Order::Ordered);
    let err = process(&ctx, msg(good_packet(1), Height::new(1, 7)), true).unwrap_err();
    assert!(matches!(err, ChannelError::MissingNextRecvSeq));
}

#[test]
fn unordered_first_receipt_recorded() {
    let ctx = open_chain(Order::Unordered);
    let out = process(&ctx, msg(good_packet(5), Height::new(1, 7)), true).unwrap();
    let PacketResult::Recv(res) = out.result;
    assert_eq!(res.receipt, Some(Receipt::Recorded));
    assert_eq!(res.seq, Sequence::new(5));
    assert_eq!(res.seq_number, Sequence::new(1));
    assert_eq!(res.port_id.name, "defaultPort");
    assert_eq!(res.channel_id.name, "channel-0");
}

#[test]
fn unordered_second_delivery_refused() {
    let mut ctx = open_chain(Order::Unordered);
    let out = process(&ctx, msg(good_packet(5), Height::new(1, 7)), true).unwrap();
    let PacketResult::Recv(res) = out.result;
    ctx.store_recv_result(&res);
    assert_eq!(
        ctx.get_packet_receipt(&default_port(), &default_channel(), Sequence::new(5)),
        Some(Receipt::Recorded)
    );
    let err = process(&ctx, msg(good_packet(5), Height::new(1, 7)), true).unwrap_err();
    assert!(matches!(err, ChannelError::PacketAlreadyReceived(s) if s.value == 5));
    // Another sequence on the same channel is still accepted.
    assert!(process(&ctx, msg(good_packet(6), Height::new(1, 7)), true).is_ok());
}

#[test]
fn expired_timestamp_refused_whatever_the_proofs() {
    let ctx = open_chain(Order::Unordered).with_timestamp(Timestamp::from_nanoseconds(10));
    for verified in [true, false] {
        let err = process(&ctx, msg(packet(1, Height::new(1, 7), 9), Height::new(1, 7)), verified)
            .unwrap_err();
        assert!(matches!(err, ChannelError::LowPacketTimestamp));
    }
    // A deadline equal to the host time has not passed.
    assert!(process(&ctx, msg(packet(1, Height::new(1, 7), 10), Height::new(1, 7)), true).is_ok());
}

#[test]
fn reached_timeout_height_refused_whatever_the_proofs() {
    let ctx = open_chain(Order::Unordered);
    for timeout in [Height::new(1, 6), Height::new(1, 2), Height::new(0, 100)] {
        for verified in [true, false] {
            let err = process(&ctx, msg(packet(1, timeout, 0), Height::new(1, 7)), verified)
                .unwrap_err();
            match err {
                ChannelError::LowPacketHeight(host, t) => {
                    assert_eq!(host, Height::new(1, 6));
                    assert_eq!(t, timeout);
                }
                other => panic!("unexpected error {:?}", other),
            }
        }
    }
    // A zero timeout height means no height timeout.
    assert!(process(&ctx, msg(packet(1, Height::new(0, 0), 0), Height::new(1, 7)), true).is_ok());
}

#[test]
fn channel_not_open_refused() {
    for state in [State::Init, State::TryOpen, State::Closed] {
        let ctx = open_chain(Order::Unordered).with_channel(
            default_port(),
            default_channel(),
            channel_end(state, Order::Unordered),
        );
        let err = process(&ctx, msg(good_packet(1), Height::new(1, 7)), true).unwrap_err();
        match err {
            ChannelError::InvalidChannelState(c, s) => {
                assert_eq!(c.name, "channel-0");
                assert_eq!(s, state);
            }
            other => panic!("unexpected error {:?}", other),
        }
    }
}

#[test]
fn missing_channel_refused() {
    let ctx = ChainState::new(Height::new(1, 6), Timestamp::none());
    let err = process(&ctx, msg(good_packet(1), Height::new(1, 7)), true).unwrap_err();
    assert!(matches!(err, ChannelError::ChannelNotFound(p, c) if p.name == "defaultPort" && c.name == "channel-0"));
}

#[test]
fn missing_capability_refused() {
    let ctx = ChainState::new(Height::new(1, 6), Timestamp::none())
        .with_connection(default_connection(), connection_end(ConnectionState::Open))
        .with_channel(default_port(), default_channel(), channel_end(State::Open, Order::Unordered));
    let err = process(&ctx, msg(good_packet(1), Height::new(1, 7)), true).unwrap_err();
    assert!(matches!(err, ChannelError::NoPortCapability(p) if p.name == "defaultPort"));
}

#[test]
fn wrong_counterparty_refused() {
    let mut p = good_packet(1);
    p.source_channel = chan("channel-9");
    let err = process(&open_chain(Order::Unordered), msg(p, Height::new(1, 7)), true).unwrap_err();
    assert!(matches!(err, ChannelError::InvalidPacketCounterparty(p, c) if p.name == "defaultPort" && c.name == "channel-9"));
}

#[test]
fn channel_without_hops_refused() {
    let end = ChannelEnd::new(
        State::Open,
        Order::Unordered,
        Counterparty::new(default_port(), Some(default_channel())),
        vec![],
        "ics20".to_string(),
    );
    let ctx = open_chain(Order::Unordered).with_channel(default_port(), default_channel(), end);
    let err = process(&ctx, msg(good_packet(1), Height::new(1, 7)), true).unwrap_err();
    assert!(matches!(err, ChannelError::InvalidConnectionHopsLength));
}

#[test]
fn missing_connection_refused() {
    let ctx = ChainState::new(Height::new(1, 6), Timestamp::none())
        .with_port_capability(default_port())
        .with_channel(default_port(), default_channel(), channel_end(State::Open, Order::Unordered));
    let err = process(&ctx, msg(good_packet(1), Height::new(1, 7)), true).unwrap_err();
    assert!(matches!(err, ChannelError::MissingConnection(c) if c.name == "defaultConnection-0"));
}

#[test]
fn connection_not_open_refused() {
    let ctx = open_chain(Order::Unordered)
        .with_connection(default_connection(), connection_end(ConnectionState::TryOpen));
    let err = process(&ctx, msg(good_packet(1), Height::new(1, 7)), true).unwrap_err();
    assert!(matches!(err, ChannelError::ConnectionNotOpen(c) if c.name == "defaultConnection-0"));
}

#[test]
fn failed_proof_refused() {
    let ctx = open_chain(Order::Unordered);
    let err = process(&ctx, msg(good_packet(3), Height::new(1, 7)), false).unwrap_err();
    assert!(matches!(err, ChannelError::PacketVerificationFailed(s) if s.value == 3));
}

#[test]
fn later_entries_shadow_earlier_ones() {
    let ctx = open_chain(Order::Ordered)
        .with_recv_sequence(default_port(), default_channel(), Sequence::new(1))
        .with_recv_sequence(default_port(), default_channel(), Sequence::new(7));
    assert_eq!(
        ctx.get_next_sequence_recv(&default_port(), &default_channel()),
        Some(Sequence::new(7))
    );
    assert_eq!(ctx.get_next_sequence_recv(&port("other"), &default_channel()), None);
    assert!(ctx.authenticated_capability(&default_port()));
    assert!(!ctx.authenticated_capability(&port("other")));
    assert!(ctx.connection_end(&conn("other")).is_none());
    assert_eq!(
        ctx.channel_end(&default_port(), &default_channel()).map(|c| c.ordering),
        Some(Order::Ordered)
    );
}

#[test]
fn height_and_timestamp_helpers() {
    assert!(Height::new(0, 9).lt(&Height::new(1, 0)));
    assert!(Height::new(1, 5).le(&Height::new(1, 5)));
    assert!(!Height::new(1, 6).le(&Height::new(1, 5)));
    assert!(Height::new(3, 0).is_zero());
    assert!(!Height::new(0, 1).is_zero());
    let now = Timestamp::from_nanoseconds(5);
    assert_eq!(now.check_expiry(&Timestamp::from_nanoseconds(4)), Expiry::Expired);
    assert_eq!(now.check_expiry(&Timestamp::from_nanoseconds(5)), Expiry::NotExpired);
    assert_eq!(now.check_expiry(&Timestamp::none()), Expiry::InvalidTimestamp);
    assert_eq!(Sequence::new(41).increment(), Sequence::new(42));
}

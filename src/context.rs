use vstd::prelude::*;

use crate::channel::{ChannelEnd, ConnectionEnd, Receipt};
use crate::height::{Height, Sequence, Timestamp};
use crate::ids::{ChannelId, ConnectionId, PortId};

verus! {

/// A channel end stored under its port and channel.
#[derive(Clone, Debug)]
pub struct ChannelEntry {
    pub port_id: PortId,
    pub channel_id: ChannelId,
    pub end: ChannelEnd,
}

/// A connection end stored under its identifier.
#[derive(Clone, Debug)]
pub struct ConnectionEntry {
    pub connection_id: ConnectionId,
    pub end: ConnectionEnd,
}

/// A sequence counter stored under a port and channel.
#[derive(Clone, Debug)]
pub struct SequenceEntry {
    pub port_id: PortId,
    pub channel_id: ChannelId,
    pub sequence: Sequence,
}

/// A receipt stored under a port, channel and sequence.
#[derive(Clone, Debug)]
pub struct ReceiptEntry {
    pub port_id: PortId,
    pub channel_id: ChannelId,
    pub sequence: Sequence,
    pub receipt: Receipt,
}

/// A read-only snapshot of the channel-layer state of a chain.
///
/// Each table is searched from the front, so an entry shadows the entries
/// stored after it under the same key; the `with_*` builders add at the front.
#[derive(Clone, Debug)]
pub struct ChainState {
    pub channels: Vec<ChannelEntry>,
    pub connections: Vec<ConnectionEntry>,
    pub port_capabilities: Vec<PortId>,
    pub send_sequences: Vec<SequenceEntry>,
    pub recv_sequences: Vec<SequenceEntry>,
    pub receipts: Vec<ReceiptEntry>,
    pub host_height: Height,
    pub host_timestamp: Timestamp,
}

/// The channel end stored under `port` and `channel`, first entry first.
pub open spec fn channel_in(s: Seq<ChannelEntry>, port: Seq<char>, channel: Seq<char>) -> Option<
    ChannelEnd,
>
    decreases s.len(),
{
    if s.len() == 0 {
        None
    } else if s[0].port_id@ == port && s[0].channel_id@ == channel {
        Some(s[0].end)
    } else {
        channel_in(s.drop_first(), port, channel)
    }
}

/// The connection end stored under `id`, first entry first.
pub open spec fn connection_in(s: Seq<ConnectionEntry>, id: Seq<char>) -> Option<ConnectionEnd>
    decreases s.len(),
{
    if s.len() == 0 {
        None
    } else if s[0].connection_id@ == id {
        Some(s[0].end)
    } else {
        connection_in(s.drop_first(), id)
    }
}

/// The sequence stored under `port` and `channel`, first entry first.
pub open spec fn sequence_in(s: Seq<SequenceEntry>, port: Seq<char>, channel: Seq<char>) -> Option<
    Sequence,
>
    decreases s.len(),
{
    if s.len() == 0 {
        None
    } else if s[0].port_id@ == port && s[0].channel_id@ == channel {
        Some(s[0].sequence)
    } else {
        sequence_in(s.drop_first(), port, channel)
    }
}

/// The receipt stored under `port`, `channel` and `seq`, first entry first.
pub open spec fn receipt_in(
    s: Seq<ReceiptEntry>,
    port: Seq<char>,
    channel: Seq<char>,
    seq: Sequence,
) -> Option<Receipt>
    decreases s.len(),
{
    if s.len() == 0 {
        None
    } else if s[0].port_id@ == port && s[0].channel_id@ == channel && s[0].sequence == seq {
        Some(s[0].receipt)
    } else {
        receipt_in(s.drop_first(), port, channel, seq)
    }
}

/// Some capability among `s` is bound to `port`.
pub open spec fn capability_in(s: Seq<PortId>, port: Seq<char>) -> bool {
    exists|i: int| 0 <= i < s.len() && #[trigger] s[i]@ == port
}

proof fn lemma_tail<A>(s: Seq<A>, i: int)
    requires
        0 <= i < s.len(),
    ensures
        s.subrange(i, s.len() as int).drop_first() == s.subrange(i + 1, s.len() as int),
        s.subrange(i, s.len() as int)[0] == s[i],
{
    assert(s.subrange(i, s.len() as int).drop_first() =~= s.subrange(i + 1, s.len() as int));
}

proof fn lemma_whole<A>(s: Seq<A>)
    ensures
        s.subrange(0, s.len() as int) == s,
{
    assert(s.subrange(0, s.len() as int) =~= s);
}

/// `a` and `b` agree everywhere but in `channels`.
pub open spec fn same_except_channels(a: ChainState, b: ChainState) -> bool {
    &&& a.connections@ == b.connections@
    &&& a.port_capabilities@ == b.port_capabilities@
    &&& a.send_sequences@ == b.send_sequences@
    &&& a.recv_sequences@ == b.recv_sequences@
    &&& a.receipts@ == b.receipts@
    &&& a.host_height == b.host_height
    &&& a.host_timestamp == b.host_timestamp
}

/// `a` and `b` agree everywhere but in `connections`.
pub open spec fn same_except_connections(a: ChainState, b: ChainState) -> bool {
    &&& a.channels@ == b.channels@
    &&& a.port_capabilities@ == b.port_capabilities@
    &&& a.send_sequences@ == b.send_sequences@
    &&& a.recv_sequences@ == b.recv_sequences@
    &&& a.receipts@ == b.receipts@
    &&& a.host_height == b.host_height
    &&& a.host_timestamp == b.host_timestamp
}

/// `a` and `b` agree everywhere but in `port_capabilities`.
pub open spec fn same_except_port_capabilities(a: ChainState, b: ChainState) -> bool {
    &&& a.channels@ == b.channels@
    &&& a.connections@ == b.connections@
    &&& a.send_sequences@ == b.send_sequences@
    &&& a.recv_sequences@ == b.recv_sequences@
    &&& a.receipts@ == b.receipts@
    &&& a.host_height == b.host_height
    &&& a.host_timestamp == b.host_timestamp
}

/// `a` and `b` agree everywhere but in `send_sequences`.
pub open spec fn same_except_send_sequences(a: ChainState, b: ChainState) -> bool {
    &&& a.channels@ == b.channels@
    &&& a.connections@ == b.connections@
    &&& a.port_capabilities@ == b.port_capabilities@
    &&& a.recv_sequences@ == b.recv_sequences@
    &&& a.receipts@ == b.receipts@
    &&& a.host_height == b.host_height
    &&& a.host_timestamp == b.host_timestamp
}

/// `a` and `b` agree everywhere but in `recv_sequences`.
pub open spec fn same_except_recv_sequences(a: ChainState, b: ChainState) -> bool {
    &&& a.channels@ == b.channels@
    &&& a.connections@ == b.connections@
    &&& a.port_capabilities@ == b.port_capabilities@
    &&& a.send_sequences@ == b.send_sequences@
    &&& a.receipts@ == b.receipts@
    &&& a.host_height == b.host_height
    &&& a.host_timestamp == b.host_timestamp
}

/// `a` and `b` agree everywhere but in `receipts`.
pub open spec fn same_except_receipts(a: ChainState, b: ChainState) -> bool {
    &&& a.channels@ == b.channels@
    &&& a.connections@ == b.connections@
    &&& a.port_capabilities@ == b.port_capabilities@
    &&& a.send_sequences@ == b.send_sequences@
    &&& a.recv_sequences@ == b.recv_sequences@
    &&& a.host_height == b.host_height
    &&& a.host_timestamp == b.host_timestamp
}

impl ChainState {
    /// A chain with empty tables at the given height and time.
    pub fn new(host_height: Height, host_timestamp: Timestamp) -> (r: ChainState)
        ensures
            r.channels@.len() == 0,
            r.connections@.len() == 0,
            r.port_capabilities@.len() == 0,
            r.send_sequences@.len() == 0,
            r.recv_sequences@.len() == 0,
            r.receipts@.len() == 0,
            r.host_height == host_height,
            r.host_timestamp == host_timestamp,
    {
        ChainState {
            channels: Vec::new(),
            connections: Vec::new(),
            port_capabilities: Vec::new(),
            send_sequences: Vec::new(),
            recv_sequences: Vec::new(),
            receipts: Vec::new(),
            host_height,
            host_timestamp,
        }
    }

    pub open spec fn spec_channel_end(&self, port: Seq<char>, channel: Seq<char>) -> Option<
        ChannelEnd,
    > {
        channel_in(self.channels@, port, channel)
    }

    pub open spec fn spec_connection_end(&self, id: Seq<char>) -> Option<ConnectionEnd> {
        connection_in(self.connections@, id)
    }

    pub open spec fn spec_next_sequence_recv(&self, port: Seq<char>, channel: Seq<char>) -> Option<
        Sequence,
    > {
        sequence_in(self.recv_sequences@, port, channel)
    }

    pub open spec fn spec_packet_receipt(
        &self,
        port: Seq<char>,
        channel: Seq<char>,
        seq: Sequence,
    ) -> Option<Receipt> {
        receipt_in(self.receipts@, port, channel, seq)
    }

    pub open spec fn spec_has_capability(&self, port: Seq<char>) -> bool {
        capability_in(self.port_capabilities@, port)
    }

    /// Every stored receive sequence has a successor in `u64`.
    pub open spec fn recv_sequences_bounded(&self) -> bool {
        forall|i: int|
            0 <= i < self.recv_sequences@.len() ==> #[trigger] self.recv_sequences@[i].sequence.value
                < u64::MAX
    }

    /// The channel end stored under `port` and `channel`.
    pub fn channel_end(&self, port: &PortId, channel: &ChannelId) -> (r: Option<&ChannelEnd>)
        ensures
            match r {
                Some(e) => self.spec_channel_end(port@, channel@) == Some(*e),
                None => self.spec_channel_end(port@, channel@) is None,
            },
    {
        proof {
            lemma_whole(self.channels@);
        }
        let mut i: usize = 0;
        while i < self.channels.len()
            invariant
                i <= self.channels@.len(),
                channel_in(self.channels@, port@, channel@) == channel_in(
                    self.channels@.subrange(i as int, self.channels@.len() as int),
                    port@,
                    channel@,
                ),
            decreases self.channels@.len() - i,
        {
            proof {
                lemma_tail(self.channels@, i as int);
            }
            if self.channels[i].port_id.same(port) && self.channels[i].channel_id.same(channel) {
                assert(self.channels@.subrange(i as int, self.channels@.len() as int).len() > 0);
                return Some(&self.channels[i].end);
            }
            i = i + 1;
        }
        None
    }

    /// The connection end stored under `id`.
    pub fn connection_end(&self, id: &ConnectionId) -> (r: Option<&ConnectionEnd>)
        ensures
            match r {
                Some(e) => self.spec_connection_end(id@) == Some(*e),
                None => self.spec_connection_end(id@) is None,
            },
    {
        proof {
            lemma_whole(self.connections@);
        }
        let mut i: usize = 0;
        while i < self.connections.len()
            invariant
                i <= self.connections@.len(),
                connection_in(self.connections@, id@) == connection_in(
                    self.connections@.subrange(i as int, self.connections@.len() as int),
                    id@,
                ),
            decreases self.connections@.len() - i,
        {
            proof {
                lemma_tail(self.connections@, i as int);
            }
            if self.connections[i].connection_id.same(id) {
                assert(self.connections@.subrange(i as int, self.connections@.len() as int).len() > 0);
                return Some(&self.connections[i].end);
            }
            i = i + 1;
        }
        None
    }

    /// The next sequence expected on receive for `port` and `channel`.
    pub fn get_next_sequence_recv(&self, port: &PortId, channel: &ChannelId) -> (r: Option<
        Sequence,
    >)
        ensures
            r == self.spec_next_sequence_recv(port@, channel@),
    {
        proof {
            lemma_whole(self.recv_sequences@);
        }
        let mut i: usize = 0;
        while i < self.recv_sequences.len()
            invariant
                i <= self.recv_sequences@.len(),
                sequence_in(self.recv_sequences@, port@, channel@) == sequence_in(
                    self.recv_sequences@.subrange(i as int, self.recv_sequences@.len() as int),
                    port@,
                    channel@,
                ),
            decreases self.recv_sequences@.len() - i,
        {
            proof {
                lemma_tail(self.recv_sequences@, i as int);
            }
            if self.recv_sequences[i].port_id.same(port) && self.recv_sequences[i].channel_id.same(channel) {
                assert(self.recv_sequences@.subrange(i as int, self.recv_sequences@.len() as int).len() > 0);
                return Some(self.recv_sequences[i].sequence);
            }
            i = i + 1;
        }
        None
    }

    /// The receipt stored for `seq` on `port` and `channel`.
    pub fn get_packet_receipt(&self, port: &PortId, channel: &ChannelId, seq: Sequence) -> (r:
        Option<Receipt>)
        ensures
            r == self.spec_packet_receipt(port@, channel@, seq),
    {
        proof {
            lemma_whole(self.receipts@);
        }
        let mut i: usize = 0;
        while i < self.receipts.len()
            invariant
                i <= self.receipts@.len(),
                receipt_in(self.receipts@, port@, channel@, seq) == receipt_in(
                    self.receipts@.subrange(i as int, self.receipts@.len() as int),
                    port@,
                    channel@,
                    seq,
                ),
            decreases self.receipts@.len() - i,
        {
            proof {
                lemma_tail(self.receipts@, i as int);
            }
            if self.receipts[i].port_id.same(port) && self.receipts[i].channel_id.same(channel) && self.receipts[i].sequence.value
                == seq.value {
                assert(self.receipts@.subrange(i as int, self.receipts@.len() as int).len() > 0);
                return Some(self.receipts[i].receipt);
            }
            i = i + 1;
        }
        None
    }

    /// A capability is bound to `port`.
    pub fn authenticated_capability(&self, port: &PortId) -> (r: bool)
        ensures
            r == self.spec_has_capability(port@),
    {
        let mut i: usize = 0;
        while i < self.port_capabilities.len()
            invariant
                i <= self.port_capabilities@.len(),
                forall|j: int| 0 <= j < i ==> #[trigger] self.port_capabilities@[j]@ != port@,
            decreases self.port_capabilities@.len() - i,
        {
            if self.port_capabilities[i].same(port) {
                assert(self.port_capabilities@[i as int]@ == port@);
                return true;
            }
            i = i + 1;
        }
        false
    }

    /// Adds a channel end under `port_id` and `channel_id`.
    pub fn with_channel(self, port_id: PortId, channel_id: ChannelId, end: ChannelEnd) -> (r: ChainState)
        ensures
            r.channels@ == seq![ChannelEntry { port_id, channel_id, end }].add(self.channels@),
            same_except_channels(self, r),
    {
        let mut r = self;
        let entry = ChannelEntry { port_id, channel_id, end };
        r.channels.insert(0, entry);
        proof {
            assert(r.channels@ =~= seq![entry].add(self.channels@));
        }
        r
    }

    /// Adds a connection end under `connection_id`.
    pub fn with_connection(self, connection_id: ConnectionId, end: ConnectionEnd) -> (r: ChainState)
        ensures
            r.connections@ == seq![ConnectionEntry { connection_id, end }].add(self.connections@),
            same_except_connections(self, r),
    {
        let mut r = self;
        let entry = ConnectionEntry { connection_id, end };
        r.connections.insert(0, entry);
        proof {
            assert(r.connections@ =~= seq![entry].add(self.connections@));
        }
        r
    }

    /// Binds a capability to `port_id`.
    pub fn with_port_capability(self, port_id: PortId) -> (r: ChainState)
        ensures
            r.port_capabilities@ == seq![port_id].add(self.port_capabilities@),
            same_except_port_capabilities(self, r),
    {
        let mut r = self;
        let entry = port_id;
        r.port_capabilities.insert(0, entry);
        proof {
            assert(r.port_capabilities@ =~= seq![entry].add(self.port_capabilities@));
        }
        r
    }

    /// Sets the next sequence to send on `port_id` and `channel_id`.
    pub fn with_send_sequence(self, port_id: PortId, channel_id: ChannelId, sequence: Sequence) -> (r: ChainState)
        ensures
            r.send_sequences@ == seq![SequenceEntry { port_id, channel_id, sequence }].add(self.send_sequences@),
            same_except_send_sequences(self, r),
    {
        let mut r = self;
        let entry = SequenceEntry { port_id, channel_id, sequence };
        r.send_sequences.insert(0, entry);
        proof {
            assert(r.send_sequences@ =~= seq![entry].add(self.send_sequences@));
        }
        r
    }

    /// Sets the next sequence expected on receive on `port_id` and `channel_id`.
    pub fn with_recv_sequence(self, port_id: PortId, channel_id: ChannelId, sequence: Sequence) -> (r: ChainState)
        ensures
            r.recv_sequences@ == seq![SequenceEntry { port_id, channel_id, sequence }].add(self.recv_sequences@),
            same_except_recv_sequences(self, r),
    {
        let mut r = self;
        let entry = SequenceEntry { port_id, channel_id, sequence };
        r.recv_sequences.insert(0, entry);
        proof {
            assert(r.recv_sequences@ =~= seq![entry].add(self.recv_sequences@));
        }
        r
    }

    /// Stores a receipt for `sequence` on `port_id` and `channel_id`.
    pub fn with_packet_receipt(self, port_id: PortId, channel_id: ChannelId, sequence: Sequence) -> (r: ChainState)
        ensures
            r.receipts@ == seq![ReceiptEntry { port_id, channel_id, sequence, receipt: Receipt::Recorded }].add(self.receipts@),
            same_except_receipts(self, r),
    {
        let mut r = self;
        let entry = ReceiptEntry { port_id, channel_id, sequence, receipt: Receipt::Recorded };
        r.receipts.insert(0, entry);
        proof {
            assert(r.receipts@ =~= seq![entry].add(self.receipts@));
        }
        r
    }

    /// Moves the host to `height`.
    pub fn with_height(self, height: Height) -> (r: ChainState)
        ensures
            r == (ChainState { host_height: height, ..self }),
    {
        ChainState { host_height: height, ..self }
    }

    /// Moves the host's clock to `timestamp`.
    pub fn with_timestamp(self, timestamp: Timestamp) -> (r: ChainState)
        ensures
            r == (ChainState { host_timestamp: timestamp, ..self }),
    {
        ChainState { host_timestamp: timestamp, ..self }
    }
}

} // verus!

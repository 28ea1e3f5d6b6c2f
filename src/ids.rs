use vstd::prelude::*;

verus! {

/// Identifier of a port.
#[derive(Clone, Debug)]
pub struct PortId {
    pub name: String,
}

/// Identifier of a channel.
#[derive(Clone, Debug)]
pub struct ChannelId {
    pub name: String,
}

/// Identifier of a connection.
#[derive(Clone, Debug)]
pub struct ConnectionId {
    pub name: String,
}

/// Identifier of a light client on the host chain.
#[derive(Clone, Debug)]
pub struct ClientId {
    pub name: String,
}

/// Identifier of a chain.
#[derive(Clone, Debug)]
pub struct ChainId {
    pub name: String,
}

impl View for PortId {
    type V = Seq<char>;

    open spec fn view(&self) -> Seq<char> {
        self.name@
    }
}

impl View for ChannelId {
    type V = Seq<char>;

    open spec fn view(&self) -> Seq<char> {
        self.name@
    }
}

impl View for ConnectionId {
    type V = Seq<char>;

    open spec fn view(&self) -> Seq<char> {
        self.name@
    }
}

impl View for ClientId {
    type V = Seq<char>;

    open spec fn view(&self) -> Seq<char> {
        self.name@
    }
}

impl View for ChainId {
    type V = Seq<char>;

    open spec fn view(&self) -> Seq<char> {
        self.name@
    }
}

impl PortId {
    pub fn new(name: String) -> (r: PortId)
        ensures
            r.name == name,
    {
        PortId { name }
    }

    /// An identical copy.
    pub fn duplicate(&self) -> (r: PortId)
        ensures
            r == *self,
    {
        PortId { name: self.name.clone() }
    }

    pub fn same(&self, other: &PortId) -> (r: bool)
        ensures
            r == (self@ == other@),
    {
        self.name == other.name
    }
}

impl ChannelId {
    pub fn new(name: String) -> (r: ChannelId)
        ensures
            r.name == name,
    {
        ChannelId { name }
    }

    /// An identical copy.
    pub fn duplicate(&self) -> (r: ChannelId)
        ensures
            r == *self,
    {
        ChannelId { name: self.name.clone() }
    }

    pub fn same(&self, other: &ChannelId) -> (r: bool)
        ensures
            r == (self@ == other@),
    {
        self.name == other.name
    }
}

impl ConnectionId {
    pub fn new(name: String) -> (r: ConnectionId)
        ensures
            r.name == name,
    {
        ConnectionId { name }
    }

    /// An identical copy.
    pub fn duplicate(&self) -> (r: ConnectionId)
        ensures
            r == *self,
    {
        ConnectionId { name: self.name.clone() }
    }

    pub fn same(&self, other: &ConnectionId) -> (r: bool)
        ensures
            r == (self@ == other@),
    {
        self.name == other.name
    }
}

impl ClientId {
    pub fn new(name: String) -> (r: ClientId)
        ensures
            r.name == name,
    {
        ClientId { name }
    }

    /// An identical copy.
    pub fn duplicate(&self) -> (r: ClientId)
        ensures
            r == *self,
    {
        ClientId { name: self.name.clone() }
    }
}

impl ChainId {
    pub fn new(name: String) -> (r: ChainId)
        ensures
            r.name == name,
    {
        ChainId { name }
    }

    /// An identical copy.
    pub fn duplicate(&self) -> (r: ChainId)
        ensures
            r == *self,
    {
        ChainId { name: self.name.clone() }
    }
}

} // verus!

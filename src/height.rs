use vstd::prelude::*;

verus! {

/// A height on a chain: a revision number and a height within that revision.
#[derive(Clone, Copy, Debug, PartialEq, Eq, Structural)]
pub struct Height {
    pub revision_number: u64,
    pub revision_height: u64,
}

impl Height {
    /// Heights are ordered by revision number first, then by height.
    pub open spec fn spec_lt(self, other: Height) -> bool {
        self.revision_number < other.revision_number || (self.revision_number
            == other.revision_number && self.revision_height < other.revision_height)
    }

    pub open spec fn spec_le(self, other: Height) -> bool {
        self.spec_lt(other) || self == other
    }

    pub fn new(revision_number: u64, revision_height: u64) -> (h: Height)
        ensures
            h.revision_number == revision_number,
            h.revision_height == revision_height,
    {
        Height { revision_number, revision_height }
    }

    pub fn zero() -> (h: Height)
        ensures
            h.revision_number == 0,
            h.revision_height == 0,
    {
        Height { revision_number: 0, revision_height: 0 }
    }

    pub fn is_zero(&self) -> (r: bool)
        ensures
            r == (self.revision_height == 0),
    {
        self.revision_height == 0
    }

    pub fn lt(&self, other: &Height) -> (r: bool)
        ensures
            r == self.spec_lt(*other),
    {
        self.revision_number < other.revision_number || (self.revision_number
            == other.revision_number && self.revision_height < other.revision_height)
    }

    pub fn le(&self, other: &Height) -> (r: bool)
        ensures
            r == self.spec_le(*other),
    {
        self.lt(other) || *self == *other
    }
}

/// A point in time in nanoseconds since the Unix epoch; zero stands for "not set".
#[derive(Clone, Copy, Debug, PartialEq, Eq, Structural)]
pub struct Timestamp {
    pub nanoseconds: u64,
}

/// How a host time relates to a deadline.
#[derive(Clone, Copy, Debug, PartialEq, Eq, Structural)]
pub enum Expiry {
    Expired,
    NotExpired,
    InvalidTimestamp,
}

impl Timestamp {
    pub fn from_nanoseconds(nanoseconds: u64) -> (t: Timestamp)
        ensures
            t.nanoseconds == nanoseconds,
    {
        Timestamp { nanoseconds }
    }

    pub fn none() -> (t: Timestamp)
        ensures
            t.nanoseconds == 0,
    {
        Timestamp { nanoseconds: 0 }
    }

    pub open spec fn is_set(self) -> bool {
        self.nanoseconds != 0
    }

    /// The deadline `other` has passed at time `self`.
    pub open spec fn spec_expired(self, other: Timestamp) -> bool {
        self.is_set() && other.is_set() && self.nanoseconds > other.nanoseconds
    }

    pub open spec fn spec_check_expiry(self, other: Timestamp) -> Expiry {
        if !self.is_set() || !other.is_set() {
            Expiry::InvalidTimestamp
        } else if self.nanoseconds > other.nanoseconds {
            Expiry::Expired
        } else {
            Expiry::NotExpired
        }
    }

    /// Compares this time, taken as now, with the deadline `other`.
    pub fn check_expiry(&self, other: &Timestamp) -> (r: Expiry)
        ensures
            r == self.spec_check_expiry(*other),
            (r == Expiry::Expired) == self.spec_expired(*other),
    {
        if self.nanoseconds == 0 || other.nanoseconds == 0 {
            Expiry::InvalidTimestamp
        } else if self.nanoseconds > other.nanoseconds {
            Expiry::Expired
        } else {
            Expiry::NotExpired
        }
    }
}

/// A packet sequence number.
#[derive(Clone, Copy, Debug, PartialEq, Eq, Structural)]
pub struct Sequence {
    pub value: u64,
}

impl Sequence {
    pub fn new(value: u64) -> (s: Sequence)
        ensures
            s.value == value,
    {
        Sequence { value }
    }

    /// The sequence number that follows this one.
    pub fn increment(&self) -> (s: Sequence)
        requires
            self.value < u64::MAX,
        ensures
            s.value == self.value + 1,
    {
        Sequence { value: self.value + 1 }
    }
}

} // verus!

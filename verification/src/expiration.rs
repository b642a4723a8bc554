//! Time points and expiration markers.
//!
//! The host runtime stamps every call with the current block height and
//! block time (in nanoseconds).  An order's start or end marker can name
//! either scale, or never expire at all.

use vstd::prelude::*;

verus! {

/// The host-provided clock: the block under which a call executes.
#[derive(Clone, Copy, Debug, PartialEq, Eq, Structural)]
pub struct BlockInfo {
    pub height: u64,
    /// Block time in nanoseconds since the epoch.
    pub time: u64,
}

/// A point after which an order is expired: a block height, a block time
/// in nanoseconds, or never.
#[derive(Clone, Copy, Debug, PartialEq, Eq, Structural)]
pub enum Expiration {
    AtHeight(u64),
    AtTime(u64),
    Never,
}

impl Expiration {
    /// An expiration has passed once the block reaches its height or time;
    /// `Never` never passes.
    pub open spec fn spec_is_expired(self, block: BlockInfo) -> bool {
        match self {
            Expiration::AtHeight(h) => block.height >= h,
            Expiration::AtTime(t) => block.time >= t,
            Expiration::Never => false,
        }
    }

    pub fn is_expired(&self, block: &BlockInfo) -> (r: bool)
        ensures
            r == self.spec_is_expired(*block),
    {
        match self {
            Expiration::AtHeight(h) => block.height >= *h,
            Expiration::AtTime(t) => block.time >= *t,
            Expiration::Never => false,
        }
    }

    /// Rank of the variant in the total order on expirations: all heights
    /// sort below all times, and `Never` sorts above everything.
    pub open spec fn spec_rank(self) -> int {
        match self {
            Expiration::AtHeight(_) => 0,
            Expiration::AtTime(_) => 1,
            Expiration::Never => 2,
        }
    }

    /// The total order on expirations: first by variant rank, then by the
    /// height or time value within a variant.
    pub open spec fn spec_le(self, other: Expiration) -> bool {
        if self.spec_rank() != other.spec_rank() {
            self.spec_rank() < other.spec_rank()
        } else {
            match (self, other) {
                (Expiration::AtHeight(a), Expiration::AtHeight(b)) => a <= b,
                (Expiration::AtTime(a), Expiration::AtTime(b)) => a <= b,
                _ => true,
            }
        }
    }

    pub open spec fn spec_lt(self, other: Expiration) -> bool {
        self.spec_le(other) && self != other
    }

    pub fn le(&self, other: &Expiration) -> (r: bool)
        ensures
            r == self.spec_le(*other),
    {
        match (self, other) {
            (Expiration::AtHeight(a), Expiration::AtHeight(b)) => a <= b,
            (Expiration::AtTime(a), Expiration::AtTime(b)) => a <= b,
            (Expiration::AtHeight(_), _) => true,
            (Expiration::AtTime(_), Expiration::Never) => true,
            (Expiration::Never, Expiration::Never) => true,
            _ => false,
        }
    }

    pub fn lt(&self, other: &Expiration) -> (r: bool)
        ensures
            r == self.spec_lt(*other),
    {
        match (self, other) {
            (Expiration::AtHeight(a), Expiration::AtHeight(b)) => a < b,
            (Expiration::AtTime(a), Expiration::AtTime(b)) => a < b,
            (Expiration::AtHeight(_), _) => true,
            (Expiration::AtTime(_), Expiration::Never) => true,
            _ => false,
        }
    }
}

} // verus!

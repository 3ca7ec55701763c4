//! The messages that the contract takes and the answers to its queries.

use crate::fee::FeeRate;
use vstd::prelude::*;

verus! {

/// Sets an auction up.
#[derive(Debug, Clone, PartialEq, Eq)]
pub struct InstantiateMsg {
    /// The owner of the auction; the contract itself where none is given.
    pub owner: Option<String>,
    /// The denom in which bids are paid.
    pub required_native_denom: String,
    /// The rate of the owner's fee, at most one per cent.
    pub fee: FeeRate,
}

#[derive(Debug, Clone, PartialEq, Eq)]
pub enum ExecuteMsg {
    /// Escrows the funds that come with the message as a bid.
    Bid {  },
    /// Closes the sale and pays the owner.
    Close {  },
    /// Hands the caller's escrow back, to `friend_rec` where one is given.
    Retract { friend_rec: Option<String> },
}

#[derive(Debug, Clone, PartialEq, Eq)]
pub enum QueryMsg {
    /// The total that `address` has bid.
    BidderTotalBid { address: String },
    /// The leading bidder and bid, and whether the sale is closed.
    HighestBidInfo {  },
    /// How many identities have placed a bid.
    TotalNumberOfParticipants {  },
}

/// The leading bid.
#[derive(Debug, Clone, PartialEq, Eq)]
pub struct BidEventInfoResponse {
    pub addr: Option<String>,
    pub bid_amount: Option<u128>,
    pub event_closed: bool,
}

/// The answer to a query, one variant for each kind of query.
#[derive(Debug, Clone, PartialEq, Eq)]
pub enum QueryResponse {
    BidderTotalBid(u128),
    HighestBidInfo(BidEventInfoResponse),
    TotalNumberOfParticipants(usize),
}

} // verus!

//! The ways in which a call can be turned down.

use vstd::prelude::*;

verus! {

/// Why a call was rejected. A rejected call leaves the records as they were.
#[derive(Debug, Clone, Copy, PartialEq, Eq, Structural)]
pub enum ContractError {
    /// A record that the call needs has never been written to the store, or
    /// cannot be read from it.
    Storage,
    /// The caller may not do this: somebody other than the owner closes the
    /// sale, or the winner asks for the escrow back.
    Unauthorized,
    /// A bid or a second close arrives after the sale was closed.
    AuctionClosed,
    /// Escrow is asked back while the sale is still open.
    AuctionOpen,
    /// The payment is not exactly one non-zero coin of the auction's denom.
    WrongPaymentAsset,
    /// The bidder's new total does not exceed the highest bid.
    BidTooLow,
    /// The caller never placed a bid.
    NoFundsToRetract,
    /// The caller's escrow was already handed back.
    AlreadyRetracted,
    /// An amount left the range of 128 bits.
    ArithmeticOverflow,
    /// A ratio was taken with a zero denominator.
    DivideByZero,
    /// The host does not accept an address that the caller supplied.
    InvalidIdentity,
    /// The fee rate offered at instantiation is above one per cent.
    InvalidFeeRate,
}

} // verus!

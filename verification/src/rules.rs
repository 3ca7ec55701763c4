//! The rules of the auction, as functions of the records and a call.
//!
//! For each kind of call a spec function says what the call does to the
//! records and what it answers, or why it is turned down. The entry points of
//! the contract are verified against these functions; the decisions that need
//! no store are executable here.

use crate::error::ContractError;
use crate::fee::{get_owner_fee_amount, owner_fee, FeeRate};
use crate::host::{must_pay, payment, AttributeView, Coin, MessageInfo, PayoutView, ResponseView};
use crate::state::{Config, ConfigView, Records};
use crate::text::decimal_text;
use vstd::prelude::*;

verus! {

/// A bid that the auction takes.
#[derive(Debug, Clone, Copy, PartialEq, Eq, Structural)]
pub struct AcceptedBid {
    /// What came with this message.
    pub paid: u128,
    /// The bidder's new total, which now leads.
    pub total: u128,
    /// The owner's fee, charged on what came with this message.
    pub fee: u128,
}

/// The payment that a bid brings: the sale must be open, and the message
/// must carry exactly one coin, of the auction's denom and not zero.
pub open spec fn payment_verdict(config: ConfigView, funds: Seq<Coin>) -> Result<
    u128,
    ContractError,
> {
    if !config.open {
        Err(ContractError::AuctionClosed)
    } else {
        match payment(funds, config.denom) {
            None => Err(ContractError::WrongPaymentAsset),
            Some(paid) => Ok(paid),
        }
    }
}

/// The verdict on a payment of `paid`, given the highest bid so far and what
/// the bidder has in escrow already. The bidder's new total must fit and
/// must exceed the highest bid: a tie is too low. The fee is charged on the
/// payment, not on the total.
pub open spec fn raise_verdict(config: ConfigView, highest: u128, prior: Option<u128>, paid: u128)
    -> Result<AcceptedBid, ContractError> {
    let total = paid + match prior {
        Some(amount) => amount,
        None => 0,
    };
    if total > u128::MAX {
        Err(ContractError::ArithmeticOverflow)
    } else if total <= highest {
        Err(ContractError::BidTooLow)
    } else {
        match owner_fee(paid, config.fee.atomics) {
            Err(e) => Err(e),
            Ok(fee) => Ok(AcceptedBid { paid, total: total as u128, fee }),
        }
    }
}

/// The verdict on a bid: on its payment, then on the total it brings.
pub open spec fn bid_verdict(
    config: ConfigView,
    highest: u128,
    prior: Option<u128>,
    funds: Seq<Coin>,
) -> Result<AcceptedBid, ContractError> {
    match payment_verdict(config, funds) {
        Err(e) => Err(e),
        Ok(paid) => raise_verdict(config, highest, prior, paid),
    }
}

/// What the owner receives for a winning `amount`: the amount less the fee
/// on the whole of it.
pub open spec fn proceeds(amount: u128, rate: FeeRate) -> Result<u128, ContractError> {
    match owner_fee(amount, rate.atomics) {
        Err(e) => Err(e),
        Ok(fee) => if fee > amount {
            Err(ContractError::ArithmeticOverflow)
        } else {
            Ok((amount - fee) as u128)
        },
    }
}

/// What a bidder gets back: the whole entry, where there is one that is not
/// yet zero.
pub open spec fn escrow_owed(entry: Option<u128>) -> Result<u128, ContractError> {
    match entry {
        None => Err(ContractError::NoFundsToRetract),
        Some(amount) => if amount == 0 {
            Err(ContractError::AlreadyRetracted)
        } else {
            Ok(amount)
        },
    }
}

/// Checks that the sale is open and takes the payment out of the message.
pub fn admit_payment(config: &Config, info: &MessageInfo) -> (r: Result<u128, ContractError>)
    ensures
        r == payment_verdict(config@, info.funds@),
{
    if !config.open_sale {
        return Err(ContractError::AuctionClosed);
    }
    match must_pay(info, &config.required_native_denom) {
        Ok(paid) => Ok(paid),
        Err(_) => Err(ContractError::WrongPaymentAsset),
    }
}

/// Decides whether a payment of `paid` takes the lead.
pub fn raise_bid(config: &Config, highest: u128, prior: Option<u128>, paid: u128) -> (r: Result<
    AcceptedBid,
    ContractError,
>)
    ensures
        r == raise_verdict(config@, highest, prior, paid),
{
    let before: u128 = match prior {
        Some(amount) => amount,
        None => 0,
    };
    let total: u128 = match paid.checked_add(before) {
        Some(total) => total,
        None => {
            return Err(ContractError::ArithmeticOverflow);
        },
    };
    if highest >= total {
        return Err(ContractError::BidTooLow);
    }
    match get_owner_fee_amount(paid, config.fee) {
        Ok(fee) => Ok(AcceptedBid { paid, total, fee }),
        Err(e) => Err(e),
    }
}

/// Computes what the owner receives for the winning amount.
pub fn owner_proceeds(amount: u128, rate: FeeRate) -> (r: Result<u128, ContractError>)
    ensures
        r == proceeds(amount, rate),
{
    let fee: u128 = match get_owner_fee_amount(amount, rate) {
        Ok(fee) => fee,
        Err(e) => {
            return Err(e);
        },
    };
    match amount.checked_sub(fee) {
        Some(rest) => Ok(rest),
        None => Err(ContractError::ArithmeticOverflow),
    }
}

/// Decides what a bidder with this ledger entry gets back.
pub fn escrow_due(entry: Option<u128>) -> (r: Result<u128, ContractError>)
    ensures
        r == escrow_owed(entry),
{
    match entry {
        None => Err(ContractError::NoFundsToRetract),
        Some(amount) => if amount == 0 {
            Err(ContractError::AlreadyRetracted)
        } else {
            Ok(amount)
        },
    }
}

/// The records after a call and the response to it.
pub struct Outcome {
    pub records: Records,
    pub response: ResponseView,
}

/// The response that carries one payout and no attribute.
pub open spec fn payout_response(to_address: Seq<char>, denom: Seq<char>, amount: u128)
    -> ResponseView {
    ResponseView {
        messages: seq![PayoutView { to_address, denom, amount }],
        attributes: Seq::empty(),
    }
}

/// The response to an accepted bid: the fee as an attribute, in decimal, and
/// the payout of the fee to the owner where the fee is not zero.
pub open spec fn bid_response(owner: Option<Seq<char>>, denom: Seq<char>, fee: u128)
    -> ResponseView {
    ResponseView {
        messages: if fee > 0 {
            seq![PayoutView { to_address: owner->Some_0, denom, amount: fee }]
        } else {
            Seq::empty()
        },
        attributes: seq![AttributeView { key: "fee"@, value: decimal_text(fee as nat) }],
    }
}

/// The response to an instantiation.
pub open spec fn instantiate_response(sender: Seq<char>, owner: Seq<char>) -> ResponseView {
    ResponseView {
        messages: Seq::empty(),
        attributes: seq![
            AttributeView { key: "action"@, value: "instantiate"@ },
            AttributeView { key: "sender"@, value: sender },
            AttributeView { key: "owner"@, value: owner },
        ],
    }
}

/// The identity that a call names: the one supplied, or `fallback` where the
/// call supplies none.
pub open spec fn named_identity(supplied: Option<String>, fallback: Seq<char>) -> Seq<char> {
    match supplied {
        Some(address) => address@,
        None => fallback,
    }
}

/// Instantiation, with `owner` the identity that is to own the auction, or
/// `None` where the host refused the address that the message gave. The rate
/// must be within its limit. The owner and the configuration are written, the
/// sale open.
pub open spec fn instantiate_outcome(
    records: Records,
    sender: Seq<char>,
    denom: Seq<char>,
    fee: FeeRate,
    owner: Option<Seq<char>>,
) -> Result<Outcome, ContractError> {
    match owner {
        None => Err(ContractError::InvalidIdentity),
        Some(owner) => if !fee.within_limit() {
            Err(ContractError::InvalidFeeRate)
        } else {
            Ok(
                Outcome {
                    records: Records {
                        owner: Some(owner),
                        config: Some(ConfigView { denom, fee, open: true }),
                        ..records
                    },
                    response: instantiate_response(sender, owner),
                },
            )
        },
    }
}

/// A bid by `sender` with `funds`. An accepted bid raises the sender's
/// ledger entry to the new total and makes the sender the highest bidder; the
/// fee on the payment goes to the owner. The store fails the call where no
/// configuration is on record, where the payment is admitted and the
/// sender's entry cannot be read, and where a fee is due and no owner is on
/// record.
pub open spec fn bid_outcome(records: Records, sender: Seq<char>, funds: Seq<Coin>) -> Result<
    Outcome,
    ContractError,
> {
    match records.config {
        None => Err(ContractError::Storage),
        Some(config) => match payment_verdict(config, funds) {
            Err(e) => Err(e),
            Ok(paid) => if records.unreadable.contains(sender) {
                Err(ContractError::Storage)
            } else {
                match raise_verdict(
                    config,
                    records.highest_amount(),
                    records.bid_of(sender),
                    paid,
                ) {
                    Err(e) => Err(e),
                    Ok(bid) => if bid.fee > 0 && records.owner is None {
                        Err(ContractError::Storage)
                    } else {
                        Ok(
                            Outcome {
                                records: Records {
                                    bids: records.bids.insert(sender, bid.total),
                                    highest_bid: Some((sender, bid.total)),
                                    ..records
                                },
                                response: bid_response(records.owner, config.denom, bid.fee),
                            },
                        )
                    },
                }
            },
        },
    }
}

/// The closing of the sale by `sender`, who must be the owner, while the
/// sale is open and a bid has been placed. The sale is marked closed and the
/// owner is paid the highest bid less the fee on it; the ledger stays as it
/// is.
pub open spec fn close_outcome(records: Records, sender: Seq<char>) -> Result<
    Outcome,
    ContractError,
> {
    match records.owner {
        None => Err(ContractError::Storage),
        Some(owner) => if owner != sender {
            Err(ContractError::Unauthorized)
        } else {
            match records.config {
                None => Err(ContractError::Storage),
                Some(config) => if !config.open {
                    Err(ContractError::AuctionClosed)
                } else {
                    match records.highest_bid {
                        None => Err(ContractError::Storage),
                        Some(highest) => match proceeds(highest.1, config.fee) {
                            Err(e) => Err(e),
                            Ok(amount) => Ok(
                                Outcome {
                                    records: Records {
                                        config: Some(ConfigView { open: false, ..config }),
                                        ..records
                                    },
                                    response: payout_response(owner, config.denom, amount),
                                },
                            ),
                        },
                    }
                },
            }
        },
    }
}

/// The retraction of the escrow of `sender`, to be paid to `receiver`, or
/// `None` where the host refused the address that the call gave. The sale
/// must be closed and the sender must not be the winner. The sender's entry
/// is paid out whole and set to zero. The store fails the call where the
/// configuration or the highest bid is not on record, and where the sender
/// is not turned away and has an entry that cannot be read.
pub open spec fn retract_outcome(
    records: Records,
    sender: Seq<char>,
    receiver: Option<Seq<char>>,
) -> Result<Outcome, ContractError> {
    match records.config {
        None => Err(ContractError::Storage),
        Some(config) => if config.open {
            Err(ContractError::AuctionOpen)
        } else {
            match records.highest_bid {
                None => Err(ContractError::Storage),
                Some(highest) => if highest.0 == sender {
                    Err(ContractError::Unauthorized)
                } else {
                    match receiver {
                        None => Err(ContractError::InvalidIdentity),
                        Some(receiver) => if records.unreadable.contains(sender) {
                            Err(ContractError::Storage)
                        } else {
                            match escrow_owed(records.bid_of(sender)) {
                                Err(e) => Err(e),
                                Ok(amount) => Ok(
                                    Outcome {
                                        records: Records {
                                            bids: records.bids.insert(sender, 0),
                                            ..records
                                        },
                                        response: payout_response(receiver, config.denom, amount),
                                    },
                                ),
                            }
                        },
                    }
                },
            }
        },
    }
}

} // verus!

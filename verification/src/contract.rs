//! The entry points of the contract.
//!
//! Each entry point reads what it needs from the store, decides by the rules,
//! and writes only when the call is accepted. Its contract compares the
//! records before and after the call, and its answer, with the outcome that
//! the rules prescribe. The records before a call determine its outcome;
//! the one thing that they leave open is the host's verdict on an address
//! that the call names.

use crate::error::ContractError;
use crate::host::{Attribute, Env, MessageInfo, Payout, Response};
use crate::msg::{BidEventInfoResponse, ExecuteMsg, InstantiateMsg, QueryMsg, QueryResponse};
use crate::rules::{
    admit_payment, bid_outcome, bid_response, close_outcome, escrow_due, instantiate_outcome,
    instantiate_response, named_identity, owner_proceeds, payout_response, raise_bid,
    retract_outcome, Outcome,
};
use crate::state::{
    addr_validate, load_bidders, load_config, load_highest_bid, load_owner, may_load_bid, records,
    records_mut, save_bid, save_config, save_highest_bid, save_owner, Config, Deps, DepsMut,
    Records,
};
use crate::text::decimal_string;
use vstd::prelude::*;
use vstd::string::*;

verus! {

/// A call was answered as `outcome` prescribes: it succeeded exactly with the
/// prescribed records and response, or it was turned down for the prescribed
/// reason and left the records alone.
pub open spec fn answered(
    before: Records,
    after: Records,
    outcome: Result<Outcome, ContractError>,
    r: Result<Response, ContractError>,
) -> bool {
    match r {
        Ok(response) => outcome matches Ok(prescribed) && after == prescribed.records
            && response@ == prescribed.response,
        Err(e) => outcome == Err::<Outcome, ContractError>(e) && after == before,
    }
}

/// An identity as the rules see it.
pub open spec fn view_of(identity: Option<String>) -> Option<Seq<char>> {
    match identity {
        Some(identity) => Some(identity@),
        None => None,
    }
}

/// What `instantiate_as` promises, with `owner` the identity that is to own
/// the auction, or `None` where the host refused the address that the
/// message gave: exactly what the rules prescribe.
pub open spec fn answers_instantiate_as(
    before: Records,
    after: Records,
    sender: Seq<char>,
    msg: InstantiateMsg,
    owner: Option<Seq<char>>,
    r: Result<Response, ContractError>,
) -> bool {
    answered(
        before,
        after,
        instantiate_outcome(before, sender, msg.required_native_denom@, msg.fee, owner),
        r,
    )
}

/// What `instantiate` promises. The owner is the address that the message
/// names or, without one, the contract's own address. Where the message
/// names one, the host decides whether it stands.
pub open spec fn answers_instantiate(
    before: Records,
    after: Records,
    contract_address: Seq<char>,
    sender: Seq<char>,
    msg: InstantiateMsg,
    r: Result<Response, ContractError>,
) -> bool {
    let owner = named_identity(msg.owner, contract_address);
    ||| answers_instantiate_as(before, after, sender, msg, Some(owner), r)
    ||| msg.owner is Some && answers_instantiate_as(before, after, sender, msg, None, r)
}

/// What `do_bid` promises: exactly what the rules prescribe.
pub open spec fn answers_bid(
    before: Records,
    after: Records,
    info: MessageInfo,
    r: Result<Response, ContractError>,
) -> bool {
    answered(before, after, bid_outcome(before, info.sender@, info.funds@), r)
}

/// What `close_bid_event` promises: exactly what the rules prescribe.
pub open spec fn answers_close(
    before: Records,
    after: Records,
    sender: Seq<char>,
    r: Result<Response, ContractError>,
) -> bool {
    answered(before, after, close_outcome(before, sender), r)
}

/// What `retract_to` promises, with `receiver` the address that is to be
/// paid, or `None` where the host refused the address that the call gave:
/// exactly what the rules prescribe.
pub open spec fn answers_retract_to(
    before: Records,
    after: Records,
    sender: Seq<char>,
    receiver: Option<Seq<char>>,
    r: Result<Response, ContractError>,
) -> bool {
    answered(before, after, retract_outcome(before, sender, receiver), r)
}

/// What `retract` promises. The receiver is the address that the call names
/// or, without one, the sender. Where the call names one, the host decides
/// whether it stands.
pub open spec fn answers_retract(
    before: Records,
    after: Records,
    sender: Seq<char>,
    friend_rec: Option<String>,
    r: Result<Response, ContractError>,
) -> bool {
    let receiver = named_identity(friend_rec, sender);
    ||| answers_retract_to(before, after, sender, Some(receiver), r)
    ||| friend_rec is Some && answers_retract_to(before, after, sender, None, r)
}

/// What the ledger says a bidder has bid in total: the entry, or zero
/// without one.
pub open spec fn total_bid(records: Records, bidder: Seq<char>) -> u128 {
    match records.bid_of(bidder) {
        Some(amount) => amount,
        None => 0,
    }
}

/// What `bidder_total` answers, with `bidder` the identity asked about, or
/// `None` where the host refused the address. A refused address is answered
/// with zero and never with an error. A bidder is answered with the bidder's
/// total, and with an error only where the bidder's entry cannot be read.
pub open spec fn bidder_total_answer(records: Records, bidder: Option<Seq<char>>) -> Result<
    u128,
    ContractError,
> {
    match bidder {
        None => Ok(0),
        Some(bidder) => if records.unreadable.contains(bidder) {
            Err(ContractError::Storage)
        } else {
            Ok(total_bid(records, bidder))
        },
    }
}

/// What `query_bid_event_info` promises: the leading bidder and bid, and
/// whether the sale is closed. Both the configuration and a highest bid must
/// be on record.
pub open spec fn answers_bid_event_info(
    records: Records,
    r: Result<BidEventInfoResponse, ContractError>,
) -> bool {
    match (records.config, records.highest_bid) {
        (Some(config), Some(highest)) => {
            &&& r matches Ok(info)
            &&& info.addr matches Some(bidder)
            &&& bidder@ == highest.0
            &&& info.bid_amount == Some(highest.1)
            &&& info.event_closed == !config.open
        },
        _ => r == Err::<BidEventInfoResponse, ContractError>(ContractError::Storage),
    }
}

/// What `query_total_number_participants` promises: the number of
/// identities with an entry in the ledger, and an error exactly where the
/// ledger holds an entry that cannot be read.
pub open spec fn answers_participants(records: Records, r: Result<usize, ContractError>) -> bool {
    if records.ledger_readable() {
        r matches Ok(count) && records.bids.dom().finite() && count == records.bids.dom().len()
    } else {
        r == Err::<usize, ContractError>(ContractError::Storage)
    }
}

/// What `query` promises: the answer of the kind that the message asks for,
/// as the function for that kind gives it.
pub open spec fn answers_query(
    records: Records,
    msg: QueryMsg,
    r: Result<QueryResponse, ContractError>,
) -> bool {
    match msg {
        QueryMsg::BidderTotalBid { address } => match r {
            Ok(QueryResponse::BidderTotalBid(total)) => {
                ||| bidder_total_answer(records, Some(address@)) == Ok::<u128, ContractError>(total)
                ||| total == 0
            },
            Ok(_) => false,
            Err(e) => bidder_total_answer(records, Some(address@)) == Err::<u128, ContractError>(e),
        },
        QueryMsg::HighestBidInfo {  } => match r {
            Ok(QueryResponse::HighestBidInfo(info)) => answers_bid_event_info(records, Ok(info)),
            Ok(_) => false,
            Err(e) => answers_bid_event_info(records, Err(e)),
        },
        QueryMsg::TotalNumberOfParticipants {  } => match r {
            Ok(QueryResponse::TotalNumberOfParticipants(count)) => answers_participants(
                records,
                Ok(count),
            ),
            Ok(_) => false,
            Err(e) => answers_participants(records, Err(e)),
        },
    }
}

fn attribute(key: &str, value: String) -> (r: Attribute)
    ensures
        r.key@ == key@,
        r.value == value,
{
    Attribute { key: String::from_str(key), value }
}

fn single_payout(to_address: String, denom: String, amount: u128) -> (r: Response)
    ensures
        r@ == payout_response(to_address@, denom@, amount),
{
    let mut messages: Vec<Payout> = Vec::new();
    messages.push(Payout { to_address, denom, amount });
    let response = Response { messages, attributes: Vec::new() };
    assert(response@.messages =~= payout_response(to_address@, denom@, amount).messages);
    assert(response@.attributes =~= payout_response(to_address@, denom@, amount).attributes);
    response
}

/// Asks the host about the address that a call supplies. Without one, the
/// fallback stands; a refused address gives `None`.
fn resolve_identity(deps: &Deps<'_>, supplied: &Option<String>, fallback: &String) -> (r: Option<
    String,
>)
    ensures
        r matches Some(identity) ==> identity@ == named_identity(*supplied, fallback@),
        r is None ==> supplied is Some,
{
    match supplied {
        None => Some(fallback.clone()),
        Some(address) => match addr_validate(deps, address) {
            Ok(identity) => Some(identity),
            Err(_) => None,
        },
    }
}

/// Sets the auction up: records the owner and the configuration, the sale
/// open. The owner is the address that the message names, which the host
/// must accept, or the contract itself.
pub fn instantiate(deps: &mut DepsMut<'_>, env: Env, info: MessageInfo, msg: InstantiateMsg) -> (r:
    Result<Response, ContractError>)
    ensures
        answers_instantiate(
            records_mut(*old(deps)),
            records_mut(*final(deps)),
            env.contract_address@,
            info.sender@,
            msg,
            r,
        ),
{
    let owner = resolve_identity(&deps.as_ref(), &msg.owner, &env.contract_address);
    instantiate_as(deps, info, msg, owner)
}

/// Sets the auction up for `owner`, the identity that is to own it, or
/// `None` where the host refused the address that the message gave. The
/// rate must be at most one per cent.
pub fn instantiate_as(
    deps: &mut DepsMut<'_>,
    info: MessageInfo,
    msg: InstantiateMsg,
    owner: Option<String>,
) -> (r: Result<Response, ContractError>)
    ensures
        answers_instantiate_as(
            records_mut(*old(deps)),
            records_mut(*final(deps)),
            info.sender@,
            msg,
            view_of(owner),
            r,
        ),
{
    let owner = match owner {
        Some(owner) => owner,
        None => {
            return Err(ContractError::InvalidIdentity);
        },
    };
    if !msg.fee.is_within_limit() {
        return Err(ContractError::InvalidFeeRate);
    }
    if save_owner(deps, &owner).is_err() {
        return Err(ContractError::Storage);
    }
    let config = Config {
        required_native_denom: msg.required_native_denom.clone(),
        fee: msg.fee,
        open_sale: true,
    };
    if save_config(deps, &config).is_err() {
        return Err(ContractError::Storage);
    }
    let mut attributes: Vec<Attribute> = Vec::new();
    attributes.push(attribute("action", String::from_str("instantiate")));
    attributes.push(attribute("sender", info.sender.clone()));
    attributes.push(attribute("owner", owner));
    let response = Response { messages: Vec::new(), attributes };
    proof {
        let prescribed = instantiate_response(info.sender@, owner@);
        assert(response@.messages =~= prescribed.messages);
        assert(response@.attributes =~= prescribed.attributes);
    }
    Ok(response)
}

/// Runs the call that the message asks for.
pub fn execute(deps: &mut DepsMut<'_>, _env: Env, info: MessageInfo, msg: ExecuteMsg) -> (r: Result<
    Response,
    ContractError,
>)
    ensures
        match msg {
            ExecuteMsg::Bid {  } => answers_bid(
                records_mut(*old(deps)),
                records_mut(*final(deps)),
                info,
                r,
            ),
            ExecuteMsg::Close {  } => answers_close(
                records_mut(*old(deps)),
                records_mut(*final(deps)),
                info.sender@,
                r,
            ),
            ExecuteMsg::Retract { friend_rec } => answers_retract(
                records_mut(*old(deps)),
                records_mut(*final(deps)),
                info.sender@,
                friend_rec,
                r,
            ),
        },
{
    match msg {
        ExecuteMsg::Bid {  } => do_bid(deps, info),
        ExecuteMsg::Close {  } => close_bid_event(deps, info),
        ExecuteMsg::Retract { friend_rec } => retract(deps, info, friend_rec),
    }
}

/// Hands the caller's escrow back once the sale is closed, to `friend_rec`
/// where the call names one and the host accepts it. The winner's escrow
/// stays. The entry is set to zero, so that a second call finds nothing to
/// hand back.
pub fn retract(deps: &mut DepsMut<'_>, info: MessageInfo, friend_rec: Option<String>) -> (r: Result<
    Response,
    ContractError,
>)
    ensures
        answers_retract(
            records_mut(*old(deps)),
            records_mut(*final(deps)),
            info.sender@,
            friend_rec,
            r,
        ),
{
    let receiver = resolve_identity(&deps.as_ref(), &friend_rec, &info.sender);
    retract_to(deps, info, receiver)
}

/// Hands the caller's escrow back to `receiver`, the address that is to be
/// paid, or `None` where the host refused the address that the call gave.
/// The refusal counts only once the sale is found closed and the caller is
/// found not to be the winner.
pub fn retract_to(deps: &mut DepsMut<'_>, info: MessageInfo, receiver: Option<String>) -> (r:
    Result<Response, ContractError>)
    ensures
        answers_retract_to(
            records_mut(*old(deps)),
            records_mut(*final(deps)),
            info.sender@,
            view_of(receiver),
            r,
        ),
{
    let view = deps.as_ref();
    let config = match load_config(&view) {
        Ok(config) => config,
        Err(_) => {
            return Err(ContractError::Storage);
        },
    };
    if config.open_sale {
        return Err(ContractError::AuctionOpen);
    }
    let winner = match load_highest_bid(&view) {
        Ok(highest) => highest.0,
        Err(_) => {
            return Err(ContractError::Storage);
        },
    };
    if winner == info.sender {
        return Err(ContractError::Unauthorized);
    }
    let receiver = match receiver {
        Some(receiver) => receiver,
        None => {
            return Err(ContractError::InvalidIdentity);
        },
    };
    let entry = match may_load_bid(&view, &info.sender) {
        Ok(entry) => entry,
        Err(_) => {
            return Err(ContractError::Storage);
        },
    };
    let amount: u128 = match escrow_due(entry) {
        Ok(amount) => amount,
        Err(e) => {
            return Err(e);
        },
    };
    if save_bid(deps, &info.sender, 0).is_err() {
        return Err(ContractError::Storage);
    }
    proof {
        let unreadable = records_mut(*old(deps)).unreadable;
        assert(unreadable.remove(info.sender@) =~= unreadable);
    }
    Ok(single_payout(receiver, config.required_native_denom, amount))
}

/// Closes the sale, which only the owner may do and only once, and pays the
/// owner the highest bid less the fee on it.
pub fn close_bid_event(deps: &mut DepsMut<'_>, info: MessageInfo) -> (r: Result<
    Response,
    ContractError,
>)
    ensures
        answers_close(records_mut(*old(deps)), records_mut(*final(deps)), info.sender@, r),
{
    let view = deps.as_ref();
    let owner = match load_owner(&view) {
        Ok(owner) => owner,
        Err(_) => {
            return Err(ContractError::Storage);
        },
    };
    if owner != info.sender {
        return Err(ContractError::Unauthorized);
    }
    let config = match load_config(&view) {
        Ok(config) => config,
        Err(_) => {
            return Err(ContractError::Storage);
        },
    };
    if !config.open_sale {
        return Err(ContractError::AuctionClosed);
    }
    let highest: u128 = match load_highest_bid(&view) {
        Ok(highest) => highest.1,
        Err(_) => {
            return Err(ContractError::Storage);
        },
    };
    let amount: u128 = match owner_proceeds(highest, config.fee) {
        Ok(amount) => amount,
        Err(e) => {
            return Err(e);
        },
    };
    let closed = Config {
        required_native_denom: config.required_native_denom.clone(),
        fee: config.fee,
        open_sale: false,
    };
    if save_config(deps, &closed).is_err() {
        return Err(ContractError::Storage);
    }
    Ok(single_payout(owner, config.required_native_denom, amount))
}

/// Takes the funds that come with the message as a bid. The bidder's total
/// must exceed the highest bid; it then becomes the highest bid. The fee on
/// the payment goes to the owner at once.
pub fn do_bid(deps: &mut DepsMut<'_>, info: MessageInfo) -> (r: Result<Response, ContractError>)
    ensures
        answers_bid(records_mut(*old(deps)), records_mut(*final(deps)), info, r),
{
    let view = deps.as_ref();
    let config = match load_config(&view) {
        Ok(config) => config,
        Err(_) => {
            return Err(ContractError::Storage);
        },
    };
    let paid: u128 = match admit_payment(&config, &info) {
        Ok(paid) => paid,
        Err(e) => {
            return Err(e);
        },
    };
    let highest: u128 = match get_highest_bid(&view) {
        Ok(highest) => highest,
        Err(e) => {
            return Err(e);
        },
    };
    let prior = match may_load_bid(&view, &info.sender) {
        Ok(prior) => prior,
        Err(_) => {
            return Err(ContractError::Storage);
        },
    };
    let bid = match raise_bid(&config, highest, prior, paid) {
        Ok(bid) => bid,
        Err(e) => {
            return Err(e);
        },
    };
    let mut messages: Vec<Payout> = Vec::new();
    if bid.fee > 0 {
        let owner = match load_owner(&view) {
            Ok(owner) => owner,
            Err(_) => {
                return Err(ContractError::Storage);
            },
        };
        messages.push(
            Payout {
                to_address: owner,
                denom: config.required_native_denom.clone(),
                amount: bid.fee,
            },
        );
    }
    let mut attributes: Vec<Attribute> = Vec::new();
    attributes.push(attribute("fee", decimal_string(bid.fee)));
    let response = Response { messages, attributes };
    proof {
        let prescribed = bid_response(
            records_mut(*old(deps)).owner,
            config@.denom,
            bid.fee,
        );
        assert(response@.messages =~= prescribed.messages);
        assert(response@.attributes =~= prescribed.attributes);
    }
    if save_bid(deps, &info.sender, bid.total).is_err() {
        return Err(ContractError::Storage);
    }
    if save_highest_bid(deps, &info.sender, bid.total).is_err() {
        return Err(ContractError::Storage);
    }
    proof {
        let unreadable = records_mut(*old(deps)).unreadable;
        assert(unreadable.remove(info.sender@) =~= unreadable);
    }
    Ok(response)
}

/// The amount of the highest bid, or zero before the first bid.
pub fn get_highest_bid(deps: &Deps<'_>) -> (r: Result<u128, ContractError>)
    ensures
        r == Ok::<u128, ContractError>(records(*deps).highest_amount()),
{
    match load_highest_bid(deps) {
        Ok(highest) => Ok(highest.1),
        Err(_) => Ok(0),
    }
}

/// Answers a query from the records, which it leaves alone.
pub fn query(deps: &Deps<'_>, _env: Env, msg: QueryMsg) -> (r: Result<QueryResponse, ContractError>)
    ensures
        answers_query(records(*deps), msg, r),
{
    match msg {
        QueryMsg::BidderTotalBid { address } => match query_bidder_total_bid(deps, address) {
            Ok(total) => Ok(QueryResponse::BidderTotalBid(total)),
            Err(e) => Err(e),
        },
        QueryMsg::HighestBidInfo {  } => match query_bid_event_info(deps) {
            Ok(info) => Ok(QueryResponse::HighestBidInfo(info)),
            Err(e) => Err(e),
        },
        QueryMsg::TotalNumberOfParticipants {  } => match query_total_number_participants(deps) {
            Ok(count) => Ok(QueryResponse::TotalNumberOfParticipants(count)),
            Err(e) => Err(e),
        },
    }
}

/// Counts the identities that have placed a bid.
pub fn query_total_number_participants(deps: &Deps<'_>) -> (r: Result<usize, ContractError>)
    ensures
        answers_participants(records(*deps), r),
{
    match load_bidders(deps) {
        Ok(bidders) => {
            proof {
                let names = bidders@.map_values(|bidder: String| bidder@);
                names.unique_seq_to_set();
            }
            Ok(bidders.len())
        },
        Err(_) => Err(ContractError::Storage),
    }
}

/// Reports the leading bidder and bid, and whether the sale is closed.
pub fn query_bid_event_info(deps: &Deps<'_>) -> (r: Result<BidEventInfoResponse, ContractError>)
    ensures
        answers_bid_event_info(records(*deps), r),
{
    let config = match load_config(deps) {
        Ok(config) => config,
        Err(_) => {
            return Err(ContractError::Storage);
        },
    };
    let highest = match load_highest_bid(deps) {
        Ok(highest) => highest,
        Err(_) => {
            return Err(ContractError::Storage);
        },
    };
    Ok(
        BidEventInfoResponse {
            addr: Some(highest.0),
            bid_amount: Some(highest.1),
            event_closed: !config.open_sale,
        },
    )
}

/// Reports the total that `address` has bid: zero for an address that has
/// not bid, and zero for one that the host refuses.
pub fn query_bidder_total_bid(deps: &Deps<'_>, address: String) -> (r: Result<u128, ContractError>)
    ensures
        r == bidder_total_answer(records(*deps), Some(address@)) || r == bidder_total_answer(
            records(*deps),
            None,
        ),
{
    let bidder = match addr_validate(deps, &address) {
        Ok(bidder) => Some(bidder),
        Err(_) => None,
    };
    bidder_total(deps, bidder)
}

/// Reports the total that `bidder` has bid, or zero for `None`, which
/// stands for an address that the host refused.
pub fn bidder_total(deps: &Deps<'_>, bidder: Option<String>) -> (r: Result<u128, ContractError>)
    ensures
        r == bidder_total_answer(records(*deps), view_of(bidder)),
{
    let bidder = match bidder {
        Some(bidder) => bidder,
        None => {
            return Ok(0);
        },
    };
    match may_load_bid(deps, &bidder) {
        Ok(Some(amount)) => Ok(amount),
        Ok(None) => Ok(0),
        Err(_) => Err(ContractError::Storage),
    }
}

} // verus!

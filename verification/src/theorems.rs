//! What holds of the auction as a whole.
//!
//! The rules say what one call does. The theorems here say what follows: of
//! one call, of two calls in a row, and of a store that is followed through
//! any sequence of calls. The cached highest bid stays the largest entry of
//! the ledger, a closed sale stays closed, escrow is handed back once and
//! never to the winner, and what the contract tells the host to pay out is
//! covered by what the bidders paid in, as far as that is true.

use crate::contract::{answers_bid, answers_close, answers_retract};
use crate::error::ContractError;
use crate::fee::{owner_fee, FeeRate};
use crate::host::{payment, Coin, MessageInfo, PayoutView, Response, ResponseView};
use crate::rules::{
    bid_outcome, bid_verdict, close_outcome, instantiate_outcome, named_identity,
    payment_verdict, retract_outcome, Outcome,
};
use crate::state::Records;
use vstd::prelude::*;

verus! {

/// The sum of all entries of a ledger.
pub open spec fn ledger_total(bids: Map<Seq<char>, u128>) -> nat
    decreases bids.dom().len(),
    when bids.dom().finite()
{
    if bids.dom().len() == 0 {
        0
    } else {
        let bidder = bids.dom().choose();
        bids[bidder] as nat + ledger_total(bids.remove(bidder))
    }
}

/// The total of a ledger is any one entry plus the total of the rest.
pub proof fn lemma_total_splits(bids: Map<Seq<char>, u128>, bidder: Seq<char>)
    requires
        bids.dom().finite(),
        bids.contains_key(bidder),
    ensures
        ledger_total(bids) == bids[bidder] + ledger_total(bids.remove(bidder)),
    decreases bids.dom().len(),
{
    let chosen = bids.dom().choose();
    if chosen != bidder {
        lemma_total_splits(bids.remove(chosen), bidder);
        lemma_total_splits(bids.remove(bidder), chosen);
        assert(bids.remove(chosen).remove(bidder) =~= bids.remove(bidder).remove(chosen));
    }
}

/// Writing an entry changes the total by the difference to what the entry
/// held before.
pub proof fn lemma_total_after_insert(bids: Map<Seq<char>, u128>, bidder: Seq<char>, amount: u128)
    requires
        bids.dom().finite(),
    ensures
        ledger_total(bids.insert(bidder, amount)) + (if bids.contains_key(bidder) {
            bids[bidder] as nat
        } else {
            0
        }) == ledger_total(bids) + amount,
{
    let written = bids.insert(bidder, amount);
    lemma_total_splits(written, bidder);
    if bids.contains_key(bidder) {
        lemma_total_splits(bids, bidder);
        assert(written.remove(bidder) =~= bids.remove(bidder));
    } else {
        assert(written.remove(bidder) =~= bids);
    }
}

/// No entry of a ledger exceeds its total.
pub proof fn lemma_entry_within_total(bids: Map<Seq<char>, u128>, bidder: Seq<char>)
    requires
        bids.dom().finite(),
        bids.contains_key(bidder),
    ensures
        bids[bidder] <= ledger_total(bids),
{
    lemma_total_splits(bids, bidder);
}

/// The cached highest bid is the largest entry of the ledger and names an
/// identity that holds it; where no bid is cached, the ledger is empty.
pub open spec fn highest_is_maximum(records: Records) -> bool {
    match records.highest_bid {
        None => forall|bidder: Seq<char>| !records.bids.contains_key(bidder),
        Some(highest) => {
            &&& records.bids.contains_key(highest.0)
            &&& records.bids[highest.0] == highest.1
            &&& forall|bidder: Seq<char>|
                records.bids.contains_key(bidder) ==> records.bids[bidder] <= highest.1
        },
    }
}

/// A store in which nothing was ever written.
pub open spec fn vacant(records: Records) -> bool {
    &&& records.owner is None
    &&& records.config is None
    &&& records.highest_bid is None
    &&& records.bids == Map::<Seq<char>, u128>::empty()
    &&& records.ledger_readable()
}

/// An auction that was set up and has not seen a bid: it has an owner and is
/// open, the ledger is empty and no bid leads.
pub open spec fn newly_opened(records: Records) -> bool {
    &&& records.owner is Some
    &&& records.config matches Some(config)
    &&& config.open
    &&& records.highest_bid is None
    &&& records.bids == Map::<Seq<char>, u128>::empty()
}

/// The sale is closed: a configuration is on record and says so.
pub open spec fn closed(records: Records) -> bool {
    records.config matches Some(config) && !config.open
}

/// What a bidder has in escrow before a bid: the entry, or nothing.
pub open spec fn escrow_of(records: Records, bidder: Seq<char>) -> nat {
    match records.bid_of(bidder) {
        Some(amount) => amount as nat,
        None => 0,
    }
}

/// The sum of the amounts that a list of payouts moves.
pub open spec fn total_amount(messages: Seq<PayoutView>) -> nat
    decreases messages.len(),
{
    if messages.len() == 0 {
        0
    } else {
        total_amount(messages.drop_last()) + messages.last().amount as nat
    }
}

/// What a response tells the host to pay out.
pub open spec fn paid_out(response: ResponseView) -> nat {
    total_amount(response.messages)
}

/// A list of one payout moves that payout's amount.
pub proof fn lemma_paid_out_of_one(payout: PayoutView)
    ensures
        total_amount(seq![payout]) == payout.amount,
{
    reveal_with_fuel(total_amount, 2);
    assert(seq![payout].drop_last() =~= Seq::<PayoutView>::empty());
}

/// Setting an auction up in a store that nothing was written to opens it:
/// it has the owner and the denom asked for and a rate within the limit, it
/// is open, and no bid is on record.
pub proof fn instantiation_opens_auction(
    records: Records,
    sender: Seq<char>,
    denom: Seq<char>,
    fee: FeeRate,
    owner: Option<Seq<char>>,
)
    requires
        vacant(records),
        instantiate_outcome(records, sender, denom, fee, owner) is Ok,
    ensures
        ({
            let after = instantiate_outcome(records, sender, denom, fee, owner)->Ok_0.records;
            &&& newly_opened(after)
            &&& after.owner == owner
            &&& after.config->Some_0.denom == denom
            &&& after.config->Some_0.fee == fee
            &&& fee.within_limit()
        }),
{
}

/// What an accepted bid brings into escrow: the payment that came with it.
/// A bid that is turned down brings nothing.
pub open spec fn accepted_payment(records: Records, sender: Seq<char>, funds: Seq<Coin>) -> nat {
    match records.config {
        Some(config) if bid_outcome(records, sender, funds) is Ok => payment(
            funds,
            config.denom,
        )->Some_0 as nat,
        _ => 0,
    }
}

/// An accepted bid takes the lead: the bidder's new total exceeds what led
/// before, it is the bidder's entry and the cached highest bid, and the
/// cached highest bid is again the largest entry of the ledger.
pub proof fn accepted_bid_leads(records: Records, sender: Seq<char>, funds: Seq<Coin>)
    requires
        highest_is_maximum(records),
        bid_outcome(records, sender, funds) is Ok,
    ensures
        ({
            let after = bid_outcome(records, sender, funds)->Ok_0.records;
            &&& highest_is_maximum(after)
            &&& after.highest_bid == Some((sender, after.bids[sender]))
            &&& after.bids[sender] > records.highest_amount()
            &&& after.bids[sender] == escrow_of(records, sender) + accepted_payment(
                records,
                sender,
                funds,
            )
        }),
{
}

/// A bid whose total would not exceed the highest bid is too low, a tie
/// included, whatever the fee. The bidder's entry, if there is one, must be
/// one that can be read.
pub proof fn bid_must_exceed_highest(records: Records, sender: Seq<char>, funds: Seq<Coin>)
    requires
        records.config matches Some(config) && payment_verdict(config, funds) matches Ok(paid)
            && escrow_of(records, sender) + paid <= records.highest_amount(),
        !records.unreadable.contains(sender),
    ensures
        bid_outcome(records, sender, funds) == Err::<Outcome, ContractError>(
            ContractError::BidTooLow,
        ),
{
}

/// Nobody but the owner closes the sale.
pub proof fn only_owner_closes(records: Records, sender: Seq<char>)
    requires
        records.owner != Some(sender),
    ensures
        close_outcome(records, sender) is Err,
        records.owner is Some ==> close_outcome(records, sender) == Err::<Outcome, ContractError>(
            ContractError::Unauthorized,
        ),
{
}

/// A closed sale cannot be closed again: after a close, the owner's next
/// close is turned down because the sale is closed, and so is everybody's.
pub proof fn second_close_is_rejected(records: Records, sender: Seq<char>, next: Seq<char>)
    requires
        close_outcome(records, sender) is Ok,
    ensures
        ({
            let after = close_outcome(records, sender)->Ok_0.records;
            &&& close_outcome(after, next) is Err
            &&& close_outcome(after, sender) == Err::<Outcome, ContractError>(
                ContractError::AuctionClosed,
            )
        }),
{
}

/// The close pays the owner, in the auction's denom, exactly the highest bid
/// less the fee on it, and the whole of it where the rate is zero. It marks
/// the sale closed and leaves the ledger and the highest bid as they are.
pub proof fn close_pays_highest_less_fee(records: Records, sender: Seq<char>)
    requires
        close_outcome(records, sender) is Ok,
    ensures
        ({
            let outcome = close_outcome(records, sender)->Ok_0;
            let config = records.config->Some_0;
            let highest = records.highest_amount();
            &&& records.owner == Some(sender)
            &&& records.highest_bid is Some
            &&& owner_fee(highest, config.fee.atomics) matches Ok(fee)
            &&& fee <= highest
            &&& outcome.response.messages == seq![
                PayoutView {
                    to_address: sender,
                    denom: config.denom,
                    amount: (highest - fee) as u128,
                },
            ]
            &&& paid_out(outcome.response) == highest - fee
            &&& config.fee.atomics == 0 ==> paid_out(outcome.response) == highest
            &&& closed(outcome.records)
            &&& outcome.records.bids == records.bids
            &&& outcome.records.highest_bid == records.highest_bid
        }),
{
    let outcome = close_outcome(records, sender)->Ok_0;
    lemma_paid_out_of_one(outcome.response.messages[0]);
}

/// Before the sale is closed nobody gets escrow back.
pub proof fn retract_needs_closed_sale(
    records: Records,
    sender: Seq<char>,
    receiver: Option<Seq<char>>,
)
    requires
        !closed(records),
    ensures
        retract_outcome(records, sender, receiver) is Err,
        records.config is Some ==> retract_outcome(records, sender, receiver) == Err::<
            Outcome,
            ContractError,
        >(ContractError::AuctionOpen),
{
}

/// The winner never gets the escrow back, before the close or after it.
pub proof fn winner_cannot_retract(
    records: Records,
    sender: Seq<char>,
    receiver: Option<Seq<char>>,
)
    requires
        records.highest_bid matches Some(highest) && highest.0 == sender,
    ensures
        retract_outcome(records, sender, receiver) is Err,
        closed(records) ==> retract_outcome(records, sender, receiver) == Err::<
            Outcome,
            ContractError,
        >(ContractError::Unauthorized),
{
}

/// A retraction pays the whole entry to the receiver and sets it to zero;
/// nothing else in the records changes.
pub proof fn retract_pays_whole_entry(
    records: Records,
    sender: Seq<char>,
    receiver: Option<Seq<char>>,
)
    requires
        retract_outcome(records, sender, receiver) is Ok,
    ensures
        ({
            let outcome = retract_outcome(records, sender, receiver)->Ok_0;
            &&& closed(records)
            &&& receiver is Some
            &&& records.bids.contains_key(sender)
            &&& records.bids[sender] > 0
            &&& outcome.response.messages == seq![
                PayoutView {
                    to_address: receiver->Some_0,
                    denom: records.config->Some_0.denom,
                    amount: records.bids[sender],
                },
            ]
            &&& paid_out(outcome.response) == records.bids[sender]
            &&& outcome.records == (Records { bids: records.bids.insert(sender, 0), ..records })
        }),
{
    let outcome = retract_outcome(records, sender, receiver)->Ok_0;
    lemma_paid_out_of_one(outcome.response.messages[0]);
}

/// Escrow is handed back once: after a retraction, the same identity's next
/// retraction is turned down, as already retracted where the receiver
/// stands.
pub proof fn second_retract_is_rejected(
    records: Records,
    sender: Seq<char>,
    receiver: Option<Seq<char>>,
    next_receiver: Option<Seq<char>>,
)
    requires
        retract_outcome(records, sender, receiver) is Ok,
    ensures
        ({
            let after = retract_outcome(records, sender, receiver)->Ok_0.records;
            &&& retract_outcome(after, sender, next_receiver) is Err
            &&& next_receiver is Some ==> retract_outcome(after, sender, next_receiver) == Err::<
                Outcome,
                ContractError,
            >(ContractError::AlreadyRetracted)
        }),
{
}

/// What `do_bid` promises of a bid that the rules turn down: the error that
/// the rules give, and the records as they were.
pub proof fn rejected_bid_changes_nothing(
    before: Records,
    after: Records,
    info: MessageInfo,
    r: Result<Response, ContractError>,
)
    requires
        answers_bid(before, after, info, r),
        bid_outcome(before, info.sender@, info.funds@) is Err,
    ensures
        r == Err::<Response, ContractError>(bid_outcome(before, info.sender@, info.funds@)->Err_0),
        after == before,
{
}

/// What `close_bid_event` promises of a close that the rules turn down: the
/// error that the rules give, and the records as they were.
pub proof fn rejected_close_changes_nothing(
    before: Records,
    after: Records,
    sender: Seq<char>,
    r: Result<Response, ContractError>,
)
    requires
        answers_close(before, after, sender, r),
        close_outcome(before, sender) is Err,
    ensures
        r == Err::<Response, ContractError>(close_outcome(before, sender)->Err_0),
        after == before,
{
}

/// What `retract` promises of a retraction that the rules turn down even
/// with the receiver accepted: an error, and the records as they were.
pub proof fn rejected_retract_changes_nothing(
    before: Records,
    after: Records,
    sender: Seq<char>,
    friend_rec: Option<String>,
    r: Result<Response, ContractError>,
)
    requires
        answers_retract(before, after, sender, friend_rec, r),
        retract_outcome(before, sender, Some(named_identity(friend_rec, sender))) is Err,
    ensures
        r is Err,
        after == before,
{
}

/// Two calls of `close_bid_event` in a row: where the first succeeds, the
/// second fails and changes nothing. Made by the owner again it fails
/// because the sale is closed, made by anybody else because the caller is
/// not the owner.
pub proof fn close_succeeds_once(
    before: Records,
    between: Records,
    after: Records,
    sender: Seq<char>,
    next: Seq<char>,
    first: Result<Response, ContractError>,
    second: Result<Response, ContractError>,
)
    requires
        answers_close(before, between, sender, first),
        answers_close(between, after, next, second),
        first is Ok,
    ensures
        after == between,
        second == Err::<Response, ContractError>(
            if next == sender {
                ContractError::AuctionClosed
            } else {
                ContractError::Unauthorized
            },
        ),
{
    second_close_is_rejected(before, sender, next);
}

/// Two calls of `retract` in a row by one identity: where the first
/// succeeds, the second fails, pays nothing and changes nothing. It fails as
/// already retracted, unless the host refuses the address that it names.
pub proof fn retract_succeeds_once(
    before: Records,
    between: Records,
    after: Records,
    sender: Seq<char>,
    friend_rec: Option<String>,
    next_friend_rec: Option<String>,
    first: Result<Response, ContractError>,
    second: Result<Response, ContractError>,
)
    requires
        answers_retract(before, between, sender, friend_rec, first),
        answers_retract(between, after, sender, next_friend_rec, second),
        first is Ok,
    ensures
        second is Err,
        after == between,
        second->Err_0 == ContractError::AlreadyRetracted || (second->Err_0
            == ContractError::InvalidIdentity && next_friend_rec is Some),
{
    second_retract_is_rejected(
        before,
        sender,
        Some(named_identity(friend_rec, sender)),
        Some(named_identity(next_friend_rec, sender)),
    );
}

/// A call to the contract, as the rules see it. For a retraction, `receiver`
/// is the address that is to be paid, or `None` where the host refused the
/// address that the call gave.
pub enum Call {
    Bid { sender: Seq<char>, funds: Seq<Coin> },
    Close { sender: Seq<char> },
    Retract { sender: Seq<char>, receiver: Option<Seq<char>> },
}

/// What the rules prescribe for a call.
pub open spec fn call_outcome(records: Records, call: Call) -> Result<Outcome, ContractError> {
    match call {
        Call::Bid { sender, funds } => bid_outcome(records, sender, funds),
        Call::Close { sender } => close_outcome(records, sender),
        Call::Retract { sender, receiver } => retract_outcome(records, sender, receiver),
    }
}

/// The configuration is written once: no call changes the denom or the
/// rate, and no call opens a closed sale.
pub proof fn call_keeps_configuration(records: Records, call: Call)
    requires
        call_outcome(records, call) is Ok,
    ensures
        ({
            let after = call_outcome(records, call)->Ok_0.records;
            &&& records.config matches Some(config)
            &&& after.config matches Some(next)
            &&& next.denom == config.denom
            &&& next.fee == config.fee
            &&& !config.open ==> !next.open
            &&& after.owner == records.owner
        }),
{
}

/// The books of an auction: its records, what accepted bids have brought
/// into escrow, and what the responses have told the host to pay out, by the
/// kind of call that paid: the fees paid at bids, the owner's proceeds at the
/// close, and the escrow handed back.
pub struct Books {
    pub records: Records,
    pub escrowed: nat,
    pub fees: nat,
    pub proceeds: nat,
    pub returned: nat,
}

impl Books {
    /// Everything that the host was told to pay out.
    pub open spec fn released(self) -> nat {
        self.fees + self.proceeds + self.returned
    }
}

/// The books before the first call.
pub open spec fn opening(records: Records) -> Books {
    Books { records, escrowed: 0, fees: 0, proceeds: 0, returned: 0 }
}

/// The books after a call. A call that is turned down changes nothing.
pub open spec fn after_call(books: Books, call: Call) -> Books {
    match call_outcome(books.records, call) {
        Err(_) => books,
        Ok(outcome) => match call {
            Call::Bid { sender, funds } => Books {
                records: outcome.records,
                escrowed: books.escrowed + accepted_payment(books.records, sender, funds),
                fees: books.fees + paid_out(outcome.response),
                ..books
            },
            Call::Close { sender } => Books {
                records: outcome.records,
                proceeds: books.proceeds + paid_out(outcome.response),
                ..books
            },
            Call::Retract { sender, receiver } => Books {
                records: outcome.records,
                returned: books.returned + paid_out(outcome.response),
                ..books
            },
        },
    }
}

/// The books after a sequence of calls, the first call first.
pub open spec fn after_calls(books: Books, calls: Seq<Call>) -> Books
    decreases calls.len(),
{
    if calls.len() == 0 {
        books
    } else {
        after_call(after_calls(books, calls.drop_last()), calls.last())
    }
}

/// A call leaves a ledger readable that was so before it.
pub proof fn call_keeps_ledger_readable(records: Records, call: Call)
    requires
        records.ledger_readable(),
        call_outcome(records, call) is Ok,
    ensures
        call_outcome(records, call)->Ok_0.records.ledger_readable(),
{
}

/// On a store that holds an owner, a configuration and a readable ledger,
/// the store fails no bid, and fails a close or a retraction only for want
/// of a highest bid.
pub proof fn store_fails_only_for_want_of_a_record(records: Records, call: Call)
    requires
        records.owner is Some,
        records.config is Some,
        records.ledger_readable(),
        call_outcome(records, call) == Err::<Outcome, ContractError>(ContractError::Storage),
    ensures
        !(call is Bid),
        records.highest_bid is None,
{
}

/// The books balance: every unit that a bid brought in is still on the
/// ledger or was handed back; the owner was paid at most the highest bid,
/// and only at the close; nothing was handed back before the close; and the
/// cached highest bid is the largest entry of the ledger.
pub open spec fn balanced(books: Books) -> bool {
    &&& books.records.bids.dom().finite()
    &&& highest_is_maximum(books.records)
    &&& books.records.config is Some
    &&& ledger_total(books.records.bids) + books.returned == books.escrowed
    &&& !closed(books.records) ==> books.proceeds == 0 && books.returned == 0
    &&& closed(books.records) ==> books.records.highest_bid is Some && books.proceeds
        <= books.records.highest_amount()
    &&& books.records.config->Some_0.fee.atomics == 0 ==> books.fees == 0
}

/// The books of an auction that has not seen a bid balance.
pub proof fn lemma_opening_books_balance(records: Records)
    requires
        newly_opened(records),
    ensures
        balanced(opening(records)),
{
    assert(records.bids.dom() =~= Set::<Seq<char>>::empty());
}

/// A call keeps the books balanced.
pub proof fn lemma_call_keeps_balance(books: Books, call: Call)
    requires
        balanced(books),
    ensures
        balanced(after_call(books, call)),
{
    let records = books.records;
    let config = records.config->Some_0;
    match call_outcome(records, call) {
        Err(_) => {},
        Ok(outcome) => {
            call_keeps_configuration(records, call);
            match call {
                Call::Bid { sender, funds } => {
                    accepted_bid_leads(records, sender, funds);
                    let bid = bid_verdict(
                        config,
                        records.highest_amount(),
                        records.bid_of(sender),
                        funds,
                    )->Ok_0;
                    lemma_total_after_insert(records.bids, sender, bid.total);
                    if bid.fee > 0 {
                        lemma_paid_out_of_one(outcome.response.messages[0]);
                    }
                },
                Call::Close { sender } => {
                    close_pays_highest_less_fee(records, sender);
                },
                Call::Retract { sender, receiver } => {
                    retract_pays_whole_entry(records, sender, receiver);
                    lemma_total_after_insert(records.bids, sender, 0);
                },
            }
        },
    }
}

/// Any sequence of calls keeps the books balanced.
pub proof fn lemma_calls_keep_balance(books: Books, calls: Seq<Call>)
    requires
        balanced(books),
    ensures
        balanced(after_calls(books, calls)),
    decreases calls.len(),
{
    if calls.len() > 0 {
        lemma_calls_keep_balance(books, calls.drop_last());
        lemma_call_keeps_balance(after_calls(books, calls.drop_last()), calls.last());
    }
}

/// The denom and the rate stay as they were through every sequence of calls.
pub proof fn lemma_configuration_is_kept(books: Books, calls: Seq<Call>)
    requires
        books.records.config is Some,
    ensures
        ({
            let after = after_calls(books, calls).records;
            &&& after.config matches Some(config)
            &&& config.denom == books.records.config->Some_0.denom
            &&& config.fee == books.records.config->Some_0.fee
            &&& after.owner == books.records.owner
        }),
    decreases calls.len(),
{
    if calls.len() > 0 {
        lemma_configuration_is_kept(books, calls.drop_last());
        let before = after_calls(books, calls.drop_last());
        if call_outcome(before.records, calls.last()) is Ok {
            call_keeps_configuration(before.records, calls.last());
        }
    }
}

/// Through every sequence of calls the cached highest bid is the largest
/// entry of the ledger.
pub proof fn highest_stays_maximum(records: Records, calls: Seq<Call>)
    requires
        newly_opened(records),
    ensures
        highest_is_maximum(after_calls(opening(records), calls).records),
{
    lemma_opening_books_balance(records);
    lemma_calls_keep_balance(opening(records), calls);
}

/// Once closed, a sale stays closed through every sequence of calls.
pub proof fn closed_sale_stays_closed(books: Books, calls: Seq<Call>)
    requires
        closed(books.records),
    ensures
        closed(after_calls(books, calls).records),
    decreases calls.len(),
{
    if calls.len() > 0 {
        closed_sale_stays_closed(books, calls.drop_last());
        let before = after_calls(books, calls.drop_last());
        if call_outcome(before.records, calls.last()) is Ok {
            call_keeps_configuration(before.records, calls.last());
        }
    }
}

/// What is paid out against what was paid in, through every sequence of
/// calls on a newly opened auction.
///
/// The principal is covered: the owner's proceeds and the escrow handed back
/// never exceed what the accepted bids brought in. The fees paid at bids come
/// on top, since the ledger records each payment whole: all that is paid out
/// stays within what was paid in exactly when the ledger still holds enough
/// beyond the owner's proceeds to cover those fees. At a rate of zero it
/// always does.
pub proof fn release_is_covered_by_escrow(records: Records, calls: Seq<Call>)
    requires
        newly_opened(records),
    ensures
        ({
            let books = after_calls(opening(records), calls);
            &&& books.proceeds + books.returned <= books.escrowed
            &&& books.released() <= books.escrowed + books.fees
            &&& books.released() <= books.escrowed <==> books.fees + books.proceeds
                <= ledger_total(books.records.bids)
            &&& records.config->Some_0.fee.atomics == 0 ==> books.released() <= books.escrowed
        }),
{
    lemma_opening_books_balance(records);
    lemma_calls_keep_balance(opening(records), calls);
    lemma_configuration_is_kept(opening(records), calls);
    let books = after_calls(opening(records), calls);
    if closed(books.records) {
        let winner = books.records.highest_bid->Some_0.0;
        lemma_entry_within_total(books.records.bids, winner);
    }
}

} // verus!

//! What the host hands to a call and what a call hands back: the caller and
//! the coins that came with the message, and the response with its payout
//! instructions. A payout is an instruction to the host; nothing here moves
//! funds.

use vstd::prelude::*;

verus! {

/// An amount of one denomination.
#[derive(Debug, Clone, PartialEq, Eq)]
pub struct Coin {
    pub denom: String,
    pub amount: u128,
}

/// Where the contract runs.
#[derive(Debug, Clone, PartialEq, Eq)]
pub struct Env {
    /// The contract's own address.
    pub contract_address: String,
}

/// Who sent the message, and the funds that were sent with it.
#[derive(Debug, Clone, PartialEq, Eq)]
pub struct MessageInfo {
    pub sender: String,
    pub funds: Vec<Coin>,
}

/// An instruction to the host to send `amount` of `denom` to `to_address`.
#[derive(Debug, Clone, PartialEq, Eq)]
pub struct Payout {
    pub to_address: String,
    pub denom: String,
    pub amount: u128,
}

/// A key and a value that a call reports for observers.
#[derive(Debug, Clone, PartialEq, Eq)]
pub struct Attribute {
    pub key: String,
    pub value: String,
}

/// What a successful call hands back to the host.
#[derive(Debug, Clone, PartialEq, Eq)]
pub struct Response {
    pub messages: Vec<Payout>,
    pub attributes: Vec<Attribute>,
}

/// A payout as the rules see it.
pub struct PayoutView {
    pub to_address: Seq<char>,
    pub denom: Seq<char>,
    pub amount: u128,
}

/// An attribute as the rules see it.
pub struct AttributeView {
    pub key: Seq<char>,
    pub value: Seq<char>,
}

/// A response as the rules see it.
#[verifier::ext_equal]
pub struct ResponseView {
    pub messages: Seq<PayoutView>,
    pub attributes: Seq<AttributeView>,
}

impl View for Payout {
    type V = PayoutView;

    open spec fn view(&self) -> PayoutView {
        PayoutView { to_address: self.to_address@, denom: self.denom@, amount: self.amount }
    }
}

impl View for Attribute {
    type V = AttributeView;

    open spec fn view(&self) -> AttributeView {
        AttributeView { key: self.key@, value: self.value@ }
    }
}

impl View for Response {
    type V = ResponseView;

    open spec fn view(&self) -> ResponseView {
        ResponseView {
            messages: self.messages@.map_values(|payout: Payout| payout@),
            attributes: self.attributes@.map_values(|attribute: Attribute| attribute@),
        }
    }
}

/// The payment that a message carries towards `denom`: the amount of its one
/// coin, where it came with exactly one coin, of that denom and not zero.
pub open spec fn payment(funds: Seq<Coin>, denom: Seq<char>) -> Option<u128> {
    if funds.len() == 1 && funds[0].amount != 0 && funds[0].denom@ == denom {
        Some(funds[0].amount)
    } else {
        None
    }
}

/// `cw_utils::PaymentError`, the reason for which a payment is refused.
/// Nothing is said of what it holds.
#[verifier::external_type_specification]
#[verifier::external_body]
pub struct ExPaymentError(cw_utils::PaymentError);

/// `cw_utils::must_pay`: the amount of the one coin that came with the
/// message. It fails where no coin or more than one came, where the coin's
/// amount is zero, and where its denom is not `denom`.
#[verifier::external_body]
pub(crate) fn must_pay(info: &MessageInfo, denom: &String) -> (r: Result<
    u128,
    cw_utils::PaymentError,
>)
    ensures
        match r {
            Ok(paid) => payment(info.funds@, denom@) == Some(paid),
            Err(_) => payment(info.funds@, denom@) is None,
        },
{
    let funds = info.funds.iter().map(
        |coin| cosmwasm_std::Coin::new(coin.amount, coin.denom.clone()),
    ).collect();
    let sender = cosmwasm_std::Addr::unchecked(info.sender.clone());
    let outside = cosmwasm_std::MessageInfo { sender, funds };
    cw_utils::must_pay(&outside, denom.as_str()).map(|paid| paid.u128())
}

} // verus!

//! The persistent records and the access to them.
//!
//! The host's store holds four records: the owner, the configuration, the
//! ledger of bids and the cached highest bid. The store belongs to the host and
//! is reached through typed accessors of `cw_storage_plus`; what those
//! accessors read back is modelled by [`Records`]. Each function in this module
//! that touches the store is a thin call into that crate whose contract is
//! taken on trust.

use crate::fee::FeeRate;
use vstd::prelude::*;

verus! {

/// The configuration of an auction.
#[derive(Debug, Clone, PartialEq, Eq)]
pub struct Config {
    /// The denom in which bids are paid. It never changes.
    pub required_native_denom: String,
    /// The rate of the owner's fee. It never changes.
    pub fee: FeeRate,
    /// Whether bids are still taken. It starts `true` and is cleared once.
    pub open_sale: bool,
}

/// A configuration as the rules see it.
pub struct ConfigView {
    pub denom: Seq<char>,
    pub fee: FeeRate,
    pub open: bool,
}

impl View for Config {
    type V = ConfigView;

    open spec fn view(&self) -> ConfigView {
        ConfigView { denom: self.required_native_denom@, fee: self.fee, open: self.open_sale }
    }
}

/// What the store holds, as the typed accessors read it back.
///
/// A single record is `Some` exactly where a load of it succeeds. The ledger
/// maps each identity whose entry can be read to the amount recorded for it.
/// A store that only this library has written to holds nothing else under
/// the ledger; what else may lie there is told apart so that every read has
/// its outcome fixed.
#[verifier::ext_equal]
pub struct Records {
    pub owner: Option<Seq<char>>,
    pub config: Option<ConfigView>,
    pub highest_bid: Option<(Seq<char>, u128)>,
    pub bids: Map<Seq<char>, u128>,
    /// The identities that have an entry which cannot be read as an amount.
    pub unreadable: Set<Seq<char>>,
    /// Whether the ledger holds an entry under a key that is no text.
    pub foreign_keys: bool,
}

impl Records {
    /// The amount of the highest bid, zero before the first bid.
    pub open spec fn highest_amount(self) -> u128 {
        match self.highest_bid {
            Some(highest) => highest.1,
            None => 0,
        }
    }

    /// The amount recorded for `bidder`, if the ledger has an entry for it.
    pub open spec fn bid_of(self, bidder: Seq<char>) -> Option<u128> {
        if self.bids.contains_key(bidder) {
            Some(self.bids[bidder])
        } else {
            None
        }
    }

    /// Every entry of the ledger can be read, key and amount.
    pub open spec fn ledger_readable(self) -> bool {
        !self.foreign_keys && self.unreadable == Set::<Seq<char>>::empty()
    }
}

/// The host's store and address validation, for a call that only reads.
/// The verifier does not look inside: what it knows of a value is the records
/// behind it.
#[verifier::external_body]
pub struct Deps<'a> {
    pub storage: &'a dyn cosmwasm_std::Storage,
    pub api: &'a dyn cosmwasm_std::Api,
}

/// The host's store and address validation, for a call that may write.
/// The verifier does not look inside: what it knows of a value is the records
/// behind it.
#[verifier::external_body]
pub struct DepsMut<'a> {
    pub storage: &'a mut dyn cosmwasm_std::Storage,
    pub api: &'a dyn cosmwasm_std::Api,
}

/// The records in the store behind `deps`.
pub uninterp spec fn records(deps: Deps<'_>) -> Records;

/// The records in the store behind `deps`.
pub uninterp spec fn records_mut(deps: DepsMut<'_>) -> Records;

/// `cosmwasm_std::StdError`, the error of the store and of the host's
/// address validation. Nothing is said of what it holds.
#[verifier::external_type_specification]
#[verifier::external_body]
pub struct ExStdError(cosmwasm_std::StdError);

impl<'a> DepsMut<'a> {
    /// Lends the store and the validation for reading, as
    /// `cosmwasm_std::DepsMut::as_ref` does: the same store, so the same
    /// records.
    #[verifier::external_body]
    pub(crate) fn as_ref(&self) -> (r: Deps<'_>)
        ensures
            records(r) == records_mut(*self),
    {
        Deps { storage: &*self.storage, api: self.api }
    }
}

/// `cosmwasm_std::Api::addr_validate`: the host's verdict on an address.
/// Where the host accepts the address, it hands the same text back.
#[verifier::external_body]
pub(crate) fn addr_validate(deps: &Deps<'_>, input: &String) -> (r: Result<
    String,
    cosmwasm_std::StdError,
>)
    ensures
        r matches Ok(address) ==> address@ == input@,
{
    deps.api.addr_validate(input.as_str()).map(cosmwasm_std::Addr::into_string)
}

/// `cw_storage_plus::Item::load` on the record `owner`: the owner on
/// record. It fails where none is on record, or none that can be read.
#[verifier::external_body]
pub(crate) fn load_owner(deps: &Deps<'_>) -> (r: Result<String, cosmwasm_std::StdError>)
    ensures
        match r {
            Ok(owner) => records(*deps).owner == Some(owner@),
            Err(_) => records(*deps).owner is None,
        },
{
    let item: cw_storage_plus::Item<cosmwasm_std::Addr> = cw_storage_plus::Item::new("owner");
    item.load(deps.storage).map(cosmwasm_std::Addr::into_string)
}

/// `cw_storage_plus::Item::save` on the record `owner`. A save fails only
/// where the value cannot be written as JSON, and an address, which is a
/// text, always can: the save succeeds, the record reads back as `owner`, and
/// the other records are untouched.
#[verifier::external_body]
pub(crate) fn save_owner(deps: &mut DepsMut<'_>, owner: &String) -> (r: Result<
    (),
    cosmwasm_std::StdError,
>)
    ensures
        r is Ok,
        records_mut(*final(deps)) == (Records { owner: Some(owner@), ..records_mut(*old(deps)) }),
{
    let item: cw_storage_plus::Item<cosmwasm_std::Addr> = cw_storage_plus::Item::new("owner");
    item.save(deps.storage, &cosmwasm_std::Addr::unchecked(owner.clone()))
}

/// `cw_storage_plus::Item::load` on the record `config`, which is stored as
/// the triple of denom, rate and open flag: the configuration on record. It
/// fails where none is on record, or none that can be read.
#[verifier::external_body]
pub(crate) fn load_config(deps: &Deps<'_>) -> (r: Result<Config, cosmwasm_std::StdError>)
    ensures
        match r {
            Ok(config) => records(*deps).config == Some(config@),
            Err(_) => records(*deps).config is None,
        },
{
    let item: cw_storage_plus::Item<(String, cosmwasm_std::Decimal, bool)> =
        cw_storage_plus::Item::new("config");
    let (required_native_denom, rate, open_sale) = item.load(deps.storage)?;
    let fee = FeeRate { atomics: rate.atomics().u128() };
    Ok(Config { required_native_denom, fee, open_sale })
}

/// `cw_storage_plus::Item::save` on the record `config`. A save fails only
/// where the value cannot be written as JSON, and a triple of a text, a
/// decimal and a flag always can: the save succeeds, the record reads back as
/// `config`, and the other records are untouched.
#[verifier::external_body]
pub(crate) fn save_config(deps: &mut DepsMut<'_>, config: &Config) -> (r: Result<
    (),
    cosmwasm_std::StdError,
>)
    ensures
        r is Ok,
        records_mut(*final(deps)) == (Records { config: Some(config@), ..records_mut(*old(deps)) }),
{
    let item: cw_storage_plus::Item<(String, cosmwasm_std::Decimal, bool)> =
        cw_storage_plus::Item::new("config");
    let rate = cosmwasm_std::Decimal::raw(config.fee.atomics);
    item.save(deps.storage, &(config.required_native_denom.clone(), rate, config.open_sale))
}

/// `cw_storage_plus::Item::load` on the record `highest_bid`, the pair of the
/// leading bidder and that bidder's total. It fails where none is on record,
/// or none that can be read.
#[verifier::external_body]
pub(crate) fn load_highest_bid(deps: &Deps<'_>) -> (r: Result<
    (String, u128),
    cosmwasm_std::StdError,
>)
    ensures
        match r {
            Ok(highest) => records(*deps).highest_bid == Some((highest.0@, highest.1)),
            Err(_) => records(*deps).highest_bid is None,
        },
{
    let item: cw_storage_plus::Item<(cosmwasm_std::Addr, cosmwasm_std::Uint128)> =
        cw_storage_plus::Item::new("highest_bid");
    item.load(deps.storage).map(|(bidder, amount)| (bidder.into_string(), amount.u128()))
}

/// `cw_storage_plus::Item::save` on the record `highest_bid`. A save fails
/// only where the value cannot be written as JSON, and a pair of an address
/// and an amount always can: the save succeeds, the record reads back as the
/// pair given, and the other records are untouched.
#[verifier::external_body]
pub(crate) fn save_highest_bid(deps: &mut DepsMut<'_>, bidder: &String, amount: u128) -> (r:
    Result<(), cosmwasm_std::StdError>)
    ensures
        r is Ok,
        records_mut(*final(deps)) == (Records {
            highest_bid: Some((bidder@, amount)),
            ..records_mut(*old(deps))
        }),
{
    let item: cw_storage_plus::Item<(cosmwasm_std::Addr, cosmwasm_std::Uint128)> =
        cw_storage_plus::Item::new("highest_bid");
    let bidder = cosmwasm_std::Addr::unchecked(bidder.clone());
    item.save(deps.storage, &(bidder, cosmwasm_std::Uint128::new(amount)))
}

/// `cw_storage_plus::Map::may_load` on the ledger `all_bids`: the amount
/// recorded for `bidder`, or `None` where the ledger has no entry for it. It
/// fails exactly where there is an entry that cannot be read as an amount.
#[verifier::external_body]
pub(crate) fn may_load_bid(deps: &Deps<'_>, bidder: &String) -> (r: Result<
    Option<u128>,
    cosmwasm_std::StdError,
>)
    ensures
        match r {
            Ok(entry) => !records(*deps).unreadable.contains(bidder@) && entry == records(
                *deps,
            ).bid_of(bidder@),
            Err(_) => records(*deps).unreadable.contains(bidder@),
        },
{
    let ledger: cw_storage_plus::Map<cosmwasm_std::Addr, cosmwasm_std::Uint128> =
        cw_storage_plus::Map::new("all_bids");
    let bidder = cosmwasm_std::Addr::unchecked(bidder.clone());
    ledger.may_load(deps.storage, bidder).map(|entry| entry.map(|amount| amount.u128()))
}

/// `cw_storage_plus::Map::save` on the ledger `all_bids`. A save fails only
/// where the value cannot be written as JSON, and an amount always can: the
/// save succeeds, the entry of `bidder` reads back as `amount`, whatever lay
/// there before, and the other entries and records are untouched.
#[verifier::external_body]
pub(crate) fn save_bid(deps: &mut DepsMut<'_>, bidder: &String, amount: u128) -> (r: Result<
    (),
    cosmwasm_std::StdError,
>)
    ensures
        r is Ok,
        records_mut(*final(deps)) == (Records {
            bids: records_mut(*old(deps)).bids.insert(bidder@, amount),
            unreadable: records_mut(*old(deps)).unreadable.remove(bidder@),
            ..records_mut(*old(deps))
        }),
{
    let ledger: cw_storage_plus::Map<cosmwasm_std::Addr, cosmwasm_std::Uint128> =
        cw_storage_plus::Map::new("all_bids");
    let bidder = cosmwasm_std::Addr::unchecked(bidder.clone());
    ledger.save(deps.storage, bidder, &cosmwasm_std::Uint128::new(amount))
}

/// `cw_storage_plus::Map::keys` on the ledger `all_bids`, over the whole
/// ledger: every identity that has an entry, each once. The walk reads each
/// key as a text and each amount with it, and fails exactly where one of
/// them cannot be read.
#[verifier::external_body]
pub(crate) fn load_bidders(deps: &Deps<'_>) -> (r: Result<Vec<String>, cosmwasm_std::StdError>)
    ensures
        match r {
            Ok(bidders) => {
                &&& records(*deps).ledger_readable()
                &&& bidders@.map_values(|bidder: String| bidder@).no_duplicates()
                &&& bidders@.map_values(|bidder: String| bidder@).to_set() == records(
                    *deps,
                ).bids.dom()
            },
            Err(_) => !records(*deps).ledger_readable(),
        },
{
    let ledger: cw_storage_plus::Map<cosmwasm_std::Addr, cosmwasm_std::Uint128> =
        cw_storage_plus::Map::new("all_bids");
    let keys = ledger.keys(deps.storage, None, None, cosmwasm_std::Order::Ascending);
    let bidders = keys.collect::<Result<Vec<cosmwasm_std::Addr>, cosmwasm_std::StdError>>()?;
    Ok(bidders.into_iter().map(cosmwasm_std::Addr::into_string).collect())
}

} // verus!

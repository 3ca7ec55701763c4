//! A single-asset ascending-bid auction that keeps the bids in escrow.
//!
//! Participants pay a native token into the auction; the highest cumulative
//! payment per participant leads. The owner closes the sale and receives the
//! winning amount less a fee, and everybody but the winner may afterwards take
//! their escrow back. Funds are never moved here: a call answers with
//! instructions that the host carries out.
//!
//! The entry points are verified against a mathematical model of the
//! persistent records:
//!
//! - [`state`] holds the records and the access to the host's store,
//! - [`host`] what the host hands to a call and takes back from it,
//! - [`fee`] the owner's fee,
//! - [`rules`] what each kind of call does, as a function of the records,
//! - [`contract`] the entry points, verified against the rules,
//! - [`theorems`] what follows from the rules for the auction as a whole.

pub mod contract;
pub mod error;
pub mod fee;
pub mod host;
pub mod msg;
pub mod rules;
pub mod state;
pub mod text;
pub mod theorems;

pub use contract::{close_bid_event, do_bid, execute, instantiate, query, retract};
pub use error::ContractError;
pub use fee::FeeRate;
pub use host::{Attribute, Coin, Env, MessageInfo, Payout, Response};
pub use msg::{BidEventInfoResponse, ExecuteMsg, InstantiateMsg, QueryMsg, QueryResponse};
pub use state::{Config, Deps, DepsMut};

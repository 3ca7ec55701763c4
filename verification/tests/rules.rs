use bid_auction::fee::{MAX_FEE_ATOMICS, RATE_SCALE};
use bid_auction::rules::{admit_payment, escrow_due, owner_proceeds, raise_bid, AcceptedBid};
use bid_auction::{Coin, Config, ContractError, FeeRate, MessageInfo};

fn config(open_sale: bool, atomics: u128) -> Config {
    Config {
        required_native_denom: "uatom".to_string(),
        fee: FeeRate { atomics },
        open_sale,
    }
}

fn message(funds: Vec<(u128, &str)>) -> MessageInfo {
    MessageInfo {
        sender: "alice".to_string(),
        funds: funds
            .into_iter()
            .map(|(amount, denom)| Coin { denom: denom.to_string(), amount })
            .collect(),
    }
}

#[test]
fn payment_is_the_one_coin_of_the_denom() {
    let open = config(true, 0);
    assert_eq!(admit_payment(&open, &message(vec![(7, "uatom")])), Ok(7));
    assert_eq!(admit_payment(&open, &message(vec![(u128::MAX, "uatom")])), Ok(u128::MAX));
}

#[test]
fn payment_of_nothing_or_of_another_asset_is_wrong() {
    let open = config(true, 0);
    for funds in [
        vec![],
        vec![(0, "uatom")],
        vec![(7, "uatom2")],
        vec![(7, "UATOM")],
        vec![(7, "")],
        vec![(7, "uatom"), (1, "uatom")],
        vec![(7, "uluna"), (1, "uatom")],
    ] {
        assert_eq!(admit_payment(&open, &message(funds)), Err(ContractError::WrongPaymentAsset));
    }
}

#[test]
fn closed_sale_comes_before_the_payment() {
    let shut = config(false, 0);
    assert_eq!(admit_payment(&shut, &message(vec![(7, "uatom")])), Err(ContractError::AuctionClosed));
    assert_eq!(admit_payment(&shut, &message(vec![])), Err(ContractError::AuctionClosed));
}

#[test]
fn raise_adds_the_payment_to_the_escrow() {
    let open = config(true, MAX_FEE_ATOMICS);
    assert_eq!(
        raise_bid(&open, 0, None, 10_000),
        Ok(AcceptedBid { paid: 10_000, total: 10_000, fee: 100 })
    );
    assert_eq!(
        raise_bid(&open, 20_000, Some(10_000), 15_000),
        Ok(AcceptedBid { paid: 15_000, total: 25_000, fee: 150 })
    );
    // an entry of zero, left by a retraction, counts as nothing
    assert_eq!(raise_bid(&open, 5, Some(0), 6), Ok(AcceptedBid { paid: 6, total: 6, fee: 0 }));
}

#[test]
fn raise_must_exceed_the_highest() {
    let open = config(true, MAX_FEE_ATOMICS);
    assert_eq!(raise_bid(&open, 100, None, 100), Err(ContractError::BidTooLow));
    assert_eq!(raise_bid(&open, 100, None, 99), Err(ContractError::BidTooLow));
    assert_eq!(raise_bid(&open, 100, Some(60), 40), Err(ContractError::BidTooLow));
    assert_eq!(
        raise_bid(&open, 100, Some(60), 41),
        Ok(AcceptedBid { paid: 41, total: 101, fee: 0 })
    );
    assert_eq!(raise_bid(&open, u128::MAX, None, u128::MAX), Err(ContractError::BidTooLow));
}

#[test]
fn raise_that_leaves_128_bits_is_an_overflow() {
    let open = config(true, 0);
    assert_eq!(raise_bid(&open, 0, Some(u128::MAX), 1), Err(ContractError::ArithmeticOverflow));
    assert_eq!(raise_bid(&open, 0, Some(1), u128::MAX), Err(ContractError::ArithmeticOverflow));
    assert_eq!(
        raise_bid(&open, 0, Some(1), u128::MAX - 1),
        Ok(AcceptedBid { paid: u128::MAX - 1, total: u128::MAX, fee: 0 })
    );
    // the overflow of the fee's numerator comes after the comparison
    let absurd = config(true, u128::MAX);
    assert_eq!(raise_bid(&absurd, 10, None, 5), Err(ContractError::BidTooLow));
    assert_eq!(raise_bid(&absurd, 10, None, 11), Err(ContractError::ArithmeticOverflow));
}

#[test]
fn proceeds_are_the_amount_less_the_fee() {
    assert_eq!(owner_proceeds(25_050, FeeRate { atomics: MAX_FEE_ATOMICS }), Ok(24_800));
    assert_eq!(owner_proceeds(99, FeeRate { atomics: MAX_FEE_ATOMICS }), Ok(99));
    assert_eq!(owner_proceeds(12_345, FeeRate { atomics: 0 }), Ok(12_345));
    assert_eq!(owner_proceeds(0, FeeRate { atomics: MAX_FEE_ATOMICS }), Ok(0));
    // a rate of one whole takes everything
    assert_eq!(owner_proceeds(500, FeeRate { atomics: RATE_SCALE }), Ok(0));
}

#[test]
fn fee_above_the_amount_is_an_overflow() {
    assert_eq!(
        owner_proceeds(100, FeeRate { atomics: 2 * RATE_SCALE }),
        Err(ContractError::ArithmeticOverflow)
    );
    assert_eq!(
        owner_proceeds(100, FeeRate { atomics: u128::MAX }),
        Err(ContractError::ArithmeticOverflow)
    );
}

#[test]
fn escrow_is_due_once() {
    assert_eq!(escrow_due(Some(50)), Ok(50));
    assert_eq!(escrow_due(Some(u128::MAX)), Ok(u128::MAX));
    assert_eq!(escrow_due(Some(0)), Err(ContractError::AlreadyRetracted));
    assert_eq!(escrow_due(None), Err(ContractError::NoFundsToRetract));
}

//! Executing one local exchange between two pool assets through the hub
//! asset: validate tradability, obtain the two constant-product legs from
//! the math engine, and apply the resulting delta sets atomically.

use vstd::prelude::*;

use crate::math::{
    spec_in_given_out, spec_out_given_in, xyk_in_given_out, xyk_out_given_in, MathError,
};
use crate::types::{
    AssetReserveState, AssetStateChange, Balance, BalanceUpdate, SimpleImbalance, Tradability,
};

verus! {

/// A typed failure of an exchange: no partial state change accompanies any
/// of these.
#[derive(Clone, Copy, PartialEq, Eq, Structural, Debug)]
pub enum TradeError {
    /// A permission bit needed for the operation is not set.
    NotAllowed,
    /// The math engine refused the trade.
    Math(MathError),
    /// Applying the computed delta set would overflow a balance field.
    Overflow,
}

/// The result of a successful exchange: the two updated reserve states,
/// the (unchanged) imbalance, and the realized counter-amount — the output
/// bought for a sell, the input spent for a buy.
#[derive(Clone, Copy, PartialEq, Eq, Structural, Debug)]
pub struct TradeOutcome {
    pub asset_in: AssetReserveState,
    pub asset_out: AssetReserveState,
    pub imbalance: SimpleImbalance,
    pub amount: Balance,
}

/// The neutral change of one balance field.
pub open spec fn spec_no_update() -> BalanceUpdate {
    BalanceUpdate::Increase(0)
}

/// The delta set a sell of `amount_in` applies to the selling side: the
/// pool takes the input and gives hub asset for it. Shares and TVL are
/// untouched: a pure swap moves no liquidity.
pub open spec fn spec_sell_change_in(asset_in: AssetReserveState, amount_in: Balance) -> AssetStateChange {
    AssetStateChange {
        delta_reserve: BalanceUpdate::Increase(amount_in),
        delta_hub_reserve: BalanceUpdate::Decrease(
            spec_out_given_in(asset_in.reserve, asset_in.hub_reserve, amount_in),
        ),
        delta_shares: spec_no_update(),
        delta_protocol_shares: spec_no_update(),
        delta_tvl: spec_no_update(),
    }
}

/// The delta set a sell applies to the buying side: the pool takes the hub
/// amount freed on the selling side and gives the output for it.
pub open spec fn spec_sell_change_out(
    asset_in: AssetReserveState,
    asset_out: AssetReserveState,
    amount_in: Balance,
) -> AssetStateChange {
    AssetStateChange {
        delta_reserve: BalanceUpdate::Decrease(spec_sell_amount_out(asset_in, asset_out, amount_in)),
        delta_hub_reserve: BalanceUpdate::Increase(
            spec_out_given_in(asset_in.reserve, asset_in.hub_reserve, amount_in),
        ),
        delta_shares: spec_no_update(),
        delta_protocol_shares: spec_no_update(),
        delta_tvl: spec_no_update(),
    }
}

/// The output amount a sell of `amount_in` realizes: the second
/// constant-product leg applied to the hub amount from the first.
pub open spec fn spec_sell_amount_out(
    asset_in: AssetReserveState,
    asset_out: AssetReserveState,
    amount_in: Balance,
) -> Balance {
    spec_out_given_in(
        asset_out.hub_reserve,
        asset_out.reserve,
        spec_out_given_in(asset_in.reserve, asset_in.hub_reserve, amount_in),
    )
}

/// Whether the permission bits of both sides allow the exchange: the sold
/// asset must be sellable to the pool and the bought asset buyable from it.
pub open spec fn spec_trade_allowed(asset_in: AssetReserveState, asset_out: AssetReserveState) -> bool {
    asset_in.tradable.spec_contains(Tradability { bits: 0b0000_0001u8 })
        && asset_out.tradable.spec_contains(Tradability { bits: 0b0000_0010u8 })
}

/// The full outcome of a sell of `amount_in` units of the selling asset:
/// rejected before any math when a permission bit is missing, and the two
/// delta sets applied atomically otherwise.
pub open spec fn spec_sell(
    asset_in: AssetReserveState,
    asset_out: AssetReserveState,
    imbalance: SimpleImbalance,
    amount_in: Balance,
) -> Result<TradeOutcome, TradeError> {
    if !spec_trade_allowed(asset_in, asset_out) {
        Err(TradeError::NotAllowed)
    } else if asset_in.spec_delta_update(spec_sell_change_in(asset_in, amount_in)) is Some
        && asset_out.spec_delta_update(spec_sell_change_out(asset_in, asset_out, amount_in)) is Some {
        Ok(TradeOutcome {
            asset_in: asset_in.spec_delta_update(spec_sell_change_in(asset_in, amount_in)).unwrap(),
            asset_out: asset_out.spec_delta_update(
                spec_sell_change_out(asset_in, asset_out, amount_in),
            ).unwrap(),
            imbalance,
            amount: spec_sell_amount_out(asset_in, asset_out, amount_in),
        })
    } else {
        Err(TradeError::Overflow)
    }
}

/// Sells exactly `amount_in` units of the `asset_in` asset for the
/// `asset_out` asset through the hub asset. Checks tradability before any
/// math, asks the math engine for the two constant-product legs, and
/// applies both delta sets with checked arithmetic, all or nothing: on any
/// failure the inputs are untouched and an error tells why.
pub fn sell(
    asset_in: &AssetReserveState,
    asset_out: &AssetReserveState,
    imbalance: &SimpleImbalance,
    amount_in: Balance,
) -> (r: Result<TradeOutcome, TradeError>)
    ensures
        r == spec_sell(*asset_in, *asset_out, *imbalance, amount_in),
{
    if !(asset_in.tradable.contains(Tradability::sell())
        && asset_out.tradable.contains(Tradability::buy())) {
        return Err(TradeError::NotAllowed);
    }
    let delta_hub = match xyk_out_given_in(asset_in.reserve, asset_in.hub_reserve, amount_in) {
        Ok(v) => v,
        Err(e) => { return Err(TradeError::Math(e)); },
    };
    let amount_out = match xyk_out_given_in(asset_out.hub_reserve, asset_out.reserve, delta_hub) {
        Ok(v) => v,
        Err(e) => { return Err(TradeError::Math(e)); },
    };
    let change_in = AssetStateChange {
        delta_reserve: BalanceUpdate::Increase(amount_in),
        delta_hub_reserve: BalanceUpdate::Decrease(delta_hub),
        delta_shares: BalanceUpdate::Increase(0),
        delta_protocol_shares: BalanceUpdate::Increase(0),
        delta_tvl: BalanceUpdate::Increase(0),
    };
    let change_out = AssetStateChange {
        delta_reserve: BalanceUpdate::Decrease(amount_out),
        delta_hub_reserve: BalanceUpdate::Increase(delta_hub),
        delta_shares: BalanceUpdate::Increase(0),
        delta_protocol_shares: BalanceUpdate::Increase(0),
        delta_tvl: BalanceUpdate::Increase(0),
    };
    let new_in = match asset_in.delta_update(&change_in) {
        Some(s) => s,
        None => { return Err(TradeError::Overflow); },
    };
    let new_out = match asset_out.delta_update(&change_out) {
        Some(s) => s,
        None => { return Err(TradeError::Overflow); },
    };
    Ok(TradeOutcome { asset_in: new_in, asset_out: new_out, imbalance: *imbalance, amount: amount_out })
}

/// A successful sell is a pure swap: on each side only the reserve and the
/// hub reserve move, by the input amount and the realized output; the hub
/// asset taken from one side is exactly the hub asset given to the other;
/// shares, protocol shares, TVL, permissions and the imbalance are
/// untouched.
pub proof fn lemma_sell_is_pure_swap(
    asset_in: AssetReserveState,
    asset_out: AssetReserveState,
    imbalance: SimpleImbalance,
    amount_in: Balance,
    outcome: TradeOutcome,
)
    requires
        spec_sell(asset_in, asset_out, imbalance, amount_in) == Ok::<TradeOutcome, TradeError>(outcome),
    ensures
        outcome.asset_in.reserve == asset_in.reserve + amount_in,
        outcome.asset_in.hub_reserve <= asset_in.hub_reserve,
        outcome.asset_in.shares == asset_in.shares,
        outcome.asset_in.protocol_shares == asset_in.protocol_shares,
        outcome.asset_in.tvl == asset_in.tvl,
        outcome.asset_in.tradable == asset_in.tradable,
        outcome.asset_out.reserve + outcome.amount == asset_out.reserve,
        outcome.asset_out.hub_reserve >= asset_out.hub_reserve,
        outcome.asset_out.shares == asset_out.shares,
        outcome.asset_out.protocol_shares == asset_out.protocol_shares,
        outcome.asset_out.tvl == asset_out.tvl,
        outcome.asset_out.tradable == asset_out.tradable,
        outcome.asset_in.hub_reserve + outcome.asset_out.hub_reserve
            == asset_in.hub_reserve + asset_out.hub_reserve,
        outcome.imbalance == imbalance,
{
}

/// The hub amount a buy of `amount_out` must route into the buying side's
/// pool, as the math engine computes it.
pub open spec fn spec_buy_delta_hub(asset_out: AssetReserveState, amount_out: Balance) -> Result<Balance, MathError> {
    spec_in_given_out(asset_out.reserve, asset_out.hub_reserve, amount_out)
}

/// The input amount a buy of `amount_out` costs, given the hub amount of
/// the first leg.
pub open spec fn spec_buy_amount_in(asset_in: AssetReserveState, delta_hub: Balance) -> Result<Balance, MathError> {
    spec_in_given_out(asset_in.hub_reserve, asset_in.reserve, delta_hub)
}

/// The delta set a buy applies to the selling side, once both legs are
/// known: the pool takes the input and gives the hub amount for it.
pub open spec fn spec_buy_change_in(amount_in: Balance, delta_hub: Balance) -> AssetStateChange {
    AssetStateChange {
        delta_reserve: BalanceUpdate::Increase(amount_in),
        delta_hub_reserve: BalanceUpdate::Decrease(delta_hub),
        delta_shares: spec_no_update(),
        delta_protocol_shares: spec_no_update(),
        delta_tvl: spec_no_update(),
    }
}

/// The delta set a buy applies to the buying side: the pool takes the hub
/// amount and gives out exactly the requested output.
pub open spec fn spec_buy_change_out(amount_out: Balance, delta_hub: Balance) -> AssetStateChange {
    AssetStateChange {
        delta_reserve: BalanceUpdate::Decrease(amount_out),
        delta_hub_reserve: BalanceUpdate::Increase(delta_hub),
        delta_shares: spec_no_update(),
        delta_protocol_shares: spec_no_update(),
        delta_tvl: spec_no_update(),
    }
}

/// The full outcome of a buy of exactly `amount_out` units of the bought
/// asset: rejected before any math when a permission bit is missing; a
/// failure of either math leg surfaces as that math error; otherwise the
/// two delta sets are applied atomically.
pub open spec fn spec_buy(
    asset_in: AssetReserveState,
    asset_out: AssetReserveState,
    imbalance: SimpleImbalance,
    amount_out: Balance,
) -> Result<TradeOutcome, TradeError> {
    if !spec_trade_allowed(asset_in, asset_out) {
        Err(TradeError::NotAllowed)
    } else if spec_buy_delta_hub(asset_out, amount_out) is Err {
        Err(TradeError::Math(spec_buy_delta_hub(asset_out, amount_out)->Err_0))
    } else if spec_buy_amount_in(asset_in, spec_buy_delta_hub(asset_out, amount_out)->Ok_0) is Err {
        Err(TradeError::Math(
            spec_buy_amount_in(asset_in, spec_buy_delta_hub(asset_out, amount_out)->Ok_0)->Err_0,
        ))
    } else {
        spec_buy_apply(
            asset_in,
            asset_out,
            imbalance,
            amount_out,
            spec_buy_amount_in(asset_in, spec_buy_delta_hub(asset_out, amount_out)->Ok_0)->Ok_0,
            spec_buy_delta_hub(asset_out, amount_out)->Ok_0,
        )
    }
}

/// The atomic application step of a buy, once both legs are known.
pub open spec fn spec_buy_apply(
    asset_in: AssetReserveState,
    asset_out: AssetReserveState,
    imbalance: SimpleImbalance,
    amount_out: Balance,
    amount_in: Balance,
    delta_hub: Balance,
) -> Result<TradeOutcome, TradeError> {
    if asset_in.spec_delta_update(spec_buy_change_in(amount_in, delta_hub)) is Some
        && asset_out.spec_delta_update(spec_buy_change_out(amount_out, delta_hub)) is Some {
        Ok(TradeOutcome {
            asset_in: asset_in.spec_delta_update(spec_buy_change_in(amount_in, delta_hub)).unwrap(),
            asset_out: asset_out.spec_delta_update(spec_buy_change_out(amount_out, delta_hub)).unwrap(),
            imbalance,
            amount: amount_in,
        })
    } else {
        Err(TradeError::Overflow)
    }
}

/// Buys exactly `amount_out` units of the `asset_out` asset, paying with
/// the `asset_in` asset through the hub asset. Checks tradability before
/// any math, asks the math engine what the two legs cost, and applies both
/// delta sets with checked arithmetic, all or nothing: on any failure the
/// inputs are untouched and an error tells why.
pub fn buy(
    asset_in: &AssetReserveState,
    asset_out: &AssetReserveState,
    imbalance: &SimpleImbalance,
    amount_out: Balance,
) -> (r: Result<TradeOutcome, TradeError>)
    ensures
        r == spec_buy(*asset_in, *asset_out, *imbalance, amount_out),
{
    if !(asset_in.tradable.contains(Tradability::sell())
        && asset_out.tradable.contains(Tradability::buy())) {
        return Err(TradeError::NotAllowed);
    }
    let delta_hub = match xyk_in_given_out(asset_out.reserve, asset_out.hub_reserve, amount_out) {
        Ok(v) => v,
        Err(e) => { return Err(TradeError::Math(e)); },
    };
    let amount_in = match xyk_in_given_out(asset_in.hub_reserve, asset_in.reserve, delta_hub) {
        Ok(v) => v,
        Err(e) => { return Err(TradeError::Math(e)); },
    };
    let change_in = AssetStateChange {
        delta_reserve: BalanceUpdate::Increase(amount_in),
        delta_hub_reserve: BalanceUpdate::Decrease(delta_hub),
        delta_shares: BalanceUpdate::Increase(0),
        delta_protocol_shares: BalanceUpdate::Increase(0),
        delta_tvl: BalanceUpdate::Increase(0),
    };
    let change_out = AssetStateChange {
        delta_reserve: BalanceUpdate::Decrease(amount_out),
        delta_hub_reserve: BalanceUpdate::Increase(delta_hub),
        delta_shares: BalanceUpdate::Increase(0),
        delta_protocol_shares: BalanceUpdate::Increase(0),
        delta_tvl: BalanceUpdate::Increase(0),
    };
    let new_in = match asset_in.delta_update(&change_in) {
        Some(s) => s,
        None => { return Err(TradeError::Overflow); },
    };
    let new_out = match asset_out.delta_update(&change_out) {
        Some(s) => s,
        None => { return Err(TradeError::Overflow); },
    };
    Ok(TradeOutcome { asset_in: new_in, asset_out: new_out, imbalance: *imbalance, amount: amount_in })
}

/// Executes one local exchange-asset instruction: with `maximal` set the
/// given amount is a ceiling and is sold in full for whatever output the
/// pools yield (sell-exact-in); without it the amount is a floor and
/// exactly that output is bought for whatever input the pools demand
/// (buy-exact-out). One invocation performs one local exchange; routing
/// beyond it belongs to the message layer.
pub fn exchange_asset(
    asset_in: &AssetReserveState,
    asset_out: &AssetReserveState,
    imbalance: &SimpleImbalance,
    amount: Balance,
    maximal: bool,
) -> (r: Result<TradeOutcome, TradeError>)
    ensures
        maximal ==> r == spec_sell(*asset_in, *asset_out, *imbalance, amount),
        !maximal ==> r == spec_buy(*asset_in, *asset_out, *imbalance, amount),
{
    if maximal {
        sell(asset_in, asset_out, imbalance, amount)
    } else {
        buy(asset_in, asset_out, imbalance, amount)
    }
}

/// A successful buy is a pure swap, the mirror of the sell: the buying
/// side gives out exactly the requested amount, the selling side takes
/// exactly the realized input, the hub asset moved out of one side is the
/// hub asset moved into the other, and shares, protocol shares, TVL,
/// permissions and the imbalance are untouched.
pub proof fn lemma_buy_is_pure_swap(
    asset_in: AssetReserveState,
    asset_out: AssetReserveState,
    imbalance: SimpleImbalance,
    amount_out: Balance,
    outcome: TradeOutcome,
)
    requires
        spec_buy(asset_in, asset_out, imbalance, amount_out) == Ok::<TradeOutcome, TradeError>(outcome),
    ensures
        outcome.asset_in.reserve == asset_in.reserve + outcome.amount,
        outcome.asset_in.hub_reserve <= asset_in.hub_reserve,
        outcome.asset_in.shares == asset_in.shares,
        outcome.asset_in.protocol_shares == asset_in.protocol_shares,
        outcome.asset_in.tvl == asset_in.tvl,
        outcome.asset_in.tradable == asset_in.tradable,
        outcome.asset_out.reserve + amount_out == asset_out.reserve,
        outcome.asset_out.hub_reserve >= asset_out.hub_reserve,
        outcome.asset_out.shares == asset_out.shares,
        outcome.asset_out.protocol_shares == asset_out.protocol_shares,
        outcome.asset_out.tvl == asset_out.tvl,
        outcome.asset_out.tradable == asset_out.tradable,
        outcome.asset_in.hub_reserve + outcome.asset_out.hub_reserve
            == asset_in.hub_reserve + asset_out.hub_reserve,
        outcome.imbalance == imbalance,
{
}

} // verus!

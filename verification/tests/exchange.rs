use omnipool::exchange::{buy, sell, TradeError};
use omnipool::math::MathError;
use omnipool::price::{Price, FIXED_ONE};
use omnipool::types::{AssetReserveState, SimpleImbalance, Tradability};

fn pool_asset(reserve: u128, hub_reserve: u128) -> AssetReserveState {
    AssetReserveState {
        reserve,
        hub_reserve,
        shares: 600,
        protocol_shares: 70,
        tvl: 800,
        tradable: Tradability::default(),
    }
}

#[test]
fn sell_swaps_through_the_hub_asset() {
    // Both assets priced 1.0: equal reserve and hub reserve.
    let asset_in = pool_asset(3000, 3000);
    let asset_out = pool_asset(3000, 3000);
    let imbalance = SimpleImbalance::default();
    assert_eq!(asset_in.price(), Some(Price { inner: FIXED_ONE }));

    let outcome = sell(&asset_in, &asset_out, &imbalance, 50).unwrap();

    // First leg: 3000 * 50 / 3050 = 49 hub units leave the selling side.
    assert_eq!(outcome.asset_in.reserve, 3050);
    assert_eq!(outcome.asset_in.hub_reserve, 2951);
    // Second leg: 3000 * 49 / 3049 = 48 units of the bought asset.
    assert_eq!(outcome.asset_out.reserve, 2952);
    assert_eq!(outcome.asset_out.hub_reserve, 3049);
    assert_eq!(outcome.amount, 48);

    // A pure swap: liquidity, permissions and the imbalance are untouched.
    assert_eq!(outcome.asset_in.shares, 600);
    assert_eq!(outcome.asset_in.protocol_shares, 70);
    assert_eq!(outcome.asset_in.tvl, 800);
    assert_eq!(outcome.asset_out.shares, 600);
    assert_eq!(outcome.asset_out.protocol_shares, 70);
    assert_eq!(outcome.asset_out.tvl, 800);
    assert_eq!(outcome.imbalance, imbalance);

    // The hub asset only moved between the two sides.
    assert_eq!(
        outcome.asset_in.hub_reserve + outcome.asset_out.hub_reserve,
        asset_in.hub_reserve + asset_out.hub_reserve
    );

    // Each side still prices consistently: the sold asset got cheaper,
    // the bought one dearer, and the constant product of neither pool
    // shrank.
    assert!(outcome.asset_in.price().unwrap().inner < FIXED_ONE);
    assert!(outcome.asset_out.price().unwrap().inner > FIXED_ONE);
    assert!(outcome.asset_in.reserve * outcome.asset_in.hub_reserve >= 3000 * 3000);
    assert!(outcome.asset_out.reserve * outcome.asset_out.hub_reserve >= 3000 * 3000);
}

#[test]
fn buy_swaps_through_the_hub_asset() {
    let asset_in = pool_asset(3000, 3000);
    let asset_out = pool_asset(3000, 3000);
    let imbalance = SimpleImbalance::default();

    let outcome = buy(&asset_in, &asset_out, &imbalance, 50).unwrap();

    // First leg: 3000 * 50 / 2950 rounded up costs 51 hub units.
    assert_eq!(outcome.asset_out.reserve, 2950);
    assert_eq!(outcome.asset_out.hub_reserve, 3051);
    // Second leg: 3000 * 51 / 2949 rounded up costs 52 input units.
    assert_eq!(outcome.asset_in.reserve, 3052);
    assert_eq!(outcome.asset_in.hub_reserve, 2949);
    assert_eq!(outcome.amount, 52);

    assert_eq!(outcome.asset_in.shares, 600);
    assert_eq!(outcome.asset_out.shares, 600);
    assert_eq!(outcome.imbalance, imbalance);
    assert_eq!(
        outcome.asset_in.hub_reserve + outcome.asset_out.hub_reserve,
        asset_in.hub_reserve + asset_out.hub_reserve
    );
}

#[test]
fn sell_of_zero_moves_nothing() {
    let asset_in = pool_asset(3000, 3000);
    let asset_out = pool_asset(3000, 3000);
    let imbalance = SimpleImbalance::default();

    let outcome = sell(&asset_in, &asset_out, &imbalance, 0).unwrap();
    assert_eq!(outcome.asset_in, asset_in);
    assert_eq!(outcome.asset_out, asset_out);
    assert_eq!(outcome.amount, 0);
}

#[test]
fn trade_is_rejected_without_the_permission_bits() {
    let imbalance = SimpleImbalance::default();

    let mut frozen_in = pool_asset(3000, 3000);
    frozen_in.tradable = Tradability::frozen();
    let asset_out = pool_asset(3000, 3000);
    assert_eq!(
        sell(&frozen_in, &asset_out, &imbalance, 50),
        Err(TradeError::NotAllowed)
    );
    assert_eq!(
        buy(&frozen_in, &asset_out, &imbalance, 50),
        Err(TradeError::NotAllowed)
    );

    // Selling needs the buy bit on the bought side too.
    let asset_in = pool_asset(3000, 3000);
    let mut sell_only_out = pool_asset(3000, 3000);
    sell_only_out.tradable = Tradability::sell();
    assert_eq!(
        sell(&asset_in, &sell_only_out, &imbalance, 50),
        Err(TradeError::NotAllowed)
    );
}

#[test]
fn buy_is_rejected_when_the_pool_cannot_cover_it() {
    let asset_in = pool_asset(3000, 3000);
    let asset_out = pool_asset(3000, 3000);
    let imbalance = SimpleImbalance::default();

    assert_eq!(
        buy(&asset_in, &asset_out, &imbalance, 4000),
        Err(TradeError::Math(MathError::InsufficientOutReserve))
    );
    assert_eq!(
        buy(&asset_in, &asset_out, &imbalance, 3000),
        Err(TradeError::Math(MathError::ZeroReserve))
    );
}

#[test]
fn buy_is_rejected_when_the_cost_overflows() {
    let asset_in = pool_asset(3000, 3000);
    // Buying 1 of a 2-unit reserve against a huge hub reserve costs more
    // than the balance type can carry.
    let asset_out = pool_asset(2, u128::MAX);
    let imbalance = SimpleImbalance::default();

    assert_eq!(
        buy(&asset_in, &asset_out, &imbalance, 1),
        Err(TradeError::Math(MathError::Overflow))
    );
}

#[test]
fn sell_is_rejected_when_a_field_would_overflow() {
    // The selling side's reserve is already at the maximum: taking one
    // more unit in cannot be recorded.
    let asset_in = pool_asset(u128::MAX, 3000);
    let asset_out = pool_asset(3000, 3000);
    let imbalance = SimpleImbalance::default();

    assert_eq!(
        sell(&asset_in, &asset_out, &imbalance, 1),
        Err(TradeError::Overflow)
    );
    // The inputs are untouched by the rejected call.
    assert_eq!(asset_in.reserve, u128::MAX);
    assert_eq!(asset_out.reserve, 3000);
}

#[test]
fn exchange_asset_honors_the_maximal_flag() {
    let asset_in = pool_asset(3000, 3000);
    let asset_out = pool_asset(3000, 3000);
    let imbalance = SimpleImbalance::default();

    // Maximal: sell exactly the given amount, take what it yields.
    let sold = omnipool::exchange::exchange_asset(&asset_in, &asset_out, &imbalance, 50, true);
    assert_eq!(sold, sell(&asset_in, &asset_out, &imbalance, 50));
    assert_eq!(sold.unwrap().asset_in.reserve, 3050);

    // Not maximal: buy exactly the given amount, pay what it costs.
    let bought = omnipool::exchange::exchange_asset(&asset_in, &asset_out, &imbalance, 50, false);
    assert_eq!(bought, buy(&asset_in, &asset_out, &imbalance, 50));
    assert_eq!(bought.unwrap().asset_out.reserve, 2950);
}

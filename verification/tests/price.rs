use omnipool::price::{Price, FIXED_ONE};
use omnipool::types::{AssetReserveState, Tradability};

fn state_with(reserve: u128, hub_reserve: u128) -> AssetReserveState {
    AssetReserveState {
        reserve,
        hub_reserve,
        shares: 0,
        protocol_shares: 0,
        tvl: 0,
        tradable: Tradability::default(),
    }
}

#[test]
fn price_is_none_for_zero_reserve() {
    assert_eq!(state_with(0, 3000).price(), None);
    assert_eq!(state_with(0, 0).price(), None);
}

#[test]
fn price_of_equal_reserves_is_one() {
    assert_eq!(state_with(3000, 3000).price(), Some(Price { inner: FIXED_ONE }));
}

#[test]
fn price_is_the_exact_fixed_point_ratio() {
    assert_eq!(state_with(1, 2).price(), Some(Price { inner: 2 * FIXED_ONE }));
    assert_eq!(
        state_with(2, 1).price(),
        Some(Price {
            inner: FIXED_ONE / 2
        })
    );
    // An inexact ratio is rounded towards zero.
    assert_eq!(
        state_with(3, 1).price(),
        Some(Price {
            inner: 333_333_333_333_333_333
        })
    );
}

#[test]
fn price_is_none_when_not_representable() {
    assert_eq!(state_with(1, u128::MAX).price(), None);
}

#[test]
fn spot_price_routes_through_the_hub() {
    // Asset a priced 1.0, asset b priced 2.0: a in terms of b is 0.5.
    let a = state_with(3000, 3000);
    let b = state_with(1500, 3000);
    assert_eq!(
        omnipool::price::spot_price(&a, &b),
        Some(Price {
            inner: FIXED_ONE / 2
        })
    );

    // A zero reserve on either side leaves the price undefined.
    assert_eq!(omnipool::price::spot_price(&state_with(0, 3000), &b), None);
    assert_eq!(omnipool::price::spot_price(&a, &state_with(1500, 0)), None);

    // An overflowing cross product has no price either.
    assert_eq!(
        omnipool::price::spot_price(&state_with(1, u128::MAX), &state_with(u128::MAX, 1)),
        None
    );
}

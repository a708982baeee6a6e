//! Persisted and transient state types of the pool, and the checked
//! signed-delta arithmetic that every state transition goes through.

use vstd::prelude::*;

verus! {

/// Balance type used throughout the pool.
pub type Balance = u128;

/// Identifier of an asset.
pub type AssetId = u32;

/// Bit set of the operations currently permitted for an asset.
///
/// Bit 0 permits selling the asset to the pool, bit 1 buying it from the
/// pool, bit 2 adding liquidity and bit 3 removing liquidity. The zero mask
/// (frozen) permits nothing; the default permits all four.
#[derive(Clone, Copy, PartialEq, Eq, Structural, Debug)]
pub struct Tradability {
    pub bits: u8,
}

impl Tradability {
    /// An operation set is permitted when every one of its bits is set here.
    pub open spec fn spec_contains(self, other: Tradability) -> bool {
        self.bits & other.bits == other.bits
    }

    /// The empty permission set: no operation is allowed.
    pub fn frozen() -> (r: Tradability)
        ensures
            r.bits == 0u8,
    {
        Tradability { bits: 0 }
    }

    /// Permission to sell the asset to the pool.
    pub fn sell() -> (r: Tradability)
        ensures
            r.bits == 0b0000_0001u8,
    {
        Tradability { bits: 0b0000_0001 }
    }

    /// Permission to buy the asset from the pool.
    pub fn buy() -> (r: Tradability)
        ensures
            r.bits == 0b0000_0010u8,
    {
        Tradability { bits: 0b0000_0010 }
    }

    /// Permission to add liquidity of the asset.
    pub fn add_liquidity() -> (r: Tradability)
        ensures
            r.bits == 0b0000_0100u8,
    {
        Tradability { bits: 0b0000_0100 }
    }

    /// Permission to remove liquidity of the asset.
    pub fn remove_liquidity() -> (r: Tradability)
        ensures
            r.bits == 0b0000_1000u8,
    {
        Tradability { bits: 0b0000_1000 }
    }

    /// Combines two permission sets.
    pub fn union(self, other: Tradability) -> (r: Tradability)
        ensures
            r.bits == self.bits | other.bits,
    {
        Tradability { bits: self.bits | other.bits }
    }

    /// True when every operation of `other` is permitted by `self`.
    pub fn contains(&self, other: Tradability) -> (r: bool)
        ensures
            r == self.spec_contains(other),
    {
        self.bits & other.bits == other.bits
    }
}

impl Default for Tradability {
    /// By default every operation is permitted.
    fn default() -> (r: Tradability)
        ensures
            r.bits == 0b0000_1111u8,
    {
        Tradability { bits: 0b0000_1111 }
    }
}

/// The default permission set contains each of the four capabilities, and
/// the frozen (zero) set contains none of them.
pub proof fn lemma_tradability_default_and_frozen()
    ensures
        (Tradability { bits: 0b0000_1111u8 }).spec_contains(Tradability { bits: 0b0000_0001u8 }),
        (Tradability { bits: 0b0000_1111u8 }).spec_contains(Tradability { bits: 0b0000_0010u8 }),
        (Tradability { bits: 0b0000_1111u8 }).spec_contains(Tradability { bits: 0b0000_0100u8 }),
        (Tradability { bits: 0b0000_1111u8 }).spec_contains(Tradability { bits: 0b0000_1000u8 }),
        !(Tradability { bits: 0u8 }).spec_contains(Tradability { bits: 0b0000_0001u8 }),
        !(Tradability { bits: 0u8 }).spec_contains(Tradability { bits: 0b0000_0010u8 }),
        !(Tradability { bits: 0u8 }).spec_contains(Tradability { bits: 0b0000_0100u8 }),
        !(Tradability { bits: 0u8 }).spec_contains(Tradability { bits: 0b0000_1000u8 }),
{
    assert(0b0000_1111u8 & 0b0000_0001u8 == 0b0000_0001u8) by (bit_vector);
    assert(0b0000_1111u8 & 0b0000_0010u8 == 0b0000_0010u8) by (bit_vector);
    assert(0b0000_1111u8 & 0b0000_0100u8 == 0b0000_0100u8) by (bit_vector);
    assert(0b0000_1111u8 & 0b0000_1000u8 == 0b0000_1000u8) by (bit_vector);
    assert(0u8 & 0b0000_0001u8 == 0u8) by (bit_vector);
    assert(0u8 & 0b0000_0010u8 == 0u8) by (bit_vector);
    assert(0u8 & 0b0000_0100u8 == 0u8) by (bit_vector);
    assert(0u8 & 0b0000_1000u8 == 0u8) by (bit_vector);
}

/// A single signed change of one balance field: either an increase or a
/// decrease by the carried amount.
#[derive(Clone, Copy, PartialEq, Eq, Structural, Debug)]
pub enum BalanceUpdate {
    Increase(Balance),
    Decrease(Balance),
}

impl BalanceUpdate {
    /// The value after applying this change to `value` with checked
    /// arithmetic: `None` exactly on overflow or underflow.
    pub open spec fn spec_apply(self, value: Balance) -> Option<Balance> {
        match self {
            BalanceUpdate::Increase(a) => if value + a <= u128::MAX {
                Some((value + a) as Balance)
            } else {
                None
            },
            BalanceUpdate::Decrease(a) => if a <= value {
                Some((value - a) as Balance)
            } else {
                None
            },
        }
    }

    /// Applies this change to `value`; fails exactly when the checked
    /// arithmetic overflows or underflows.
    pub fn apply(&self, value: Balance) -> (r: Option<Balance>)
        ensures
            r == self.spec_apply(value),
    {
        match self {
            BalanceUpdate::Increase(a) => value.checked_add(*a),
            BalanceUpdate::Decrease(a) => value.checked_sub(*a),
        }
    }
}

impl Default for BalanceUpdate {
    /// The neutral change: an increase by zero.
    fn default() -> (r: BalanceUpdate)
        ensures
            r == BalanceUpdate::Increase(0u128),
    {
        BalanceUpdate::Increase(0)
    }
}

/// A set of independently signed changes to the balance fields of one
/// asset's reserve state, applied as a whole or not at all.
#[derive(Clone, Copy, PartialEq, Eq, Structural, Debug)]
pub struct AssetStateChange {
    pub delta_reserve: BalanceUpdate,
    pub delta_hub_reserve: BalanceUpdate,
    pub delta_shares: BalanceUpdate,
    pub delta_protocol_shares: BalanceUpdate,
    pub delta_tvl: BalanceUpdate,
}

impl Default for AssetStateChange {
    /// The neutral change set: every field unchanged.
    fn default() -> (r: AssetStateChange)
        ensures
            r == (AssetStateChange {
                delta_reserve: BalanceUpdate::Increase(0u128),
                delta_hub_reserve: BalanceUpdate::Increase(0u128),
                delta_shares: BalanceUpdate::Increase(0u128),
                delta_protocol_shares: BalanceUpdate::Increase(0u128),
                delta_tvl: BalanceUpdate::Increase(0u128),
            }),
    {
        AssetStateChange {
            delta_reserve: BalanceUpdate::Increase(0),
            delta_hub_reserve: BalanceUpdate::Increase(0),
            delta_shares: BalanceUpdate::Increase(0),
            delta_protocol_shares: BalanceUpdate::Increase(0),
            delta_tvl: BalanceUpdate::Increase(0),
        }
    }
}

/// The persisted per-asset record. The raw reserve balance is not stored
/// here: it is the externally held token balance of the pool's custodial
/// account, and is joined in through [`AssetReserveState`].
#[derive(Clone, Copy, PartialEq, Eq, Structural, Debug)]
pub struct AssetState {
    /// Quantity of hub asset matching this asset.
    pub hub_reserve: Balance,
    /// Quantity of LP shares for this asset.
    pub shares: Balance,
    /// Quantity of LP shares for this asset owned by the protocol.
    pub protocol_shares: Balance,
    /// TVL of the asset.
    pub tvl: Balance,
    /// The asset's trade-permission state.
    pub tradable: Tradability,
}

impl Default for AssetState {
    fn default() -> (r: AssetState)
        ensures
            r == (AssetState {
                hub_reserve: 0u128,
                shares: 0u128,
                protocol_shares: 0u128,
                tvl: 0u128,
                tradable: Tradability { bits: 0b0000_1111u8 },
            }),
    {
        AssetState {
            hub_reserve: 0,
            shares: 0,
            protocol_shares: 0,
            tvl: 0,
            tradable: Tradability { bits: 0b0000_1111 },
        }
    }
}

/// The transient per-operation view of an asset: the persisted record plus
/// the externally observed reserve balance. All pricing and delta math
/// operates on this composition; it is never itself persisted.
#[derive(Clone, Copy, PartialEq, Eq, Structural, Debug)]
pub struct AssetReserveState {
    /// Quantity of the asset held by the pool.
    pub reserve: Balance,
    /// Quantity of hub asset matching this asset.
    pub hub_reserve: Balance,
    /// Quantity of LP shares for this asset.
    pub shares: Balance,
    /// Quantity of LP shares for this asset owned by the protocol.
    pub protocol_shares: Balance,
    /// TVL of the asset.
    pub tvl: Balance,
    /// The asset's trade-permission state.
    pub tradable: Tradability,
}

impl From<AssetReserveState> for AssetState {
    /// Drops the transient reserve figure, keeping the persisted fields.
    fn from(s: AssetReserveState) -> (r: AssetState) {
        AssetState {
            hub_reserve: s.hub_reserve,
            shares: s.shares,
            protocol_shares: s.protocol_shares,
            tvl: s.tvl,
            tradable: s.tradable,
        }
    }
}

impl vstd::std_specs::convert::FromSpecImpl<AssetReserveState> for AssetState {
    open spec fn obeys_from_spec() -> bool {
        true
    }

    open spec fn from_spec(s: AssetReserveState) -> AssetState {
        AssetState {
            hub_reserve: s.hub_reserve,
            shares: s.shares,
            protocol_shares: s.protocol_shares,
            tvl: s.tvl,
            tradable: s.tradable,
        }
    }
}

impl From<(AssetState, Balance)> for AssetReserveState {
    /// Joins the persisted record with the live reserve balance.
    fn from(pair: (AssetState, Balance)) -> (r: AssetReserveState) {
        AssetReserveState {
            reserve: pair.1,
            hub_reserve: pair.0.hub_reserve,
            shares: pair.0.shares,
            protocol_shares: pair.0.protocol_shares,
            tvl: pair.0.tvl,
            tradable: pair.0.tradable,
        }
    }
}

impl vstd::std_specs::convert::FromSpecImpl<(AssetState, Balance)> for AssetReserveState {
    open spec fn obeys_from_spec() -> bool {
        true
    }

    open spec fn from_spec(pair: (AssetState, Balance)) -> AssetReserveState {
        AssetReserveState {
            reserve: pair.1,
            hub_reserve: pair.0.hub_reserve,
            shares: pair.0.shares,
            protocol_shares: pair.0.protocol_shares,
            tvl: pair.0.tvl,
            tradable: pair.0.tradable,
        }
    }
}

impl AssetReserveState {
    /// The state after applying the whole change set, or `None` when any
    /// single field's checked arithmetic fails. The permission bits pass
    /// through unchanged.
    pub open spec fn spec_delta_update(self, delta: AssetStateChange) -> Option<AssetReserveState> {
        if delta.delta_reserve.spec_apply(self.reserve) is Some
            && delta.delta_hub_reserve.spec_apply(self.hub_reserve) is Some
            && delta.delta_shares.spec_apply(self.shares) is Some
            && delta.delta_protocol_shares.spec_apply(self.protocol_shares) is Some
            && delta.delta_tvl.spec_apply(self.tvl) is Some {
            Some(AssetReserveState {
                reserve: delta.delta_reserve.spec_apply(self.reserve).unwrap(),
                hub_reserve: delta.delta_hub_reserve.spec_apply(self.hub_reserve).unwrap(),
                shares: delta.delta_shares.spec_apply(self.shares).unwrap(),
                protocol_shares: delta.delta_protocol_shares.spec_apply(self.protocol_shares).unwrap(),
                tvl: delta.delta_tvl.spec_apply(self.tvl).unwrap(),
                tradable: self.tradable,
            })
        } else {
            None
        }
    }

    /// Applies the change set atomically: every field is updated by its own
    /// signed delta with checked arithmetic, and if any single field would
    /// overflow or underflow the whole call returns `None` and `self` is
    /// untouched.
    pub fn delta_update(&self, delta: &AssetStateChange) -> (r: Option<AssetReserveState>)
        ensures
            r == self.spec_delta_update(*delta),
    {
        let reserve = match delta.delta_reserve.apply(self.reserve) {
            Some(v) => v,
            None => { return None; },
        };
        let hub_reserve = match delta.delta_hub_reserve.apply(self.hub_reserve) {
            Some(v) => v,
            None => { return None; },
        };
        let shares = match delta.delta_shares.apply(self.shares) {
            Some(v) => v,
            None => { return None; },
        };
        let protocol_shares = match delta.delta_protocol_shares.apply(self.protocol_shares) {
            Some(v) => v,
            None => { return None; },
        };
        let tvl = match delta.delta_tvl.apply(self.tvl) {
            Some(v) => v,
            None => { return None; },
        };
        Some(AssetReserveState {
            reserve,
            hub_reserve,
            shares,
            protocol_shares,
            tvl,
            tradable: self.tradable,
        })
    }
}

/// A liquidity provider's position: a record of the moment liquidity of an
/// asset was provided at that moment's price.
#[derive(Clone, Copy, PartialEq, Eq, Structural, Debug)]
pub struct Position {
    /// The provided asset.
    pub asset_id: AssetId,
    /// Amount of the asset added to the pool.
    pub amount: Balance,
    /// Quantity of LP shares owned by the provider.
    pub shares: Balance,
    /// Price at which the liquidity was provided, stored as the raw inner
    /// integer of the fixed-point representation.
    pub price: Balance,
}

impl Position {
    /// The position after applying the two signed deltas to `amount` and
    /// `shares`; the asset and the entry price never change.
    pub open spec fn spec_delta_update(
        self,
        delta_reserve: BalanceUpdate,
        delta_shares: BalanceUpdate,
    ) -> Option<Position> {
        if delta_reserve.spec_apply(self.amount) is Some
            && delta_shares.spec_apply(self.shares) is Some {
            Some(Position {
                asset_id: self.asset_id,
                amount: delta_reserve.spec_apply(self.amount).unwrap(),
                shares: delta_shares.spec_apply(self.shares).unwrap(),
                price: self.price,
            })
        } else {
            None
        }
    }

    /// Updates the position by the given delta changes with checked
    /// arithmetic; fails as a whole when either delta overflows or
    /// underflows, leaving `self` untouched.
    pub fn delta_update(
        &self,
        delta_reserve: &BalanceUpdate,
        delta_shares: &BalanceUpdate,
    ) -> (r: Option<Position>)
        ensures
            r == self.spec_delta_update(*delta_reserve, *delta_shares),
    {
        let amount = match delta_reserve.apply(self.amount) {
            Some(v) => v,
            None => { return None; },
        };
        let shares = match delta_shares.apply(self.shares) {
            Some(v) => v,
            None => { return None; },
        };
        Some(Position { asset_id: self.asset_id, amount, shares, price: self.price })
    }
}

/// A protocol-wide hub-asset surplus or deficit as a signed magnitude:
/// the represented quantity is `-value` when `negative` holds, else
/// `+value`. Zero is representable with either sign.
#[derive(Clone, Copy, PartialEq, Eq, Structural, Debug)]
pub struct SimpleImbalance {
    pub value: Balance,
    pub negative: bool,
}

impl Default for SimpleImbalance {
    /// The initial imbalance: zero, on the negative side.
    fn default() -> (r: SimpleImbalance)
        ensures
            r == (SimpleImbalance { value: 0u128, negative: true }),
    {
        SimpleImbalance { value: 0, negative: true }
    }
}

impl SimpleImbalance {
    /// The imbalance after adding `amount`: on the non-negative side the
    /// magnitude grows (failing only on overflow); on the negative side the
    /// magnitude shrinks, crossing zero to the non-negative side when
    /// `amount` exceeds it.
    pub open spec fn spec_add(self, amount: Balance) -> Option<SimpleImbalance> {
        if !self.negative {
            if self.value + amount <= u128::MAX {
                Some(SimpleImbalance { value: (self.value + amount) as Balance, negative: false })
            } else {
                None
            }
        } else if self.value < amount {
            Some(SimpleImbalance { value: (amount - self.value) as Balance, negative: false })
        } else {
            Some(SimpleImbalance { value: (self.value - amount) as Balance, negative: true })
        }
    }

    /// The imbalance after subtracting `amount`: the mirror of `spec_add`.
    pub open spec fn spec_sub(self, amount: Balance) -> Option<SimpleImbalance> {
        if self.negative {
            if self.value + amount <= u128::MAX {
                Some(SimpleImbalance { value: (self.value + amount) as Balance, negative: true })
            } else {
                None
            }
        } else if self.value < amount {
            Some(SimpleImbalance { value: (amount - self.value) as Balance, negative: true })
        } else {
            Some(SimpleImbalance { value: (self.value - amount) as Balance, negative: false })
        }
    }

    /// Adds `amount` to the imbalance. Fails only on genuine overflow of
    /// the magnitude, never on a sign crossing: crossing zero from the
    /// negative side is a normal, successful transition.
    pub fn add(self, amount: Balance) -> (r: Option<SimpleImbalance>)
        ensures
            r == self.spec_add(amount),
    {
        if !self.negative {
            match self.value.checked_add(amount) {
                Some(value) => Some(SimpleImbalance { value, negative: self.negative }),
                None => None,
            }
        } else if self.value < amount {
            Some(SimpleImbalance { value: amount - self.value, negative: false })
        } else {
            Some(SimpleImbalance { value: self.value - amount, negative: self.negative })
        }
    }

    /// Subtracts `amount` from the imbalance: the mirror of `add`.
    pub fn sub(self, amount: Balance) -> (r: Option<SimpleImbalance>)
        ensures
            r == self.spec_sub(amount),
    {
        if self.negative {
            match self.value.checked_add(amount) {
                Some(value) => Some(SimpleImbalance { value, negative: self.negative }),
                None => None,
            }
        } else if self.value < amount {
            Some(SimpleImbalance { value: amount - self.value, negative: true })
        } else {
            Some(SimpleImbalance { value: self.value - amount, negative: self.negative })
        }
    }
}

/// Adding an amount and then subtracting it again returns to the starting
/// imbalance, whenever the addition does not overflow. The one starting
/// point left out is a zero magnitude on the negative side with a positive
/// amount: there the round trip lands on the zero of the other sign.
pub proof fn lemma_imbalance_add_sub_round_trip(imb: SimpleImbalance, amount: Balance)
    requires
        imb.spec_add(amount) is Some,
        !(imb.negative && imb.value == 0 && amount > 0),
    ensures
        imb.spec_add(amount).unwrap().spec_sub(amount) == Some(imb),
{
}

/// Subtracting an amount and then adding it again returns to the starting
/// imbalance, whenever the subtraction does not overflow. The one starting
/// point left out is a zero magnitude on the non-negative side with a
/// positive amount: there the round trip lands on the zero of the other
/// sign.
pub proof fn lemma_imbalance_sub_add_round_trip(imb: SimpleImbalance, amount: Balance)
    requires
        imb.spec_sub(amount) is Some,
        !(!imb.negative && imb.value == 0 && amount > 0),
    ensures
        imb.spec_sub(amount).unwrap().spec_add(amount) == Some(imb),
{
}

/// Adding a positive amount to a zero imbalance on the negative side
/// crosses zero: the result carries that amount on the non-negative side.
pub proof fn lemma_imbalance_zero_crossing(amount: Balance)
    requires
        amount > 0,
    ensures
        (SimpleImbalance { value: 0u128, negative: true }).spec_add(amount)
            == Some(SimpleImbalance { value: amount, negative: false }),
{
}

} // verus!

use vstd::prelude::*;
use crate::address::Address;

verus! {

/// The platform was set up.
#[derive(Clone, Copy, Debug)]
pub struct PlatformInitialized {
    pub authority: Address,
    pub treasury: Address,
}

/// A bond offering was created.
#[derive(Clone, Debug)]
pub struct BondCreated {
    pub bond: Address,
    pub issuer: Address,
    pub name: String,
    pub principal_amount: u64,
    pub coupon_rate_bps: u64,
    pub maturity_timestamp: i64,
    pub total_supply: u64,
}

/// Collateral was added to a bond; `total_collateral` is the new total.
#[derive(Clone, Copy, Debug)]
pub struct CollateralDeposited {
    pub bond: Address,
    pub amount: u64,
    pub total_collateral: u64,
}

/// Units were sold on the primary market for `payment_amount`, of which `fee_amount` is the fee.
#[derive(Clone, Copy, Debug)]
pub struct BondPurchased {
    pub bond: Address,
    pub buyer: Address,
    pub quantity: u64,
    pub payment_amount: u64,
    pub fee_amount: u64,
}

/// The issuer funded the yield vault at `timestamp`.
#[derive(Clone, Copy, Debug)]
pub struct YieldDeposited {
    pub bond: Address,
    pub amount: u64,
    pub timestamp: i64,
}

/// A holder was paid `amount` of yield.
#[derive(Clone, Copy, Debug)]
pub struct YieldClaimed {
    pub bond: Address,
    pub holder: Address,
    pub amount: u64,
}

/// A holder redeemed units for `redemption_amount` of principal.
#[derive(Clone, Copy, Debug)]
pub struct BondRedeemed {
    pub bond: Address,
    pub holder: Address,
    pub quantity: u64,
    pub redemption_amount: u64,
}

/// A bond was liquidated; `collateral_seized` went to the liquidator.
#[derive(Clone, Copy, Debug)]
pub struct BondLiquidated {
    pub bond: Address,
    pub liquidator: Address,
    pub collateral_seized: u64,
}

/// A sell order was opened with its units in escrow.
#[derive(Clone, Copy, Debug)]
pub struct SellOrderCreated {
    pub order: Address,
    pub bond: Address,
    pub seller: Address,
    pub quantity: u64,
    pub price_per_bond: u64,
}

/// Units of a sell order were sold for `payment_amount`.
#[derive(Clone, Copy, Debug)]
pub struct OrderFilled {
    pub order: Address,
    pub buyer: Address,
    pub quantity: u64,
    pub payment_amount: u64,
}

/// A sell order was cancelled and its escrow returned.
#[derive(Clone, Copy, Debug)]
pub struct OrderCancelled {
    pub order: Address,
}

} // verus!

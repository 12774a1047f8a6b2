use vstd::prelude::*;
use crate::address::Address;

verus! {

/// The platform's configuration and counters, created once.
#[derive(Clone, Copy, Debug)]
pub struct Platform {
    pub authority: Address,
    pub treasury: Address,
    pub total_bonds_issued: u64,
    pub total_volume: u64,
    pub fee_bps: u64,
    pub bump: u8,
}

/// One bond offering: its identities, terms, supply, collateral and
/// lifecycle flags.
#[derive(Clone, Debug)]
pub struct Bond {
    pub issuer: Address,
    pub bond_mint: Address,
    pub collateral_mint: Address,
    pub collateral_vault: Address,
    pub name: String,
    pub symbol: String,
    pub description: String,
    pub image_uri: String,
    pub website: String,
    pub twitter: String,
    pub discord: String,
    pub principal_amount: u64,
    pub coupon_rate_bps: u64,
    pub is_variable_rate: bool,
    pub payment_frequency: u8,
    pub maturity_timestamp: i64,
    pub created_at: i64,
    pub total_supply: u64,
    pub outstanding_supply: u64,
    pub is_capped: bool,
    pub collateral_ratio_bps: u64,
    pub collateral_deposited: u64,
    pub total_yield_paid: u64,
    pub last_yield_payment: i64,
    pub is_active: bool,
    pub is_matured: bool,
    pub bump: u8,
}

impl Bond {
    /// The invariant every bond keeps from creation on: valid terms, and a
    /// capped bond never has more units outstanding than its supply.
    pub open spec fn wf(&self) -> bool {
        &&& self.principal_amount > 0
        &&& self.coupon_rate_bps <= 10000
        &&& self.total_supply > 0
        &&& self.collateral_ratio_bps >= 15000
        &&& self.is_capped ==> self.outstanding_supply <= self.total_supply
    }
}

/// What one holder owns of one bond.
#[derive(Clone, Copy, Debug)]
pub struct HolderPosition {
    pub holder: Address,
    pub bond: Address,
    pub quantity: u64,
    pub purchase_price: u64,
    pub purchase_timestamp: i64,
    pub total_yield_claimed: u64,
    pub bump: u8,
}

impl HolderPosition {
    /// A record that no purchase has opened yet: every field zero.
    pub fn unopened() -> (r: HolderPosition)
        ensures
            r.holder.is_unset_spec(),
            r.bond.is_unset_spec(),
            r.quantity == 0,
            r.purchase_price == 0,
            r.purchase_timestamp == 0,
            r.total_yield_claimed == 0,
            r.bump == 0,
    {
        HolderPosition {
            holder: Address::unset(),
            bond: Address::unset(),
            quantity: 0,
            purchase_price: 0,
            purchase_timestamp: 0,
            total_yield_claimed: 0,
            bump: 0,
        }
    }
}

/// A resale offer whose bonds sit in escrow until filled or cancelled.
#[derive(Clone, Copy, Debug)]
pub struct Order {
    pub seller: Address,
    pub bond: Address,
    pub quantity: u64,
    pub price_per_bond: u64,
    pub created_at: i64,
    pub is_active: bool,
    pub bump: u8,
}

impl Order {
    /// An open order always has units left to sell.
    pub open spec fn wf(&self) -> bool {
        self.is_active ==> self.quantity > 0
    }
}

/// The terms an issuer proposes for a new bond.
#[derive(Clone, Debug)]
pub struct CreateBondArgs {
    pub name: String,
    pub symbol: String,
    pub description: String,
    pub image_uri: String,
    pub website: String,
    pub twitter: String,
    pub discord: String,
    pub principal_amount: u64,
    pub coupon_rate_bps: u64,
    pub is_variable_rate: bool,
    pub payment_frequency: u8,
    pub maturity_timestamp: i64,
    pub total_supply: u64,
    pub is_capped: bool,
    pub collateral_ratio_bps: u64,
}

} // verus!

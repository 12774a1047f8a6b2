use vstd::prelude::*;
use crate::address::Address;

verus! {

/// The identities taking part in setting up the platform.
#[derive(Clone, Copy, Debug)]
pub struct InitializePlatform {
    pub authority: Address,
    pub treasury: Address,
    pub platform_bump: u8,
}

/// The identities taking part in creating a bond: `bond` is the address of
/// the new bond record.
#[derive(Clone, Copy, Debug)]
pub struct CreateBond {
    pub issuer: Address,
    pub bond: Address,
    pub bond_mint: Address,
    pub collateral_mint: Address,
    pub collateral_vault: Address,
    pub bond_bump: u8,
}

/// The identities taking part in a collateral deposit.
#[derive(Clone, Copy, Debug)]
pub struct DepositCollateral {
    pub issuer: Address,
    pub bond: Address,
}

/// The identities taking part in a primary purchase; `position_bump` is
/// recorded when the purchase opens the buyer's position.
#[derive(Clone, Copy, Debug)]
pub struct PurchaseBond {
    pub buyer: Address,
    pub bond: Address,
    pub position_bump: u8,
}

/// The identities taking part in a yield deposit.
#[derive(Clone, Copy, Debug)]
pub struct DepositYield {
    pub issuer: Address,
    pub bond: Address,
}

/// The identities taking part in a yield claim, and what the bond's yield
/// vault holds at the time.
#[derive(Clone, Copy, Debug)]
pub struct ClaimYield {
    pub holder: Address,
    pub bond: Address,
    pub yield_vault_balance: u64,
}

/// The identities taking part in a redemption.
#[derive(Clone, Copy, Debug)]
pub struct RedeemBond {
    pub holder: Address,
    pub bond: Address,
}

/// The identities taking part in a liquidation.
#[derive(Clone, Copy, Debug)]
pub struct Liquidate {
    pub liquidator: Address,
    pub bond: Address,
}

/// The identities taking part in opening a sell order: `order` is the
/// address of the new order record.
#[derive(Clone, Copy, Debug)]
pub struct CreateSellOrder {
    pub seller: Address,
    pub bond: Address,
    pub order: Address,
    pub order_bump: u8,
}

/// The identities taking part in filling a sell order.
#[derive(Clone, Copy, Debug)]
pub struct FillOrder {
    pub buyer: Address,
    pub order: Address,
}

/// The identities taking part in cancelling a sell order.
#[derive(Clone, Copy, Debug)]
pub struct CancelOrder {
    pub seller: Address,
    pub order: Address,
}

} // verus!

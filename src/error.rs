use vstd::prelude::*;

verus! {

/// Why an operation was refused. A refused operation changes nothing.
#[derive(Clone, Copy, Debug, PartialEq, Eq, Structural)]
pub enum BtrustError {
    InvalidPrincipal,
    InvalidCouponRate,
    InvalidMaturity,
    InvalidSupply,
    InvalidAmount,
    BondNotActive,
    BondMatured,
    BondNotMatured,
    ExceedsSupply,
    MathOverflow,
    Unauthorized,
    NoYieldToClaim,
    InsufficientYieldBalance,
    InsufficientBalance,
    NoCollateral,
    NotLiquidatable,
    OrderNotActive,
    ExceedsOrderQuantity,
}

impl BtrustError {
    /// The message shown to a user for this error.
    pub fn message(&self) -> (r: &'static str) {
        match self {
            BtrustError::InvalidPrincipal => "Invalid principal amount",
            BtrustError::InvalidCouponRate => "Invalid coupon rate",
            BtrustError::InvalidMaturity => "Invalid maturity date",
            BtrustError::InvalidSupply => "Invalid supply",
            BtrustError::InvalidAmount => "Invalid amount",
            BtrustError::BondNotActive => "Bond is not active",
            BtrustError::BondMatured => "Bond has matured",
            BtrustError::BondNotMatured => "Bond has not matured yet",
            BtrustError::ExceedsSupply => "Exceeds available supply",
            BtrustError::MathOverflow => "Math overflow",
            BtrustError::Unauthorized => "Unauthorized",
            BtrustError::NoYieldToClaim => "No yield to claim",
            BtrustError::InsufficientYieldBalance => "Insufficient yield balance in vault",
            BtrustError::InsufficientBalance => "Insufficient balance",
            BtrustError::NoCollateral => "No collateral deposited",
            BtrustError::NotLiquidatable => "Bond is not liquidatable",
            BtrustError::OrderNotActive => "Order is not active",
            BtrustError::ExceedsOrderQuantity => "Exceeds order quantity",
        }
    }
}

} // verus!

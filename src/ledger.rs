use vstd::prelude::*;
use crate::accounts::{
    ClaimYield,
    CreateBond,
    DepositCollateral,
    DepositYield,
    InitializePlatform,
    Liquidate,
    PurchaseBond,
    RedeemBond,
};
use crate::error::BtrustError;
use crate::events::{
    BondCreated,
    BondLiquidated,
    BondPurchased,
    BondRedeemed,
    CollateralDeposited,
    PlatformInitialized,
    YieldClaimed,
    YieldDeposited,
};
use crate::math::{
    Payment,
    BPS_DENOMINATOR,
    LIQUIDATION_PENALTY_BPS,
    LIQUIDATION_THRESHOLD_BPS,
    MIN_COLLATERAL_RATIO_BPS,
    PLATFORM_FEE_BPS,
    accrual_fits,
    accrued_yield,
    annual_yield,
    averaged_price,
    bps_of,
    compute_accrued_yield,
    compute_averaged_price,
    compute_required_collateral,
    fits_u64,
    payment_fits,
    required_collateral,
    split_payment,
};
use crate::state::{Bond, CreateBondArgs, HolderPosition, Platform};

verus! {

/// Why a purchase of `quantity` units would be refused, checked in this order;
/// `None` when it goes through.
pub open spec fn purchase_error(
    platform: Platform,
    bond: Bond,
    position: HolderPosition,
    quantity: u64,
) -> Option<BtrustError> {
    let gross = bond.principal_amount * quantity;
    if quantity == 0 {
        Some(BtrustError::InvalidAmount)
    } else if !bond.is_active {
        Some(BtrustError::BondNotActive)
    } else if bond.is_matured {
        Some(BtrustError::BondMatured)
    } else if bond.is_capped && bond.outstanding_supply + quantity > bond.total_supply {
        Some(BtrustError::ExceedsSupply)
    } else if !payment_fits(bond.principal_amount as int, quantity as int, platform.fee_bps as int) {
        Some(BtrustError::MathOverflow)
    } else if !fits_u64(bond.outstanding_supply + quantity) {
        Some(BtrustError::MathOverflow)
    } else if !position.holder.is_unset_spec() && !(fits_u64(
        position.quantity * position.purchase_price + gross,
    ) && fits_u64(position.quantity + quantity)) {
        Some(BtrustError::MathOverflow)
    } else {
        None
    }
}

/// The buyer's position after a purchase: opened at the bond's principal if
/// it was never opened, otherwise grown with its cost per unit re-averaged
/// over the gross payment.
pub open spec fn position_after_purchase(
    bond: Bond,
    position: HolderPosition,
    accounts: PurchaseBond,
    quantity: u64,
    now: i64,
) -> HolderPosition {
    if position.holder.is_unset_spec() {
        HolderPosition {
            holder: accounts.buyer,
            bond: accounts.bond,
            quantity,
            purchase_price: bond.principal_amount,
            purchase_timestamp: now,
            total_yield_claimed: 0,
            bump: accounts.position_bump,
        }
    } else {
        HolderPosition {
            quantity: (position.quantity + quantity) as u64,
            purchase_price: averaged_price(
                position.quantity as int,
                position.purchase_price as int,
                quantity as int,
                bond.principal_amount * quantity,
            ) as u64,
            ..position
        }
    }
}

/// Sells `quantity` new units of `bond` to `accounts.buyer` at the bond's
/// principal per unit. On success the buyer owes `gross`, of which `net`
/// goes to the issuer and `fee` to the treasury, and `quantity` units are
/// minted to the buyer.
pub fn purchase_bond(
    platform: &Platform,
    bond: &mut Bond,
    position: &mut HolderPosition,
    accounts: &PurchaseBond,
    quantity: u64,
    now: i64,
) -> (r: Result<(Payment, BondPurchased), BtrustError>)
    ensures
        match r {
            Ok((payment, event)) => {
                &&& purchase_error(*platform, *old(bond), *old(position), quantity) is None
                &&& payment.gross == old(bond).principal_amount * quantity
                &&& payment.fee == bps_of(payment.gross as int, platform.fee_bps as int)
                &&& payment.net == payment.gross - payment.fee
                &&& *final(bond) == (Bond {
                    outstanding_supply: (old(bond).outstanding_supply + quantity) as u64,
                    ..*old(bond)
                })
                &&& *final(position) == position_after_purchase(
                    *old(bond),
                    *old(position),
                    *accounts,
                    quantity,
                    now,
                )
                &&& event == (BondPurchased {
                    bond: accounts.bond,
                    buyer: accounts.buyer,
                    quantity,
                    payment_amount: payment.gross,
                    fee_amount: payment.fee,
                })
            },
            Err(e) => {
                &&& purchase_error(*platform, *old(bond), *old(position), quantity) == Some(e)
                &&& *final(bond) == *old(bond)
                &&& *final(position) == *old(position)
            },
        },
        old(bond).wf() ==> final(bond).wf(),
        !old(position).holder.is_unset_spec() ==> final(position).total_yield_claimed
            == old(position).total_yield_claimed,
{
    if quantity == 0 {
        return Err(BtrustError::InvalidAmount);
    }
    if !bond.is_active {
        return Err(BtrustError::BondNotActive);
    }
    if bond.is_matured {
        return Err(BtrustError::BondMatured);
    }
    if bond.is_capped && quantity > bond.total_supply || bond.is_capped && bond.outstanding_supply
        > bond.total_supply - quantity {
        return Err(BtrustError::ExceedsSupply);
    }
    let payment = match split_payment(bond.principal_amount, quantity, platform.fee_bps) {
        Some(p) => p,
        None => return Err(BtrustError::MathOverflow),
    };
    let outstanding = match bond.outstanding_supply.checked_add(quantity) {
        Some(o) => o,
        None => return Err(BtrustError::MathOverflow),
    };
    let opening = position.holder.is_unset();
    let mut price = bond.principal_amount;
    if !opening {
        price = match compute_averaged_price(
            position.quantity,
            position.purchase_price,
            quantity,
            payment.gross,
        ) {
            Some(p) => p,
            None => return Err(BtrustError::MathOverflow),
        };
    }
    bond.outstanding_supply = outstanding;
    if opening {
        position.holder = accounts.buyer;
        position.bond = accounts.bond;
        position.quantity = quantity;
        position.purchase_price = price;
        position.purchase_timestamp = now;
        position.total_yield_claimed = 0;
        position.bump = accounts.position_bump;
    } else {
        position.quantity = position.quantity + quantity;
        position.purchase_price = price;
    }
    let event = BondPurchased {
        bond: accounts.bond,
        buyer: accounts.buyer,
        quantity,
        payment_amount: payment.gross,
        fee_amount: payment.fee,
    };
    Ok((payment, event))
}


/// What a holder is owed at `now`: the yield accrued since the position was
/// opened, less what was already claimed.
pub open spec fn yield_owed(bond: Bond, position: HolderPosition, now: i64) -> int {
    accrued_yield(
        annual_yield(
            position.quantity as int,
            position.purchase_price as int,
            bond.coupon_rate_bps as int,
        ),
        now - position.purchase_timestamp,
    ) - position.total_yield_claimed
}

/// The amount a yield claim pays out, or why it is refused, checked in this
/// order.
pub open spec fn claim_outcome(
    bond: Bond,
    position: HolderPosition,
    accounts: ClaimYield,
    now: i64,
) -> Result<u64, BtrustError> {
    let time_held = now - position.purchase_timestamp;
    let owed = yield_owed(bond, position, now);
    if !position.holder.same(accounts.holder) {
        Err(BtrustError::Unauthorized)
    } else if !(0 <= time_held <= i64::MAX) {
        Err(BtrustError::MathOverflow)
    } else if !accrual_fits(
        position.quantity as int,
        position.purchase_price as int,
        bond.coupon_rate_bps as int,
        time_held,
    ) {
        Err(BtrustError::MathOverflow)
    } else if owed <= 0 {
        Err(BtrustError::NoYieldToClaim)
    } else if accounts.yield_vault_balance == 0 {
        Err(BtrustError::InsufficientYieldBalance)
    } else if owed <= accounts.yield_vault_balance {
        Ok(owed as u64)
    } else {
        Ok(accounts.yield_vault_balance)
    }
}

/// Pays a holder the yield owed to them, as far as the yield vault covers
/// it. On success the event's `amount` moves from the yield vault to the
/// holder and is added to what the position has claimed.
pub fn claim_yield(
    bond: &Bond,
    position: &mut HolderPosition,
    accounts: &ClaimYield,
    now: i64,
) -> (r: Result<YieldClaimed, BtrustError>)
    ensures
        match r {
            Ok(event) => {
                &&& claim_outcome(*bond, *old(position), *accounts, now) == Ok::<u64, BtrustError>(
                    event.amount,
                )
                &&& *final(position) == (HolderPosition {
                    total_yield_claimed: (old(position).total_yield_claimed
                        + event.amount) as u64,
                    ..*old(position)
                })
                &&& event.bond == accounts.bond
                &&& event.holder == accounts.holder
            },
            Err(e) => {
                &&& claim_outcome(*bond, *old(position), *accounts, now) == Err::<u64, BtrustError>(
                    e,
                )
                &&& *final(position) == *old(position)
            },
        },
        final(position).total_yield_claimed >= old(position).total_yield_claimed,
{
    if !position.holder.same_as(&accounts.holder) {
        return Err(BtrustError::Unauthorized);
    }
    let held: i128 = now as i128 - position.purchase_timestamp as i128;
    if held < 0 || held > i64::MAX as i128 {
        return Err(BtrustError::MathOverflow);
    }
    let accrued = match compute_accrued_yield(
        position.quantity,
        position.purchase_price,
        bond.coupon_rate_bps,
        held as u64,
    ) {
        Some(a) => a,
        None => return Err(BtrustError::MathOverflow),
    };
    if accrued <= position.total_yield_claimed {
        return Err(BtrustError::NoYieldToClaim);
    }
    let owed = accrued - position.total_yield_claimed;
    if accounts.yield_vault_balance == 0 {
        return Err(BtrustError::InsufficientYieldBalance);
    }
    let claimable = if owed <= accounts.yield_vault_balance {
        owed
    } else {
        accounts.yield_vault_balance
    };
    position.total_yield_claimed = position.total_yield_claimed + claimable;
    Ok(YieldClaimed { bond: accounts.bond, holder: accounts.holder, amount: claimable })
}

/// Claiming again at the same instant, after a claim that the yield vault
/// covered in full, finds nothing owed, whatever the vault then holds.
pub proof fn lemma_claim_twice_finds_nothing(
    bond: Bond,
    position: HolderPosition,
    accounts: ClaimYield,
    now: i64,
    vault_after: u64,
)
    requires
        claim_outcome(bond, position, accounts, now) is Ok,
        yield_owed(bond, position, now) <= accounts.yield_vault_balance,
    ensures
        ({
            let paid = claim_outcome(bond, position, accounts, now)->Ok_0;
            let claimed = HolderPosition {
                total_yield_claimed: (position.total_yield_claimed + paid) as u64,
                ..position
            };
            claim_outcome(bond, claimed, ClaimYield { yield_vault_balance: vault_after, ..accounts }, now)
                == Err::<u64, BtrustError>(BtrustError::NoYieldToClaim)
        }),
{
}

/// Why a redemption of `quantity` units would be refused, checked in this
/// order; `None` when it goes through.
pub open spec fn redeem_error(
    bond: Bond,
    position: HolderPosition,
    accounts: RedeemBond,
    quantity: u64,
    now: i64,
) -> Option<BtrustError> {
    if !position.holder.same(accounts.holder) {
        Some(BtrustError::Unauthorized)
    } else if quantity == 0 {
        Some(BtrustError::InvalidAmount)
    } else if now < bond.maturity_timestamp {
        Some(BtrustError::BondNotMatured)
    } else if position.quantity < quantity {
        Some(BtrustError::InsufficientBalance)
    } else if !fits_u64(bond.principal_amount * quantity) {
        Some(BtrustError::MathOverflow)
    } else if bond.outstanding_supply < quantity {
        Some(BtrustError::MathOverflow)
    } else {
        None
    }
}

/// The bond after `quantity` units are redeemed: it turns matured and
/// inactive when no unit is left outstanding.
pub open spec fn bond_after_redeem(bond: Bond, quantity: u64) -> Bond {
    let outstanding = (bond.outstanding_supply - quantity) as u64;
    if outstanding == 0 {
        Bond { outstanding_supply: outstanding, is_matured: true, is_active: false, ..bond }
    } else {
        Bond { outstanding_supply: outstanding, ..bond }
    }
}

/// Redeems `quantity` units of a holder's position at or after maturity. On
/// success the holder's `quantity` units are burned and the event's
/// `redemption_amount`, the principal of those units, moves from the
/// redemption vault to the holder.
pub fn redeem_bond(
    bond: &mut Bond,
    position: &mut HolderPosition,
    accounts: &RedeemBond,
    quantity: u64,
    now: i64,
) -> (r: Result<BondRedeemed, BtrustError>)
    ensures
        match r {
            Ok(event) => {
                &&& redeem_error(*old(bond), *old(position), *accounts, quantity, now) is None
                &&& *final(bond) == bond_after_redeem(*old(bond), quantity)
                &&& *final(position) == (HolderPosition {
                    quantity: (old(position).quantity - quantity) as u64,
                    ..*old(position)
                })
                &&& event == (BondRedeemed {
                    bond: accounts.bond,
                    holder: accounts.holder,
                    quantity,
                    redemption_amount: (old(bond).principal_amount * quantity) as u64,
                })
            },
            Err(e) => {
                &&& redeem_error(*old(bond), *old(position), *accounts, quantity, now) == Some(e)
                &&& *final(bond) == *old(bond)
                &&& *final(position) == *old(position)
            },
        },
        old(bond).wf() ==> final(bond).wf(),
        final(position).total_yield_claimed == old(position).total_yield_claimed,
{
    if !position.holder.same_as(&accounts.holder) {
        return Err(BtrustError::Unauthorized);
    }
    if quantity == 0 {
        return Err(BtrustError::InvalidAmount);
    }
    if now < bond.maturity_timestamp {
        return Err(BtrustError::BondNotMatured);
    }
    if position.quantity < quantity {
        return Err(BtrustError::InsufficientBalance);
    }
    let redemption_amount = match bond.principal_amount.checked_mul(quantity) {
        Some(a) => a,
        None => return Err(BtrustError::MathOverflow),
    };
    if bond.outstanding_supply < quantity {
        return Err(BtrustError::MathOverflow);
    }
    bond.outstanding_supply = bond.outstanding_supply - quantity;
    position.quantity = position.quantity - quantity;
    if bond.outstanding_supply == 0 {
        bond.is_matured = true;
        bond.is_active = false;
    }
    Ok(BondRedeemed { bond: accounts.bond, holder: accounts.holder, quantity, redemption_amount })
}


/// Why liquidating `bond` would be refused, checked in this order; `None`
/// when it goes through.
pub open spec fn liquidation_error(bond: Bond) -> Option<BtrustError> {
    let value = bond.outstanding_supply * bond.principal_amount;
    if !bond.is_active {
        Some(BtrustError::BondNotActive)
    } else if bond.collateral_deposited == 0 {
        Some(BtrustError::NoCollateral)
    } else if !(fits_u64(value) && fits_u64(value * LIQUIDATION_THRESHOLD_BPS)) {
        Some(BtrustError::MathOverflow)
    } else if bond.collateral_deposited >= required_collateral(
        bond.outstanding_supply as int,
        bond.principal_amount as int,
    ) {
        Some(BtrustError::NotLiquidatable)
    } else if !fits_u64(bond.collateral_deposited * LIQUIDATION_PENALTY_BPS) {
        Some(BtrustError::MathOverflow)
    } else {
        None
    }
}

/// What the liquidator receives of `collateral`: all of it less the penalty.
pub open spec fn liquidator_reward(collateral: int) -> int {
    collateral - bps_of(collateral, LIQUIDATION_PENALTY_BPS as int)
}

/// Liquidates a bond whose collateral has fallen below the threshold share
/// of its outstanding liability. On success the event's `collateral_seized`
/// moves from the collateral vault to the liquidator, and the bond is closed
/// with no collateral on record.
pub fn liquidate(bond: &mut Bond, accounts: &Liquidate) -> (r: Result<BondLiquidated, BtrustError>)
    ensures
        match r {
            Ok(event) => {
                &&& liquidation_error(*old(bond)) is None
                &&& *final(bond) == (Bond {
                    collateral_deposited: 0,
                    is_active: false,
                    ..*old(bond)
                })
                &&& event == (BondLiquidated {
                    bond: accounts.bond,
                    liquidator: accounts.liquidator,
                    collateral_seized: liquidator_reward(old(bond).collateral_deposited as int) as u64,
                })
            },
            Err(e) => {
                &&& liquidation_error(*old(bond)) == Some(e)
                &&& *final(bond) == *old(bond)
            },
        },
        old(bond).wf() ==> final(bond).wf(),
{
    if !bond.is_active {
        return Err(BtrustError::BondNotActive);
    }
    if bond.collateral_deposited == 0 {
        return Err(BtrustError::NoCollateral);
    }
    let required = match compute_required_collateral(bond.outstanding_supply, bond.principal_amount) {
        Some(c) => c,
        None => return Err(BtrustError::MathOverflow),
    };
    if bond.collateral_deposited >= required {
        return Err(BtrustError::NotLiquidatable);
    }
    let scaled = match bond.collateral_deposited.checked_mul(LIQUIDATION_PENALTY_BPS) {
        Some(s) => s,
        None => return Err(BtrustError::MathOverflow),
    };
    let penalty = scaled / BPS_DENOMINATOR;
    let reward = bond.collateral_deposited - penalty;
    bond.collateral_deposited = 0;
    bond.is_active = false;
    Ok(BondLiquidated { bond: accounts.bond, liquidator: accounts.liquidator, collateral_seized: reward })
}

/// Why a collateral deposit of `amount` would be refused, checked in this
/// order; `None` when it goes through.
pub open spec fn collateral_deposit_error(
    bond: Bond,
    accounts: DepositCollateral,
    amount: u64,
) -> Option<BtrustError> {
    if !bond.issuer.same(accounts.issuer) {
        Some(BtrustError::Unauthorized)
    } else if amount == 0 {
        Some(BtrustError::InvalidAmount)
    } else if !bond.is_active {
        Some(BtrustError::BondNotActive)
    } else if bond.is_matured {
        Some(BtrustError::BondMatured)
    } else if !fits_u64(bond.collateral_deposited + amount) {
        Some(BtrustError::MathOverflow)
    } else {
        None
    }
}

/// Records `amount` of collateral deposited by the bond's issuer. On success
/// `amount` moves from the issuer's collateral account to the bond's
/// collateral vault.
pub fn deposit_collateral(bond: &mut Bond, accounts: &DepositCollateral, amount: u64) -> (r: Result<
    CollateralDeposited,
    BtrustError,
>)
    ensures
        match r {
            Ok(event) => {
                &&& collateral_deposit_error(*old(bond), *accounts, amount) is None
                &&& *final(bond) == (Bond {
                    collateral_deposited: (old(bond).collateral_deposited + amount) as u64,
                    ..*old(bond)
                })
                &&& event == (CollateralDeposited {
                    bond: accounts.bond,
                    amount,
                    total_collateral: final(bond).collateral_deposited,
                })
            },
            Err(e) => {
                &&& collateral_deposit_error(*old(bond), *accounts, amount) == Some(e)
                &&& *final(bond) == *old(bond)
            },
        },
        old(bond).wf() ==> final(bond).wf(),
{
    if !bond.issuer.same_as(&accounts.issuer) {
        return Err(BtrustError::Unauthorized);
    }
    if amount == 0 {
        return Err(BtrustError::InvalidAmount);
    }
    if !bond.is_active {
        return Err(BtrustError::BondNotActive);
    }
    if bond.is_matured {
        return Err(BtrustError::BondMatured);
    }
    let total = match bond.collateral_deposited.checked_add(amount) {
        Some(t) => t,
        None => return Err(BtrustError::MathOverflow),
    };
    bond.collateral_deposited = total;
    Ok(CollateralDeposited { bond: accounts.bond, amount, total_collateral: total })
}

/// Why a yield deposit of `amount` would be refused, checked in this order;
/// `None` when it goes through.
pub open spec fn yield_deposit_error(bond: Bond, accounts: DepositYield, amount: u64) -> Option<
    BtrustError,
> {
    if !bond.issuer.same(accounts.issuer) {
        Some(BtrustError::Unauthorized)
    } else if amount == 0 {
        Some(BtrustError::InvalidAmount)
    } else if !bond.is_active {
        Some(BtrustError::BondNotActive)
    } else {
        None
    }
}

/// Records a yield deposit of `amount` by the bond's issuer at `now`. On
/// success `amount` moves from the issuer to the bond's yield vault.
pub fn deposit_yield(bond: &mut Bond, accounts: &DepositYield, amount: u64, now: i64) -> (r: Result<
    YieldDeposited,
    BtrustError,
>)
    ensures
        match r {
            Ok(event) => {
                &&& yield_deposit_error(*old(bond), *accounts, amount) is None
                &&& *final(bond) == (Bond { last_yield_payment: now, ..*old(bond) })
                &&& event == (YieldDeposited { bond: accounts.bond, amount, timestamp: now })
            },
            Err(e) => {
                &&& yield_deposit_error(*old(bond), *accounts, amount) == Some(e)
                &&& *final(bond) == *old(bond)
            },
        },
        old(bond).wf() ==> final(bond).wf(),
{
    if !bond.issuer.same_as(&accounts.issuer) {
        return Err(BtrustError::Unauthorized);
    }
    if amount == 0 {
        return Err(BtrustError::InvalidAmount);
    }
    if !bond.is_active {
        return Err(BtrustError::BondNotActive);
    }
    bond.last_yield_payment = now;
    Ok(YieldDeposited { bond: accounts.bond, amount, timestamp: now })
}

/// Sets up the platform with the standard fee and zeroed counters.
pub fn initialize_platform(accounts: &InitializePlatform) -> (r: (Platform, PlatformInitialized))
    ensures
        r.0 == (Platform {
            authority: accounts.authority,
            treasury: accounts.treasury,
            total_bonds_issued: 0,
            total_volume: 0,
            fee_bps: PLATFORM_FEE_BPS,
            bump: accounts.platform_bump,
        }),
        r.1 == (PlatformInitialized { authority: accounts.authority, treasury: accounts.treasury }),
{
    let platform = Platform {
        authority: accounts.authority,
        treasury: accounts.treasury,
        total_bonds_issued: 0,
        total_volume: 0,
        fee_bps: PLATFORM_FEE_BPS,
        bump: accounts.platform_bump,
    };
    (platform, PlatformInitialized { authority: accounts.authority, treasury: accounts.treasury })
}

/// Why creating a bond on `args` at `now` would be refused, checked in this
/// order; `None` when it goes through.
pub open spec fn creation_error(platform: Platform, args: CreateBondArgs, now: i64) -> Option<
    BtrustError,
> {
    if args.principal_amount == 0 {
        Some(BtrustError::InvalidPrincipal)
    } else if args.coupon_rate_bps > BPS_DENOMINATOR {
        Some(BtrustError::InvalidCouponRate)
    } else if args.maturity_timestamp <= now {
        Some(BtrustError::InvalidMaturity)
    } else if args.total_supply == 0 {
        Some(BtrustError::InvalidSupply)
    } else if platform.total_bonds_issued == u64::MAX {
        Some(BtrustError::MathOverflow)
    } else {
        None
    }
}

/// The bond that `args` describe, created at `now`: nothing sold, no
/// collateral, active, and its collateral ratio raised to the floor.
pub open spec fn created_bond(accounts: CreateBond, args: CreateBondArgs, now: i64) -> Bond {
    Bond {
        issuer: accounts.issuer,
        bond_mint: accounts.bond_mint,
        collateral_mint: accounts.collateral_mint,
        collateral_vault: accounts.collateral_vault,
        name: args.name,
        symbol: args.symbol,
        description: args.description,
        image_uri: args.image_uri,
        website: args.website,
        twitter: args.twitter,
        discord: args.discord,
        principal_amount: args.principal_amount,
        coupon_rate_bps: args.coupon_rate_bps,
        is_variable_rate: args.is_variable_rate,
        payment_frequency: args.payment_frequency,
        maturity_timestamp: args.maturity_timestamp,
        created_at: now,
        total_supply: args.total_supply,
        outstanding_supply: 0,
        is_capped: args.is_capped,
        collateral_ratio_bps: if args.collateral_ratio_bps < MIN_COLLATERAL_RATIO_BPS {
            MIN_COLLATERAL_RATIO_BPS
        } else {
            args.collateral_ratio_bps
        },
        collateral_deposited: 0,
        total_yield_paid: 0,
        last_yield_payment: now,
        is_active: true,
        is_matured: false,
        bump: accounts.bond_bump,
    }
}

/// Creates a bond offering on the issuer's terms and counts it on the
/// platform. No value moves.
pub fn create_bond(
    platform: &mut Platform,
    accounts: &CreateBond,
    args: CreateBondArgs,
    now: i64,
) -> (r: Result<(Bond, BondCreated), BtrustError>)
    ensures
        match r {
            Ok((bond, event)) => {
                &&& creation_error(*old(platform), args, now) is None
                &&& bond == created_bond(*accounts, args, now)
                &&& *final(platform) == (Platform {
                    total_bonds_issued: (old(platform).total_bonds_issued + 1) as u64,
                    ..*old(platform)
                })
                &&& event == (BondCreated {
                    bond: accounts.bond,
                    issuer: accounts.issuer,
                    name: args.name,
                    principal_amount: args.principal_amount,
                    coupon_rate_bps: args.coupon_rate_bps,
                    maturity_timestamp: args.maturity_timestamp,
                    total_supply: args.total_supply,
                })
                &&& bond.wf()
            },
            Err(e) => {
                &&& creation_error(*old(platform), args, now) == Some(e)
                &&& *final(platform) == *old(platform)
            },
        },
{
    if args.principal_amount == 0 {
        return Err(BtrustError::InvalidPrincipal);
    }
    if args.coupon_rate_bps > BPS_DENOMINATOR {
        return Err(BtrustError::InvalidCouponRate);
    }
    if args.maturity_timestamp <= now {
        return Err(BtrustError::InvalidMaturity);
    }
    if args.total_supply == 0 {
        return Err(BtrustError::InvalidSupply);
    }
    if platform.total_bonds_issued == u64::MAX {
        return Err(BtrustError::MathOverflow);
    }
    let collateral_ratio_bps = if args.collateral_ratio_bps < MIN_COLLATERAL_RATIO_BPS {
        MIN_COLLATERAL_RATIO_BPS
    } else {
        args.collateral_ratio_bps
    };
    let event = BondCreated {
        bond: accounts.bond,
        issuer: accounts.issuer,
        name: args.name.clone(),
        principal_amount: args.principal_amount,
        coupon_rate_bps: args.coupon_rate_bps,
        maturity_timestamp: args.maturity_timestamp,
        total_supply: args.total_supply,
    };
    let bond = Bond {
        issuer: accounts.issuer,
        bond_mint: accounts.bond_mint,
        collateral_mint: accounts.collateral_mint,
        collateral_vault: accounts.collateral_vault,
        name: args.name,
        symbol: args.symbol,
        description: args.description,
        image_uri: args.image_uri,
        website: args.website,
        twitter: args.twitter,
        discord: args.discord,
        principal_amount: args.principal_amount,
        coupon_rate_bps: args.coupon_rate_bps,
        is_variable_rate: args.is_variable_rate,
        payment_frequency: args.payment_frequency,
        maturity_timestamp: args.maturity_timestamp,
        created_at: now,
        total_supply: args.total_supply,
        outstanding_supply: 0,
        is_capped: args.is_capped,
        collateral_ratio_bps,
        collateral_deposited: 0,
        total_yield_paid: 0,
        last_yield_payment: now,
        is_active: true,
        is_matured: false,
        bump: accounts.bond_bump,
    };
    platform.total_bonds_issued = platform.total_bonds_issued + 1;
    Ok((bond, event))
}

} // verus!

use vstd::prelude::*;

verus! {

/// Basis points in one whole (100%).
pub const BPS_DENOMINATOR: u64 = 10000;

/// Platform fee charged on primary and secondary sales (0.5%).
pub const PLATFORM_FEE_BPS: u64 = 50;

/// Floor for a bond's collateral ratio (150%).
pub const MIN_COLLATERAL_RATIO_BPS: u64 = 15000;

/// Collateral below this share of the outstanding liability makes a bond
/// liquidatable (120%).
pub const LIQUIDATION_THRESHOLD_BPS: u64 = 12000;

/// Share of seized collateral withheld from the liquidator (10%).
pub const LIQUIDATION_PENALTY_BPS: u64 = 1000;

/// Seconds in a 365-day year.
pub const SECONDS_PER_YEAR: u64 = 31536000;

/// Whether an unbounded integer fits in a `u64`.
pub open spec fn fits_u64(x: int) -> bool {
    0 <= x <= u64::MAX
}

/// `amount` scaled by a rate in basis points, truncated.
pub open spec fn bps_of(amount: int, bps: int) -> int {
    amount * bps / BPS_DENOMINATOR as int
}

/// Yield per year on `quantity` units held at cost `price` per unit.
pub open spec fn annual_yield(quantity: int, price: int, coupon_rate_bps: int) -> int {
    bps_of(quantity * price, coupon_rate_bps)
}

/// Yield accrued over `time_held` seconds at `annual` per year, truncated.
pub open spec fn accrued_yield(annual: int, time_held: int) -> int {
    annual * time_held / SECONDS_PER_YEAR as int
}

/// Whether computing the accrued yield stays within `u64` at every step.
pub open spec fn accrual_fits(
    quantity: int,
    price: int,
    coupon_rate_bps: int,
    time_held: int,
) -> bool {
    &&& fits_u64(quantity * price)
    &&& fits_u64(quantity * price * coupon_rate_bps)
    &&& fits_u64(annual_yield(quantity, price, coupon_rate_bps) * time_held)
}

/// The quantity-weighted average cost per unit after `added_quantity` units
/// are bought for `added_cost` on top of `quantity` units at `price`.
pub open spec fn averaged_price(
    quantity: int,
    price: int,
    added_quantity: int,
    added_cost: int,
) -> int {
    (quantity * price + added_cost) / (quantity + added_quantity)
}

/// Collateral that the outstanding liability of a bond calls for before it
/// becomes liquidatable.
pub open spec fn required_collateral(outstanding_supply: int, principal_amount: int) -> int {
    bps_of(outstanding_supply * principal_amount, LIQUIDATION_THRESHOLD_BPS as int)
}

/// The parts of a sale's payment: `gross` is owed by the buyer, `fee` goes to
/// the platform treasury and `net` to the seller or issuer.
#[derive(Clone, Copy, Debug, PartialEq, Eq, Structural)]
pub struct Payment {
    pub gross: u64,
    pub fee: u64,
    pub net: u64,
}

impl Payment {
    /// Whether a separate fee transfer is called for.
    pub fn charges_fee(&self) -> (r: bool)
        ensures
            r == (self.fee > 0),
    {
        self.fee > 0
    }
}

/// Whether `unit_price * quantity` can be split into a fee at `fee_bps` and
/// the rest, with every step inside `u64`.
pub open spec fn payment_fits(unit_price: int, quantity: int, fee_bps: int) -> bool {
    &&& fits_u64(unit_price * quantity)
    &&& fits_u64(unit_price * quantity * fee_bps)
    &&& bps_of(unit_price * quantity, fee_bps) <= unit_price * quantity
}

/// Splits the price of `quantity` units at `unit_price` into fee and net;
/// `None` when a step leaves `u64`.
pub fn split_payment(unit_price: u64, quantity: u64, fee_bps: u64) -> (r: Option<Payment>)
    ensures
        r is Some <==> payment_fits(unit_price as int, quantity as int, fee_bps as int),
        r matches Some(p) ==> {
            &&& p.gross == unit_price * quantity
            &&& p.fee == bps_of(p.gross as int, fee_bps as int)
            &&& p.net == p.gross - p.fee
        },
{
    let gross = match unit_price.checked_mul(quantity) {
        Some(g) => g,
        None => return None,
    };
    let scaled = match gross.checked_mul(fee_bps) {
        Some(s) => s,
        None => return None,
    };
    let fee = scaled / BPS_DENOMINATOR;
    if fee > gross {
        return None;
    }
    Some(Payment { gross, fee, net: gross - fee })
}

/// Yield accrued on `quantity` units held at `price` for `time_held` seconds;
/// `None` when a step leaves `u64`.
pub fn compute_accrued_yield(
    quantity: u64,
    price: u64,
    coupon_rate_bps: u64,
    time_held: u64,
) -> (r: Option<u64>)
    ensures
        r is Some <==> accrual_fits(
            quantity as int,
            price as int,
            coupon_rate_bps as int,
            time_held as int,
        ),
        r matches Some(y) ==> y == accrued_yield(
            annual_yield(quantity as int, price as int, coupon_rate_bps as int),
            time_held as int,
        ),
{
    let cost = match quantity.checked_mul(price) {
        Some(c) => c,
        None => return None,
    };
    let scaled = match cost.checked_mul(coupon_rate_bps) {
        Some(s) => s,
        None => return None,
    };
    let annual = scaled / BPS_DENOMINATOR;
    let total = match annual.checked_mul(time_held) {
        Some(t) => t,
        None => return None,
    };
    Some(total / SECONDS_PER_YEAR)
}

/// The collateral that `outstanding_supply` units of face value
/// `principal_amount` call for; `None` when a step leaves `u64`.
pub fn compute_required_collateral(outstanding_supply: u64, principal_amount: u64) -> (r: Option<
    u64,
>)
    ensures
        r is Some <==> {
            &&& fits_u64(outstanding_supply * principal_amount)
            &&& fits_u64(outstanding_supply * principal_amount * LIQUIDATION_THRESHOLD_BPS)
        },
        r matches Some(c) ==> c == required_collateral(
            outstanding_supply as int,
            principal_amount as int,
        ),
{
    let value = match outstanding_supply.checked_mul(principal_amount) {
        Some(v) => v,
        None => return None,
    };
    let scaled = match value.checked_mul(LIQUIDATION_THRESHOLD_BPS) {
        Some(s) => s,
        None => return None,
    };
    Some(scaled / BPS_DENOMINATOR)
}

/// The new average cost per unit after a purchase on top of an existing
/// holding; `None` when a step leaves `u64`.
pub fn compute_averaged_price(
    quantity: u64,
    price: u64,
    added_quantity: u64,
    added_cost: u64,
) -> (r: Option<u64>)
    requires
        quantity + added_quantity > 0,
    ensures
        r is Some <==> {
            &&& fits_u64(quantity * price + added_cost)
            &&& fits_u64(quantity + added_quantity)
        },
        r matches Some(p) ==> p == averaged_price(
            quantity as int,
            price as int,
            added_quantity as int,
            added_cost as int,
        ),
{
    let held = match quantity.checked_mul(price) {
        Some(h) => h,
        None => {
            assert(quantity * price + added_cost > u64::MAX) by (nonlinear_arith)
                requires
                    quantity * price > u64::MAX,
                    added_cost >= 0,
            ;
            return None;
        },
    };
    let total = match held.checked_add(added_cost) {
        Some(t) => t,
        None => return None,
    };
    let new_quantity = match quantity.checked_add(added_quantity) {
        Some(q) => q,
        None => return None,
    };
    Some(total / new_quantity)
}

} // verus!

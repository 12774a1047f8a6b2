use vstd::prelude::*;
use crate::accounts::{CancelOrder, CreateSellOrder, FillOrder};
use crate::error::BtrustError;
use crate::events::{OrderCancelled, OrderFilled, SellOrderCreated};
use crate::math::{Payment, bps_of, payment_fits, split_payment};
use crate::state::{Bond, Order, Platform};

verus! {

/// Why opening a sell order would be refused, checked in this order; `None`
/// when it goes through.
pub open spec fn order_creation_error(bond: Bond, quantity: u64, price_per_bond: u64) -> Option<
    BtrustError,
> {
    if quantity == 0 || price_per_bond == 0 {
        Some(BtrustError::InvalidAmount)
    } else if !bond.is_active {
        Some(BtrustError::BondNotActive)
    } else {
        None
    }
}

/// Opens an order offering `quantity` units of `bond` at `price_per_bond`
/// each. On success the seller's `quantity` units move into the order's
/// escrow.
pub fn create_sell_order(
    bond: &Bond,
    accounts: &CreateSellOrder,
    quantity: u64,
    price_per_bond: u64,
    now: i64,
) -> (r: Result<(Order, SellOrderCreated), BtrustError>)
    ensures
        match r {
            Ok((order, event)) => {
                &&& order_creation_error(*bond, quantity, price_per_bond) is None
                &&& order == (Order {
                    seller: accounts.seller,
                    bond: accounts.bond,
                    quantity,
                    price_per_bond,
                    created_at: now,
                    is_active: true,
                    bump: accounts.order_bump,
                })
                &&& event == (SellOrderCreated {
                    order: accounts.order,
                    bond: accounts.bond,
                    seller: accounts.seller,
                    quantity,
                    price_per_bond,
                })
                &&& order.wf()
            },
            Err(e) => order_creation_error(*bond, quantity, price_per_bond) == Some(e),
        },
{
    if quantity == 0 || price_per_bond == 0 {
        return Err(BtrustError::InvalidAmount);
    }
    if !bond.is_active {
        return Err(BtrustError::BondNotActive);
    }
    let order = Order {
        seller: accounts.seller,
        bond: accounts.bond,
        quantity,
        price_per_bond,
        created_at: now,
        is_active: true,
        bump: accounts.order_bump,
    };
    let event = SellOrderCreated {
        order: accounts.order,
        bond: accounts.bond,
        seller: accounts.seller,
        quantity,
        price_per_bond,
    };
    Ok((order, event))
}

/// Why filling `quantity` units of `order` would be refused, checked in this
/// order; `None` when it goes through.
pub open spec fn fill_error(platform: Platform, order: Order, quantity: u64) -> Option<BtrustError> {
    if quantity == 0 {
        Some(BtrustError::InvalidAmount)
    } else if !order.is_active {
        Some(BtrustError::OrderNotActive)
    } else if quantity > order.quantity {
        Some(BtrustError::ExceedsOrderQuantity)
    } else if !payment_fits(order.price_per_bond as int, quantity as int, platform.fee_bps as int) {
        Some(BtrustError::MathOverflow)
    } else {
        None
    }
}

/// The order after `quantity` of its units are sold: it closes once none is
/// left.
pub open spec fn order_after_fill(order: Order, quantity: u64) -> Order {
    let left = (order.quantity - quantity) as u64;
    Order { quantity: left, is_active: left != 0, ..order }
}

/// Sells `quantity` units out of an open order to `accounts.buyer`. On
/// success the buyer owes `gross`, of which `net` goes to the seller and
/// `fee` to the treasury, and `quantity` units move from escrow to the buyer.
pub fn fill_order(platform: &Platform, order: &mut Order, accounts: &FillOrder, quantity: u64) -> (r:
    Result<(Payment, OrderFilled), BtrustError>)
    ensures
        match r {
            Ok((payment, event)) => {
                &&& fill_error(*platform, *old(order), quantity) is None
                &&& payment.gross == old(order).price_per_bond * quantity
                &&& payment.fee == bps_of(payment.gross as int, platform.fee_bps as int)
                &&& payment.net == payment.gross - payment.fee
                &&& *final(order) == order_after_fill(*old(order), quantity)
                &&& event == (OrderFilled {
                    order: accounts.order,
                    buyer: accounts.buyer,
                    quantity,
                    payment_amount: payment.gross,
                })
            },
            Err(e) => {
                &&& fill_error(*platform, *old(order), quantity) == Some(e)
                &&& *final(order) == *old(order)
            },
        },
        old(order).wf() ==> final(order).wf(),
{
    if quantity == 0 {
        return Err(BtrustError::InvalidAmount);
    }
    if !order.is_active {
        return Err(BtrustError::OrderNotActive);
    }
    if quantity > order.quantity {
        return Err(BtrustError::ExceedsOrderQuantity);
    }
    let payment = match split_payment(order.price_per_bond, quantity, platform.fee_bps) {
        Some(p) => p,
        None => return Err(BtrustError::MathOverflow),
    };
    order.quantity = order.quantity - quantity;
    if order.quantity == 0 {
        order.is_active = false;
    }
    let event = OrderFilled {
        order: accounts.order,
        buyer: accounts.buyer,
        quantity,
        payment_amount: payment.gross,
    };
    Ok((payment, event))
}

/// Why cancelling `order` would be refused, checked in this order; `None`
/// when it goes through.
pub open spec fn cancel_error(order: Order, accounts: CancelOrder) -> Option<BtrustError> {
    if !order.is_active {
        Some(BtrustError::OrderNotActive)
    } else if !order.seller.same(accounts.seller) {
        Some(BtrustError::Unauthorized)
    } else {
        None
    }
}

/// Closes an open order at its seller's request. On success the returned
/// quantity, all that is left in escrow, moves back to the seller.
pub fn cancel_order(order: &mut Order, accounts: &CancelOrder) -> (r: Result<
    (u64, OrderCancelled),
    BtrustError,
>)
    ensures
        match r {
            Ok((returned, event)) => {
                &&& cancel_error(*old(order), *accounts) is None
                &&& returned == old(order).quantity
                &&& *final(order) == (Order { is_active: false, ..*old(order) })
                &&& event == (OrderCancelled { order: accounts.order })
            },
            Err(e) => {
                &&& cancel_error(*old(order), *accounts) == Some(e)
                &&& *final(order) == *old(order)
            },
        },
        old(order).wf() ==> final(order).wf(),
{
    if !order.is_active {
        return Err(BtrustError::OrderNotActive);
    }
    if !order.seller.same_as(&accounts.seller) {
        return Err(BtrustError::Unauthorized);
    }
    order.is_active = false;
    Ok((order.quantity, OrderCancelled { order: accounts.order }))
}

} // verus!

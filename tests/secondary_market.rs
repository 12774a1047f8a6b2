use btrust_bond::accounts::{CancelOrder, CreateBond, CreateSellOrder, FillOrder, InitializePlatform};
use btrust_bond::ledger::{create_bond, initialize_platform};
use btrust_bond::market::{cancel_order, create_sell_order, fill_order};
use btrust_bond::state::{Bond, CreateBondArgs, Platform};
use btrust_bond::{Address, BtrustError};

fn key(b: u8) -> Address {
    Address([b; 32])
}

fn setup() -> (Platform, Bond) {
    let mut platform = initialize_platform(&InitializePlatform {
        authority: key(1),
        treasury: key(2),
        platform_bump: 1,
    })
    .0;
    let args = CreateBondArgs {
        name: "Rail".to_string(),
        symbol: "RL".to_string(),
        description: String::new(),
        image_uri: String::new(),
        website: String::new(),
        twitter: String::new(),
        discord: String::new(),
        principal_amount: 100,
        coupon_rate_bps: 500,
        is_variable_rate: false,
        payment_frequency: 4,
        maturity_timestamp: 2000,
        total_supply: 1000,
        is_capped: true,
        collateral_ratio_bps: 15000,
    };
    let accounts = CreateBond {
        issuer: key(3),
        bond: key(4),
        bond_mint: key(5),
        collateral_mint: key(6),
        collateral_vault: key(7),
        bond_bump: 1,
    };
    let bond = create_bond(&mut platform, &accounts, args, 1000).unwrap().0;
    (platform, bond)
}

fn seller() -> CreateSellOrder {
    CreateSellOrder { seller: key(8), bond: key(4), order: key(11), order_bump: 3 }
}

fn fill() -> FillOrder {
    FillOrder { buyer: key(9), order: key(11) }
}

#[test]
fn order_lifecycle_partial_then_full_fill() {
    let (platform, bond) = setup();
    let (mut order, created) = create_sell_order(&bond, &seller(), 50, 20, 1500).unwrap();
    assert!(order.is_active);
    assert_eq!(order.created_at, 1500);
    assert_eq!(created.quantity, 50);
    let (payment, event) = fill_order(&platform, &mut order, &fill(), 30).unwrap();
    assert_eq!(payment.gross, 600);
    assert_eq!(payment.fee, 3);
    assert_eq!(payment.net, 597);
    assert_eq!(event.payment_amount, 600);
    assert!(order.is_active);
    assert_eq!(order.quantity, 20);
    fill_order(&platform, &mut order, &fill(), 20).unwrap();
    assert!(!order.is_active);
    assert_eq!(order.quantity, 0);
    let r = fill_order(&platform, &mut order, &fill(), 1);
    assert_eq!(r.err(), Some(BtrustError::OrderNotActive));
}

#[test]
fn fill_rejections() {
    let (platform, bond) = setup();
    let (mut order, _) = create_sell_order(&bond, &seller(), 50, 20, 1500).unwrap();
    assert_eq!(fill_order(&platform, &mut order, &fill(), 0).err(), Some(BtrustError::InvalidAmount));
    assert_eq!(
        fill_order(&platform, &mut order, &fill(), 51).err(),
        Some(BtrustError::ExceedsOrderQuantity)
    );
    order.price_per_bond = u64::MAX;
    assert_eq!(fill_order(&platform, &mut order, &fill(), 2).err(), Some(BtrustError::MathOverflow));
    assert_eq!(order.quantity, 50);
}

#[test]
fn create_order_rejections() {
    let (_, mut bond) = setup();
    assert_eq!(create_sell_order(&bond, &seller(), 0, 20, 1500).err(), Some(BtrustError::InvalidAmount));
    assert_eq!(create_sell_order(&bond, &seller(), 5, 0, 1500).err(), Some(BtrustError::InvalidAmount));
    bond.is_active = false;
    assert_eq!(create_sell_order(&bond, &seller(), 5, 20, 1500).err(), Some(BtrustError::BondNotActive));
}

#[test]
fn cancel_returns_remaining_escrow() {
    let (platform, bond) = setup();
    let (mut order, _) = create_sell_order(&bond, &seller(), 50, 20, 1500).unwrap();
    fill_order(&platform, &mut order, &fill(), 15).unwrap();
    let stranger = CancelOrder { seller: key(9), order: key(11) };
    assert_eq!(cancel_order(&mut order, &stranger).err(), Some(BtrustError::Unauthorized));
    let owner = CancelOrder { seller: key(8), order: key(11) };
    let (returned, event) = cancel_order(&mut order, &owner).unwrap();
    assert_eq!(returned, 35);
    assert!(event.order == key(11));
    assert!(!order.is_active);
    assert_eq!(cancel_order(&mut order, &owner).err(), Some(BtrustError::OrderNotActive));
    assert_eq!(fill_order(&platform, &mut order, &fill(), 1).err(), Some(BtrustError::OrderNotActive));
}

#[test]
fn addresses_compare_by_bytes() {
    let mut a = key(7);
    assert!(a == key(7));
    assert!(a.same_as(&key(7)));
    a.0[31] = 8;
    assert!(a != key(7));
    assert!(!a.is_unset());
    assert!(Address::unset().is_unset());
    assert!(Address::unset() == Address([0u8; 32]));
}

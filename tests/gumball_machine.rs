use gumball_store::decimal::Decimal;
use gumball_store::gumball_machine::{GumballMachine, Status};
use gumball_store::resource::{Bucket, ExchangeError, ResourceId};

fn gum() -> ResourceId {
    ResourceId { id: 1 }
}

fn xrd() -> ResourceId {
    ResourceId { id: 2 }
}

fn badge() -> ResourceId {
    ResourceId { id: 3 }
}

fn units(n: i64) -> Decimal {
    Decimal::from_int(n)
}

#[test]
fn buy_with_change() {
    let (mut m, _owner) = GumballMachine::instantiate_gumball_machine(units(2), gum(), xrd(), badge());
    let (product, change) = m.buy_gumball(Bucket::new(xrd(), units(5))).unwrap();
    assert_eq!(product, Bucket::new(gum(), units(1)));
    assert_eq!(change, Bucket::new(xrd(), units(3)));
    assert_eq!(m.get_status(), Status { price: units(2), amount: units(99) });
    assert_eq!(m.collected_xrd.amount(), units(2));
}

#[test]
fn buy_exact_price_leaves_empty_change() {
    let (mut m, _owner) = GumballMachine::instantiate_global(units(2), gum(), xrd(), badge());
    let (_, change) = m.buy_gumball(Bucket::new(xrd(), units(2))).unwrap();
    assert!(change.is_empty());
    assert_eq!(change.resource_address(), xrd());
}

#[test]
fn buy_with_fractional_amounts() {
    let price = Decimal { attos: 1_500_000_000_000_000_000 };
    let (mut m, _owner) = GumballMachine::instantiate_global(price, gum(), xrd(), badge());
    let (_, change) = m.buy_gumball(Bucket::new(xrd(), units(2))).unwrap();
    assert_eq!(change.amount(), Decimal { attos: 500_000_000_000_000_000 });
}

#[test]
fn buy_short_payment_changes_nothing() {
    let (mut m, _owner) = GumballMachine::instantiate_global(units(2), gum(), xrd(), badge());
    let before = m;
    let r = m.buy_gumball(Bucket::new(xrd(), units(1)));
    assert_eq!(r, Err(ExchangeError::InsufficientPayment));
    assert_eq!(m, before);
}

#[test]
fn buy_wrong_asset_changes_nothing() {
    let (mut m, _owner) = GumballMachine::instantiate_global(units(2), gum(), xrd(), badge());
    let before = m;
    let r = m.buy_gumball(Bucket::new(gum(), units(5)));
    assert_eq!(r, Err(ExchangeError::InsufficientPayment));
    assert_eq!(m, before);
}

#[test]
fn buy_at_negative_price_is_refused() {
    let (mut m, owner) = GumballMachine::instantiate_global(units(2), gum(), xrd(), badge());
    m.set_price(&owner, units(-1)).unwrap();
    let before = m;
    assert_eq!(m.buy_gumball(Bucket::new(xrd(), units(5))), Err(ExchangeError::InsufficientPayment));
    assert_eq!(m, before);
}

#[test]
fn buy_from_empty_machine_is_out_of_stock() {
    let (mut m, _owner) = GumballMachine::instantiate_global(units(0), gum(), xrd(), badge());
    for _ in 0..100 {
        m.buy_gumball(Bucket::new(xrd(), units(0))).unwrap();
    }
    assert_eq!(m.get_status().amount, units(0));
    let before = m;
    assert_eq!(m.buy_gumball(Bucket::new(xrd(), units(5))), Err(ExchangeError::OutOfStock));
    assert_eq!(m.buy_gumball(Bucket::new(gum(), units(1))), Err(ExchangeError::OutOfStock));
    assert_eq!(m, before);
}

#[test]
fn withdraw_twice_drains() {
    let (mut m, owner) = GumballMachine::instantiate_global(units(2), gum(), xrd(), badge());
    m.buy_gumball(Bucket::new(xrd(), units(5))).unwrap();
    m.buy_gumball(Bucket::new(xrd(), units(2))).unwrap();
    let first = m.withdraw_earnings(&owner).unwrap();
    assert_eq!(first, Bucket::new(xrd(), units(4)));
    let second = m.withdraw_earnings(&owner).unwrap();
    assert!(second.is_empty());
    assert_eq!(second.resource_address(), xrd());
}

#[test]
fn owner_methods_without_badge_are_unauthorized() {
    let (mut m, _owner) = GumballMachine::instantiate_global(units(2), gum(), xrd(), badge());
    m.buy_gumball(Bucket::new(xrd(), units(5))).unwrap();
    let before = m;
    let wrong = Bucket::new(xrd(), units(1));
    let empty_badge = Bucket::empty(badge());
    assert_eq!(m.set_price(&wrong, units(3)), Err(ExchangeError::Unauthorized));
    assert_eq!(m.set_price(&empty_badge, units(3)), Err(ExchangeError::Unauthorized));
    assert_eq!(m.withdraw_earnings(&wrong), Err(ExchangeError::Unauthorized));
    assert_eq!(m.refill_gumball_machine(&wrong), Err(ExchangeError::Unauthorized));
    assert_eq!(m, before);
}

#[test]
fn owner_methods_with_badge_succeed() {
    let (mut m, owner) = GumballMachine::instantiate_global(units(2), gum(), xrd(), badge());
    assert_eq!(m.set_price(&owner, units(3)), Ok(()));
    assert_eq!(m.get_price(), units(3));
    assert_eq!(m.withdraw_earnings(&owner), Ok(Bucket::new(xrd(), units(0))));
    assert_eq!(m.refill_gumball_machine(&owner), Ok(units(0)));
}

#[test]
fn owned_machine_accepts_no_badge() {
    let mut m = GumballMachine::instantiate_owned(units(2), gum(), xrd());
    assert_eq!(m.set_price(&Bucket::new(badge(), units(1)), units(3)), Err(ExchangeError::Unauthorized));
    assert_eq!(m.get_price(), units(2));
}

#[test]
fn refill_after_empty_mints_full_stock() {
    let (mut m, owner) = GumballMachine::instantiate_global(units(0), gum(), xrd(), badge());
    for _ in 0..100 {
        m.buy_gumball(Bucket::new(xrd(), units(0))).unwrap();
    }
    assert_eq!(m.get_status().amount, units(0));
    let minted = m.refill_gumball_machine(&owner).unwrap();
    assert_eq!(minted, units(100));
    assert_eq!(m.get_status().amount, units(100));
}

#[test]
fn refill_partial_mints_difference() {
    let (mut m, owner) = GumballMachine::instantiate_global(units(1), gum(), xrd(), badge());
    for _ in 0..7 {
        m.buy_gumball(Bucket::new(xrd(), units(1))).unwrap();
    }
    assert_eq!(m.refill_gumball_machine(&owner), Ok(units(7)));
    assert_eq!(m.get_status().amount, units(100));
}

#[test]
fn fixed_supply_machine_cannot_refill() {
    let (mut m, owner) = GumballMachine::instantiate_gumball_machine(units(1), gum(), xrd(), badge());
    m.buy_gumball(Bucket::new(xrd(), units(1))).unwrap();
    let before = m;
    assert_eq!(m.refill_gumball_machine(&owner), Err(ExchangeError::Unauthorized));
    assert_eq!(m, before);
}

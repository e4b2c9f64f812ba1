use gumball_store::candy_store::CandyStore;
use gumball_store::decimal::Decimal;
use gumball_store::resource::{Bucket, ExchangeError, ResourceId};

fn units(n: i64) -> Decimal {
    Decimal::from_int(n)
}

fn store() -> (CandyStore, Bucket) {
    CandyStore::instantiate_candy_store(
        units(2),
        ResourceId { id: 10 },
        ResourceId { id: 11 },
        ResourceId { id: 12 },
        ResourceId { id: 13 },
    )
}

#[test]
fn store_forwards_set_price() {
    let (mut s, owner) = store();
    assert_eq!(s.get_prices(), units(2));
    assert_eq!(s.set_gumball_price(&owner, units(3)), Ok(()));
    assert_eq!(s.get_prices(), units(3));
    assert_eq!(s.gumball_machine.get_price(), units(3));
}

#[test]
fn store_sells_and_withdraws() {
    let (mut s, owner) = store();
    let (product, change) = s.buy_gumball(Bucket::new(ResourceId { id: 11 }, units(5))).unwrap();
    assert_eq!(product, Bucket::new(ResourceId { id: 10 }, units(1)));
    assert_eq!(change.amount(), units(3));
    assert_eq!(s.withdraw_earnings(&owner), Ok(Bucket::new(ResourceId { id: 11 }, units(2))));
    assert!(s.withdraw_earnings(&owner).unwrap().is_empty());
    assert_eq!(s.gumball_machine_owner_badges.amount(), units(1));
}

#[test]
fn store_restocks() {
    let (mut s, owner) = store();
    for _ in 0..5 {
        s.buy_gumball(Bucket::new(ResourceId { id: 11 }, units(2))).unwrap();
    }
    assert_eq!(s.restock_store(&owner), Ok(units(5)));
    assert_eq!(s.gumball_machine.get_status().amount, units(100));
}

#[test]
fn store_refuses_machine_badge_as_owner() {
    let (mut s, _owner) = store();
    let before = s;
    let machine_badge = Bucket::new(ResourceId { id: 12 }, units(1));
    assert_eq!(s.set_gumball_price(&machine_badge, units(9)), Err(ExchangeError::Unauthorized));
    assert_eq!(s.restock_store(&machine_badge), Err(ExchangeError::Unauthorized));
    assert_eq!(s.withdraw_earnings(&machine_badge), Err(ExchangeError::Unauthorized));
    assert_eq!(s, before);
}

use candid::{Nat, Principal};
use marketplace::ledger::Balances;
use marketplace::market::Marketplace;
use marketplace::registry::Collections;
use marketplace::types::{Listing, ListingStatus, Offer, OfferStatus};

fn pid(n: u8) -> Principal {
    Principal::from_slice(&[n])
}

fn num(n: u64) -> Nat {
    Nat::from(n)
}

fn offer(token: u64, buyer: u8, price: u64) -> Offer {
    Offer::new(pid(20), num(token), num(price), pid(buyer), pid(1), OfferStatus::Created, 9)
}

#[test]
fn defaults_are_empty() {
    let mp = Marketplace::default();
    assert!(mp.listing_entries().is_empty());
    assert!(mp.offer_entries().is_empty());
    assert!(Collections::default().get_collections().is_empty());
    let b = Balances::default();
    assert!(b.get_all_balances().is_empty());
    assert!(b.failed_log().is_empty());
}

#[test]
fn put_listing_replaces_under_the_same_item() {
    let mut mp = Marketplace::new();
    mp.put_listing(
        pid(20),
        num(1),
        Listing::new(num(10), pid(1), ListingStatus::Created, 0, vec![]),
    );
    mp.put_listing(
        pid(20),
        num(2),
        Listing::new(num(20), pid(1), ListingStatus::Created, 0, vec![]),
    );
    mp.put_listing(
        pid(20),
        num(1),
        Listing::new(num(30), pid(2), ListingStatus::Selling, 7, vec![]),
    );
    assert_eq!(mp.listing_entries().len(), 2);
    let l = mp.get_listing(&pid(20), &num(1)).unwrap();
    assert_eq!(l.price, num(30));
    assert_eq!(l.seller, pid(2));
    assert_eq!(l.status, ListingStatus::Selling);
    assert_eq!(mp.get_listing(&pid(20), &num(2)).unwrap().price, num(20));
    assert!(mp.get_listing(&pid(21), &num(1)).is_none());
}

#[test]
fn put_offer_keeps_one_offer_per_item_and_buyer() {
    let mut mp = Marketplace::new();
    mp.put_offer(offer(1, 2, 100));
    mp.put_offer(offer(1, 3, 110));
    mp.put_offer(offer(1, 2, 120));
    assert_eq!(mp.offer_entries().len(), 2);
    assert_eq!(mp.get_offer(&pid(20), &num(1), &pid(2)).unwrap().price, num(120));
    assert_eq!(mp.get_buyer_offers(&pid(20), &pid(2)), vec![offer(1, 2, 120)]);
    assert_eq!(mp.get_buyer_offers(&pid(20), &pid(3)), vec![offer(1, 3, 110)]);
}

#[test]
fn items_with_equal_numbers_are_the_same_item() {
    let mut mp = Marketplace::new();
    mp.put_offer(offer(7, 2, 100));
    let seven = Nat::from(3u64) + Nat::from(4u64);
    assert!(mp.get_offer(&pid(20), &seven, &pid(2)).is_some());
    let big = Nat::from(u64::MAX) + Nat::from(8u64);
    assert!(mp.get_offer(&pid(20), &big, &pid(2)).is_none());
}

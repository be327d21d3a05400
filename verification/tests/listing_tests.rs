use candid::{Nat, Principal};
use marketplace::listing::{cancel_listing, fee_schedule, make_listing};
use marketplace::market::Marketplace;
use marketplace::registry::Collections;
use marketplace::settlement::direct_buy;
use marketplace::types::{
    FungibleStandard, InitData, Listing, ListingStatus, MPApiError, NFTStandard,
};

const NFT: u8 = 20;
const CURRENCY: u8 = 30;
const COLLECTION_OWNER: u8 = 40;
const PROTOCOL_OWNER: u8 = 50;
const ENGINE: u8 = 60;
const SELLER: u8 = 1;
const BUYER: u8 = 2;

fn pid(n: u8) -> Principal {
    Principal::from_slice(&[n])
}

fn num(n: u64) -> Nat {
    Nat::from(n)
}

fn setup() -> (Marketplace, Collections, InitData) {
    let mut c = Collections::new();
    let r = c.add_collection(
        true,
        pid(COLLECTION_OWNER),
        num(250),
        0,
        "cats".to_string(),
        pid(NFT),
        NFTStandard::DIP721v2,
        pid(CURRENCY),
        FungibleStandard::DIP20,
    );
    assert_eq!(r, Ok(()));
    (Marketplace::new(), c, InitData::new(None, pid(PROTOCOL_OWNER), num(100)))
}

fn list(mp: &mut Marketplace, c: &Collections, init: &InitData, token: u64, price: u64) {
    let r = make_listing(
        mp,
        c,
        init,
        pid(SELLER),
        pid(ENGINE),
        123,
        pid(NFT),
        num(token),
        num(price),
        Some(pid(SELLER)),
        Some(pid(ENGINE)),
    );
    assert_eq!(r, Ok(()));
}

#[test]
fn listing_is_created_with_the_fee_lines_of_the_moment() {
    let (mut mp, c, init) = setup();
    list(&mut mp, &c, &init, 42, 1000);
    let l = mp.get_listing(&pid(NFT), &num(42)).unwrap();
    assert_eq!(l.price, num(1000));
    assert_eq!(l.seller, pid(SELLER));
    assert_eq!(l.status, ListingStatus::Created);
    assert_eq!(l.created, 123);
    assert_eq!(
        l.fee,
        vec![
            ("Protocol Fee".to_string(), pid(PROTOCOL_OWNER), num(100)),
            ("Collection Fee".to_string(), pid(COLLECTION_OWNER), num(250)),
        ]
    );
    assert!(mp.get_listing(&pid(NFT), &num(43)).is_none());
}

#[test]
fn fee_schedule_names_protocol_then_collection() {
    let (_, c, init) = setup();
    let fee = fee_schedule(&init, c.get(&pid(NFT)).unwrap());
    assert_eq!(
        fee,
        vec![
            ("Protocol Fee".to_string(), pid(PROTOCOL_OWNER), num(100)),
            ("Collection Fee".to_string(), pid(COLLECTION_OWNER), num(250)),
        ]
    );
}

#[test]
fn listing_in_an_unknown_collection_is_refused() {
    let (mut mp, c, init) = setup();
    let r = make_listing(
        &mut mp,
        &c,
        &init,
        pid(SELLER),
        pid(ENGINE),
        0,
        pid(99),
        num(42),
        num(1000),
        Some(pid(SELLER)),
        Some(pid(ENGINE)),
    );
    assert_eq!(r, Err(MPApiError::NonExistentCollection));
}

#[test]
fn listing_by_someone_who_is_not_the_owner_is_refused() {
    let (mut mp, c, init) = setup();
    let r = make_listing(
        &mut mp,
        &c,
        &init,
        pid(SELLER),
        pid(ENGINE),
        0,
        pid(NFT),
        num(42),
        num(1000),
        Some(pid(BUYER)),
        Some(pid(ENGINE)),
    );
    assert_eq!(r, Err(MPApiError::Unauthorized));
    let r = make_listing(
        &mut mp,
        &c,
        &init,
        pid(SELLER),
        pid(ENGINE),
        0,
        pid(NFT),
        num(42),
        num(1000),
        None,
        Some(pid(ENGINE)),
    );
    assert_eq!(r, Err(MPApiError::Unauthorized));
    assert!(mp.get_listing(&pid(NFT), &num(42)).is_none());
}

#[test]
fn listing_without_the_engine_as_operator_is_refused() {
    let (mut mp, c, init) = setup();
    let r = make_listing(
        &mut mp,
        &c,
        &init,
        pid(SELLER),
        pid(ENGINE),
        0,
        pid(NFT),
        num(42),
        num(1000),
        Some(pid(SELLER)),
        Some(pid(BUYER)),
    );
    assert_eq!(r, Err(MPApiError::InvalidOperator));
    let r = make_listing(
        &mut mp,
        &c,
        &init,
        pid(SELLER),
        pid(ENGINE),
        0,
        pid(NFT),
        num(42),
        num(1000),
        Some(pid(SELLER)),
        None,
    );
    assert_eq!(r, Err(MPApiError::InvalidOperator));
}

#[test]
fn listing_again_replaces_price_and_fee_lines() {
    let (mut mp, c, mut init) = setup();
    list(&mut mp, &c, &init, 42, 1000);
    init.protocol_fee = num(200);
    list(&mut mp, &c, &init, 42, 1500);
    let l = mp.get_listing(&pid(NFT), &num(42)).unwrap();
    assert_eq!(l.price, num(1500));
    assert_eq!(l.fee[0].2, num(200));
}

#[test]
fn fee_change_does_not_touch_an_open_listing() {
    let (mut mp, c, mut init) = setup();
    list(&mut mp, &c, &init, 42, 1000);
    init.protocol_fee = num(900);
    let l = mp.get_listing(&pid(NFT), &num(42)).unwrap();
    assert_eq!(l.fee[0].2, num(100));
}

#[test]
fn listing_while_a_sale_is_under_way_is_refused() {
    let (mut mp, c, init) = setup();
    list(&mut mp, &c, &init, 42, 1000);
    assert!(direct_buy(&mut mp, &c, pid(BUYER), pid(NFT), num(42)).is_ok());
    let r = make_listing(
        &mut mp,
        &c,
        &init,
        pid(SELLER),
        pid(ENGINE),
        0,
        pid(NFT),
        num(42),
        num(5),
        Some(pid(SELLER)),
        Some(pid(ENGINE)),
    );
    assert_eq!(r, Err(MPApiError::InvalidListingStatus));
    assert_eq!(mp.get_listing(&pid(NFT), &num(42)).unwrap().price, num(1000));
}

#[test]
fn cancel_removes_the_listing() {
    let (mut mp, c, init) = setup();
    list(&mut mp, &c, &init, 42, 1000);
    list(&mut mp, &c, &init, 43, 2000);
    assert_eq!(cancel_listing(&mut mp, &c, pid(SELLER), pid(NFT), num(42)), Ok(()));
    assert!(mp.get_listing(&pid(NFT), &num(42)).is_none());
    assert_eq!(mp.get_listing(&pid(NFT), &num(43)).unwrap().price, num(2000));
}

#[test]
fn cancel_listing_is_refused_with_the_first_check_that_fails() {
    let (mut mp, c, init) = setup();
    list(&mut mp, &c, &init, 42, 1000);
    assert_eq!(
        cancel_listing(&mut mp, &c, pid(SELLER), pid(99), num(42)),
        Err(MPApiError::NonExistentCollection)
    );
    assert_eq!(
        cancel_listing(&mut mp, &c, pid(SELLER), pid(NFT), num(7)),
        Err(MPApiError::InvalidListing)
    );
    assert_eq!(
        cancel_listing(&mut mp, &c, pid(BUYER), pid(NFT), num(42)),
        Err(MPApiError::Unauthorized)
    );
    assert!(direct_buy(&mut mp, &c, pid(BUYER), pid(NFT), num(42)).is_ok());
    assert_eq!(
        cancel_listing(&mut mp, &c, pid(SELLER), pid(NFT), num(42)),
        Err(MPApiError::InvalidListingStatus)
    );
    assert_eq!(mp.get_listing(&pid(NFT), &num(42)).unwrap().status, ListingStatus::Selling);
}

#[test]
fn default_listing_was_never_made() {
    let l = Listing::default();
    assert_eq!(l.price, num(0));
    assert_eq!(l.seller, Principal::anonymous());
    assert_eq!(l.status, ListingStatus::Uninitialized);
    assert_eq!(l.created, 0);
    assert!(l.fee.is_empty());
}

#[test]
fn remove_listing_hands_the_listing_out() {
    let (mut mp, c, init) = setup();
    list(&mut mp, &c, &init, 42, 1000);
    let l = mp.remove_listing(&pid(NFT), &num(42)).unwrap();
    assert_eq!(l.price, num(1000));
    assert!(mp.remove_listing(&pid(NFT), &num(42)).is_none());
}

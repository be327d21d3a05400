use candid::{Nat, Principal};
use marketplace::market::Marketplace;
use marketplace::offer::{cancel_offer, deny_offer, make_offer};
use marketplace::registry::Collections;
use marketplace::settlement::accept_offer;
use marketplace::types::{FungibleStandard, InitData, MPApiError, NFTStandard, OfferStatus};

const NFT: u8 = 20;
const CURRENCY: u8 = 30;
const SELLER: u8 = 1;
const BUYER: u8 = 2;
const OTHER: u8 = 3;

fn pid(n: u8) -> Principal {
    Principal::from_slice(&[n])
}

fn num(n: u64) -> Nat {
    Nat::from(n)
}

fn setup() -> (Marketplace, Collections) {
    let mut c = Collections::new();
    let r = c.add_collection(
        true,
        pid(40),
        num(250),
        0,
        "cats".to_string(),
        pid(NFT),
        NFTStandard::DIP721v2,
        pid(CURRENCY),
        FungibleStandard::DIP20,
    );
    assert_eq!(r, Ok(()));
    (Marketplace::new(), c)
}

fn bid(mp: &mut Marketplace, c: &Collections, buyer: u8, token: u64, price: u64) {
    let r = make_offer(
        mp,
        c,
        pid(buyer),
        55,
        pid(NFT),
        num(token),
        num(price),
        Some(pid(SELLER)),
        Some(num(price)),
        Some(num(price)),
    );
    assert_eq!(r, Ok(()));
}

#[test]
fn offer_is_held_as_created() {
    let (mut mp, c) = setup();
    bid(&mut mp, &c, BUYER, 42, 900);
    let o = mp.get_offer(&pid(NFT), &num(42), &pid(BUYER)).unwrap();
    assert_eq!(o.nft_canister_id, pid(NFT));
    assert_eq!(o.token_id, num(42));
    assert_eq!(o.price, num(900));
    assert_eq!(o.buyer, pid(BUYER));
    assert_eq!(o.token_owner, pid(SELLER));
    assert_eq!(o.status, OfferStatus::Created);
    assert_eq!(o.created, 55);
    assert!(mp.get_offer(&pid(NFT), &num(42), &pid(OTHER)).is_none());
    assert_eq!(mp.get_buyer_offers(&pid(NFT), &pid(BUYER)).len(), 1);
}

#[test]
fn further_offer_replaces_the_price_only() {
    let (mut mp, c) = setup();
    bid(&mut mp, &c, BUYER, 42, 900);
    let r = make_offer(
        &mut mp,
        &c,
        pid(BUYER),
        99,
        pid(NFT),
        num(42),
        num(950),
        Some(pid(OTHER)),
        Some(num(950)),
        Some(num(2000)),
    );
    assert_eq!(r, Ok(()));
    let o = mp.get_offer(&pid(NFT), &num(42), &pid(BUYER)).unwrap();
    assert_eq!(o.price, num(950));
    assert_eq!(o.created, 55);
    assert_eq!(o.token_owner, pid(SELLER));
    assert_eq!(mp.get_buyer_offers(&pid(NFT), &pid(BUYER)).len(), 1);
    assert_eq!(mp.offers_on(&pid(NFT), &num(42)).len(), 1);
}

#[test]
fn offer_is_refused_with_the_first_check_that_fails() {
    let (mut mp, c) = setup();
    let r = make_offer(
        &mut mp,
        &c,
        pid(BUYER),
        0,
        pid(99),
        num(42),
        num(900),
        None,
        None,
        None,
    );
    assert_eq!(r, Err(MPApiError::NonExistentCollection));
    let r = make_offer(
        &mut mp,
        &c,
        pid(BUYER),
        0,
        pid(NFT),
        num(42),
        num(900),
        None,
        Some(num(900)),
        Some(num(900)),
    );
    assert_eq!(r, Err(MPApiError::Other("error calling owner_of".to_string())));
    let r = make_offer(
        &mut mp,
        &c,
        pid(BUYER),
        0,
        pid(NFT),
        num(42),
        num(900),
        Some(pid(SELLER)),
        None,
        Some(num(900)),
    );
    assert_eq!(r, Err(MPApiError::Other("Error calling allowance".to_string())));
    let r = make_offer(
        &mut mp,
        &c,
        pid(BUYER),
        0,
        pid(NFT),
        num(42),
        num(900),
        Some(pid(SELLER)),
        Some(num(899)),
        Some(num(100)),
    );
    assert_eq!(r, Err(MPApiError::InsufficientFungibleAllowance));
    let r = make_offer(
        &mut mp,
        &c,
        pid(BUYER),
        0,
        pid(NFT),
        num(42),
        num(900),
        Some(pid(SELLER)),
        Some(num(900)),
        None,
    );
    assert_eq!(r, Err(MPApiError::Other("Error calling balanceOf".to_string())));
    let r = make_offer(
        &mut mp,
        &c,
        pid(BUYER),
        0,
        pid(NFT),
        num(42),
        num(900),
        Some(pid(SELLER)),
        Some(num(900)),
        Some(num(899)),
    );
    assert_eq!(r, Err(MPApiError::InsufficientFungibleBalance));
    assert!(mp.get_offer(&pid(NFT), &num(42), &pid(BUYER)).is_none());
    assert!(mp.get_buyer_offers(&pid(NFT), &pid(BUYER)).is_empty());
}

#[test]
fn allowance_and_balance_equal_to_the_price_suffice() {
    let (mut mp, c) = setup();
    bid(&mut mp, &c, BUYER, 42, 900);
    assert!(mp.get_offer(&pid(NFT), &num(42), &pid(BUYER)).is_some());
}

#[test]
fn cancel_removes_the_offer_and_its_index_entry() {
    let (mut mp, c) = setup();
    bid(&mut mp, &c, BUYER, 42, 900);
    bid(&mut mp, &c, BUYER, 43, 800);
    bid(&mut mp, &c, OTHER, 42, 700);
    assert_eq!(cancel_offer(&mut mp, &c, pid(BUYER), pid(NFT), num(42)), Ok(()));
    assert!(mp.get_offer(&pid(NFT), &num(42), &pid(BUYER)).is_none());
    assert_eq!(mp.get_offer(&pid(NFT), &num(43), &pid(BUYER)).unwrap().price, num(800));
    assert_eq!(mp.get_offer(&pid(NFT), &num(42), &pid(OTHER)).unwrap().price, num(700));
    let left = mp.get_buyer_offers(&pid(NFT), &pid(BUYER));
    assert_eq!(left.len(), 1);
    assert_eq!(left[0].token_id, num(43));
}

#[test]
fn cancel_offer_is_refused_with_the_first_check_that_fails() {
    let (mut mp, c) = setup();
    let init = InitData::new(None, pid(50), num(100));
    bid(&mut mp, &c, BUYER, 42, 900);
    assert_eq!(
        cancel_offer(&mut mp, &c, pid(BUYER), pid(99), num(42)),
        Err(MPApiError::NonExistentCollection)
    );
    assert_eq!(
        cancel_offer(&mut mp, &c, pid(OTHER), pid(NFT), num(42)),
        Err(MPApiError::InvalidListing)
    );
    assert!(accept_offer(&mut mp, &c, &init, pid(SELLER), pid(NFT), num(42), pid(BUYER)).is_ok());
    assert_eq!(
        cancel_offer(&mut mp, &c, pid(BUYER), pid(NFT), num(42)),
        Err(MPApiError::InvalidOfferStatus)
    );
    assert!(mp.get_offer(&pid(NFT), &num(42), &pid(BUYER)).is_some());
}

#[test]
fn deny_removes_the_offer() {
    let (mut mp, c) = setup();
    bid(&mut mp, &c, BUYER, 42, 900);
    let r = deny_offer(&mut mp, &c, pid(SELLER), pid(NFT), num(42), pid(BUYER), Some(pid(SELLER)));
    assert_eq!(r, Ok(()));
    assert!(mp.get_offer(&pid(NFT), &num(42), &pid(BUYER)).is_none());
    assert!(mp.get_buyer_offers(&pid(NFT), &pid(BUYER)).is_empty());
}

#[test]
fn deny_is_refused_with_the_first_check_that_fails() {
    let (mut mp, c) = setup();
    let init = InitData::new(None, pid(50), num(100));
    bid(&mut mp, &c, BUYER, 42, 900);
    assert_eq!(
        deny_offer(&mut mp, &c, pid(SELLER), pid(99), num(42), pid(BUYER), Some(pid(SELLER))),
        Err(MPApiError::NonExistentCollection)
    );
    assert_eq!(
        deny_offer(&mut mp, &c, pid(SELLER), pid(NFT), num(42), pid(BUYER), None),
        Err(MPApiError::Other("error calling owner_of".to_string()))
    );
    assert_eq!(
        deny_offer(&mut mp, &c, pid(OTHER), pid(NFT), num(42), pid(BUYER), Some(pid(SELLER))),
        Err(MPApiError::Unauthorized)
    );
    assert_eq!(
        deny_offer(&mut mp, &c, pid(SELLER), pid(NFT), num(42), pid(OTHER), Some(pid(SELLER))),
        Err(MPApiError::InvalidOffer)
    );
    assert!(accept_offer(&mut mp, &c, &init, pid(SELLER), pid(NFT), num(42), pid(BUYER)).is_ok());
    assert_eq!(
        deny_offer(&mut mp, &c, pid(SELLER), pid(NFT), num(42), pid(BUYER), Some(pid(SELLER))),
        Err(MPApiError::InvalidOfferStatus)
    );
    assert!(mp.get_offer(&pid(NFT), &num(42), &pid(BUYER)).is_some());
}

#[test]
fn remove_offer_hands_the_offer_out() {
    let (mut mp, c) = setup();
    bid(&mut mp, &c, BUYER, 42, 900);
    let o = mp.remove_offer(&pid(NFT), &num(42), &pid(BUYER)).unwrap();
    assert_eq!(o.price, num(900));
    assert!(mp.remove_offer(&pid(NFT), &num(42), &pid(BUYER)).is_none());
    assert!(mp.get_buyer_offers(&pid(NFT), &pid(BUYER)).is_empty());
}

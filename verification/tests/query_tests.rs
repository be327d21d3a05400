use candid::{Nat, Principal};
use marketplace::events::{listing_event, offer_event, DetailValue};
use marketplace::listing::make_listing;
use marketplace::market::Marketplace;
use marketplace::offer::make_offer;
use marketplace::proxy::{DIP721v2Proxy, Dip20Proxy, EXTProxy};
use marketplace::queries::{
    get_floor, get_protocol_fee, get_token_listing, get_token_offers, init, is_controller,
    set_protocol_fee,
};
use marketplace::registry::Collections;
use marketplace::settlement::Custody;
use marketplace::types::{FungibleStandard, InitData, MPApiError, NFTStandard};
use marketplace::vendor_types::{ApiError, NftError, TxError};

const NFT: u8 = 20;
const SELLER: u8 = 1;
const ENGINE: u8 = 60;

fn pid(n: u8) -> Principal {
    Principal::from_slice(&[n])
}

fn num(n: u64) -> Nat {
    Nat::from(n)
}

fn setup() -> (Marketplace, Collections, InitData) {
    let mut c = Collections::new();
    for nft in [NFT, 21] {
        let r = c.add_collection(
            true,
            pid(40),
            num(250),
            0,
            "cats".to_string(),
            pid(nft),
            NFTStandard::DIP721v2,
            pid(30),
            FungibleStandard::DIP20,
        );
        assert_eq!(r, Ok(()));
    }
    (Marketplace::new(), c, init(pid(50), num(100), None))
}

fn list(mp: &mut Marketplace, c: &Collections, i: &InitData, nft: u8, token: u64, price: u64) {
    let r = make_listing(
        mp,
        c,
        i,
        pid(SELLER),
        pid(ENGINE),
        0,
        pid(nft),
        num(token),
        num(price),
        Some(pid(SELLER)),
        Some(pid(ENGINE)),
    );
    assert_eq!(r, Ok(()));
}

fn bid(mp: &mut Marketplace, c: &Collections, buyer: u8, token: u64, price: u64) {
    let r = make_offer(
        mp,
        c,
        pid(buyer),
        0,
        pid(NFT),
        num(token),
        num(price),
        Some(pid(SELLER)),
        Some(num(price)),
        Some(num(price)),
    );
    assert_eq!(r, Ok(()));
}

#[test]
fn floor_is_the_lowest_listed_price_of_the_collection() {
    let (mut mp, c, i) = setup();
    list(&mut mp, &c, &i, NFT, 1, 500);
    list(&mut mp, &c, &i, NFT, 2, 300);
    list(&mut mp, &c, &i, NFT, 3, 700);
    list(&mut mp, &c, &i, 21, 1, 10);
    assert_eq!(get_floor(&mp, &c, pid(NFT)), Ok(num(300)));
    assert_eq!(get_floor(&mp, &c, pid(21)), Ok(num(10)));
    assert_eq!(mp.floor_price(&pid(NFT)), Some(num(300)));
}

#[test]
fn floor_of_a_collection_without_listings_is_refused() {
    let (mut mp, c, i) = setup();
    list(&mut mp, &c, &i, 21, 1, 10);
    assert_eq!(get_floor(&mp, &c, pid(NFT)), Err(MPApiError::Other("No Listings".to_string())));
    assert_eq!(get_floor(&mp, &c, pid(99)), Err(MPApiError::NonExistentCollection));
    assert_eq!(mp.floor_price(&pid(NFT)), None);
}

#[test]
fn token_listing_is_found_or_refused() {
    let (mut mp, c, i) = setup();
    list(&mut mp, &c, &i, NFT, 1, 500);
    assert_eq!(get_token_listing(&mp, &c, pid(NFT), num(1)).unwrap().price, num(500));
    assert_eq!(
        get_token_listing(&mp, &c, pid(NFT), num(2)).unwrap_err(),
        MPApiError::InvalidListing
    );
    assert_eq!(
        get_token_listing(&mp, &c, pid(99), num(1)).unwrap_err(),
        MPApiError::NonExistentCollection
    );
}

#[test]
fn token_offers_are_grouped_by_item() {
    let (mut mp, c, _) = setup();
    bid(&mut mp, &c, 2, 1, 100);
    bid(&mut mp, &c, 3, 1, 110);
    bid(&mut mp, &c, 2, 5, 70);
    let r = get_token_offers(&mp, pid(NFT), vec![num(1), num(5), num(9)]);
    assert_eq!(r.len(), 3);
    assert_eq!(r[0].0, num(1));
    assert_eq!(r[0].1.len(), 2);
    assert_eq!(r[0].1[0].buyer, pid(2));
    assert_eq!(r[0].1[1].buyer, pid(3));
    assert_eq!(r[0].1[1].price, num(110));
    assert_eq!(r[1].0, num(5));
    assert_eq!(r[1].1.len(), 1);
    assert_eq!(r[1].1[0].price, num(70));
    assert_eq!(r[2].0, num(9));
    assert!(r[2].1.is_empty());
    assert!(get_token_offers(&mp, pid(21), vec![num(1)])[0].1.is_empty());
}

#[test]
fn buyer_offers_follow_the_index() {
    let (mut mp, c, _) = setup();
    bid(&mut mp, &c, 2, 1, 100);
    bid(&mut mp, &c, 3, 1, 110);
    bid(&mut mp, &c, 2, 5, 70);
    let r = mp.get_buyer_offers(&pid(NFT), &pid(2));
    assert_eq!(r.len(), 2);
    assert_eq!(r[0].token_id, num(1));
    assert_eq!(r[0].price, num(100));
    assert_eq!(r[1].token_id, num(5));
    assert_eq!(r[1].price, num(70));
    assert!(mp.get_buyer_offers(&pid(21), &pid(2)).is_empty());
    assert!(mp.get_buyer_offers(&pid(NFT), &pid(4)).is_empty());
}

#[test]
fn protocol_fee_is_read_and_set_by_a_controller() {
    let mut i = init(pid(50), num(100), Some(pid(51)));
    assert_eq!(i.owner, pid(50));
    assert_eq!(i.cap, Some(pid(51)));
    assert_eq!(get_protocol_fee(&i), num(100));
    assert_eq!(set_protocol_fee(&mut i, false, num(300)), Err(MPApiError::Unauthorized));
    assert_eq!(get_protocol_fee(&i), num(100));
    assert_eq!(set_protocol_fee(&mut i, true, num(300)), Ok(()));
    assert_eq!(get_protocol_fee(&i), num(300));
    assert_eq!(i.owner, pid(50));
}

#[test]
fn controller_is_one_of_the_list() {
    let controllers = vec![pid(1), pid(2)];
    assert_eq!(is_controller(&controllers, &pid(2), &pid(9)), Ok(()));
    let e = is_controller(&controllers, &pid(3), &pid(9)).unwrap_err();
    assert!(e.contains("is not a controller of"));
    assert!(is_controller(&vec![], &pid(1), &pid(9)).is_err());
}

#[test]
fn listing_event_names_item_collection_price_and_seller() {
    let e = listing_event("makeListing", pid(SELLER), pid(NFT), &num(42), &num(1000)).unwrap();
    assert_eq!(e.caller, pid(SELLER));
    assert_eq!(e.operation, "makeListing");
    assert_eq!(e.details.len(), 4);
    assert_eq!(e.details[0].0, "token_id");
    assert!(matches!(e.details[0].1, DetailValue::U64(42)));
    assert_eq!(e.details[1].0, "nft_canister_id");
    assert!(matches!(e.details[1].1, DetailValue::Principal(p) if p == pid(NFT)));
    assert_eq!(e.details[2].0, "price");
    assert!(matches!(e.details[2].1, DetailValue::U64(1000)));
    assert_eq!(e.details[3].0, "seller");
    assert!(matches!(e.details[3].1, DetailValue::Principal(p) if p == pid(SELLER)));
}

#[test]
fn event_is_not_made_for_numbers_beyond_64_bits() {
    let big = Nat::from(u128::MAX);
    assert!(listing_event("makeListing", pid(1), pid(NFT), &big, &num(1)).is_none());
    assert!(listing_event("makeListing", pid(1), pid(NFT), &num(1), &big).is_none());
    assert!(offer_event("makeOffer", pid(2), pid(NFT), &big, &num(1), pid(2), None).is_none());
    assert!(listing_event("makeListing", pid(1), pid(NFT), &num(u64::MAX), &num(1)).is_some());
}

#[test]
fn offer_event_names_the_seller_where_given() {
    let e = offer_event("makeOffer", pid(2), pid(NFT), &num(42), &num(900), pid(2), Some(pid(1)))
        .unwrap();
    assert_eq!(e.operation, "makeOffer");
    assert_eq!(e.details.len(), 5);
    assert_eq!(e.details[3].0, "buyer");
    assert_eq!(e.details[4].0, "seller");
    assert!(matches!(e.details[4].1, DetailValue::Principal(p) if p == pid(1)));
    let e = offer_event("denyOffer", pid(2), pid(NFT), &num(42), &num(900), pid(2), None).unwrap();
    assert_eq!(e.details.len(), 4);
    assert!(matches!(e.details[2].1, DetailValue::U64(900)));
}

#[test]
fn currency_answers_become_receipts_or_transfer_errors() {
    assert_eq!(Dip20Proxy::transfer_from(Ok(Ok(num(17)))), Ok(17));
    assert_eq!(
        Dip20Proxy::transfer_from(Ok(Err(TxError::InsufficientAllowance))),
        Err(MPApiError::TransferFungibleError)
    );
    assert_eq!(
        Dip20Proxy::transfer_from(Err("unreachable".to_string())),
        Err(MPApiError::TransferFungibleError)
    );
    assert_eq!(Dip20Proxy::transfer(Ok(Ok(num(18)))), Ok(18));
    assert_eq!(
        Dip20Proxy::transfer(Ok(Err(TxError::LedgerTrap))),
        Err(MPApiError::TransferFungibleError)
    );
    assert_eq!(Dip20Proxy::balance_of(Ok(num(5))), Ok(num(5)));
    assert_eq!(
        Dip20Proxy::balance_of(Err("x".to_string())),
        Err(MPApiError::TransferFungibleError)
    );
    assert_eq!(Dip20Proxy::allowance(Ok(num(6))), Ok(num(6)));
    assert_eq!(
        Dip20Proxy::allowance(Err("x".to_string())),
        Err(MPApiError::InsufficientFungibleAllowance)
    );
}

#[test]
fn item_answers_become_values_or_errors_with_a_diagnostic() {
    assert_eq!(DIP721v2Proxy::owner_of(Ok(Ok(Some(pid(1))))), Ok(Some(pid(1))));
    assert_eq!(DIP721v2Proxy::owner_of(Ok(Ok(None))), Ok(None));
    assert_eq!(
        DIP721v2Proxy::owner_of(Ok(Err(NftError::TokenNotFound))),
        Err(MPApiError::Other("TokenNotFound".to_string()))
    );
    assert_eq!(
        DIP721v2Proxy::operator_of(Err("gone".to_string())),
        Err(MPApiError::Other("gone".to_string()))
    );
    assert_eq!(DIP721v2Proxy::operator_of(Ok(Ok(Some(pid(2))))), Ok(Some(pid(2))));
    assert_eq!(DIP721v2Proxy::transfer_from(Ok(Ok(num(3)))), Ok(num(3)));
    assert_eq!(
        DIP721v2Proxy::transfer_from(Ok(Err(NftError::UnauthorizedOperator))),
        Err(MPApiError::TransferFromNonFungibleError("UnauthorizedOperator".to_string()))
    );
    assert_eq!(
        DIP721v2Proxy::transfer_from(Err("gone".to_string())),
        Err(MPApiError::TransferFromNonFungibleError("gone".to_string()))
    );
    assert_eq!(DIP721v2Proxy::transfer(Ok(Ok(num(4)))), Ok(num(4)));
    assert_eq!(
        DIP721v2Proxy::transfer(Ok(Err(NftError::SelfTransfer))),
        Err(MPApiError::TransferFungibleError)
    );
    let custody = Custody { owner: Some(pid(1)), operator: None };
    let got = DIP721v2Proxy::token_metadata(Ok(Ok(custody))).unwrap();
    assert_eq!(got.owner, Some(pid(1)));
    assert_eq!(got.operator, None);
    assert_eq!(
        DIP721v2Proxy::token_metadata(Err("gone".to_string())).unwrap_err(),
        MPApiError::Other("gone".to_string())
    );
    assert_eq!(
        DIP721v2Proxy::owner_of(Ok(Err(NftError::Other("lost".to_string())))),
        Err(MPApiError::Other("Other(\"lost\")".to_string()))
    );
    assert_eq!(EXTProxy::transfer_from(Ok(Ok(num(8)))), Ok(8));
    assert_eq!(
        EXTProxy::transfer_from(Ok(Err(ApiError::InvalidTokenId))),
        Err(MPApiError::TransferFungibleError)
    );
    assert_eq!(EXTProxy::transfer(), Ok(num(0)));
}

//! The records that the engine hands to the event notifier. A record is made
//! only where every number in it fits 64 bits; notifying is best effort and
//! never stands in the way of an operation.

use vstd::prelude::*;
use candid::{Nat, Principal};
use crate::ledger::sum_fees;
use crate::number::{convert_nat_to_u64, nat_value};
use crate::settlement::Exchange;

verus! {

/// One value of a record's details.
#[derive(Debug)]
pub enum DetailValue {
    U64(u64),
    Principal(Principal),
}

/// A record of one operation: who called, what was done, and the details by
/// name.
#[derive(Debug)]
pub struct MarketEvent {
    pub caller: Principal,
    pub operation: String,
    pub details: Vec<(String, DetailValue)>,
}

/// The detail has this name and holds this number.
pub open spec fn names_number(d: (String, DetailValue), name: Seq<char>, v: nat) -> bool {
    d.0@ == name && d.1 == DetailValue::U64(v as u64) && v <= u64::MAX
}

/// The detail has this name and holds this principal.
pub open spec fn names_principal(d: (String, DetailValue), name: Seq<char>, p: Principal) -> bool {
    d.0@ == name && d.1 == DetailValue::Principal(p)
}

/// A detail that holds a number, where the number fits 64 bits.
fn number_detail(name: &str, n: &Nat) -> (r: Option<(String, DetailValue)>)
    ensures
        r is Some <==> nat_value(*n) <= u64::MAX,
        r is Some ==> names_number(r->0, name@, nat_value(*n)),
{
    match convert_nat_to_u64(n.clone()) {
        Ok(v) => Some((name.to_string(), DetailValue::U64(v))),
        Err(_) => None,
    }
}

/// A detail that holds a principal.
fn principal_detail(name: &str, p: Principal) -> (r: (String, DetailValue))
    ensures
        names_principal(r, name@, p),
{
    (name.to_string(), DetailValue::Principal(p))
}

/// The record is that of `operation` on a listing: the item, the collection,
/// the price and the seller, who is the caller.
pub open spec fn is_listing_event(
    e: MarketEvent,
    operation: Seq<char>,
    seller: Principal,
    nft_canister_id: Principal,
    token: nat,
    price: nat,
) -> bool {
    &&& e.caller == seller
    &&& e.operation@ == operation
    &&& e.details@.len() == 4
    &&& names_number(e.details@[0], "token_id"@, token)
    &&& names_principal(e.details@[1], "nft_canister_id"@, nft_canister_id)
    &&& names_number(e.details@[2], "price"@, price)
    &&& names_principal(e.details@[3], "seller"@, seller)
}

/// The record of `operation` ("makeListing" or "cancelListing") on a listing,
/// where the item's number and the price fit 64 bits.
pub fn listing_event(
    operation: &str,
    seller: Principal,
    nft_canister_id: Principal,
    token_id: &Nat,
    price: &Nat,
) -> (r: Option<MarketEvent>)
    ensures
        r is Some <==> nat_value(*token_id) <= u64::MAX && nat_value(*price) <= u64::MAX,
        r is Some ==> is_listing_event(
            r->0,
            operation@,
            seller,
            nft_canister_id,
            nat_value(*token_id),
            nat_value(*price),
        ),
{
    let token = match number_detail("token_id", token_id) {
        Some(d) => d,
        None => {
            return None;
        },
    };
    let cost = match number_detail("price", price) {
        Some(d) => d,
        None => {
            return None;
        },
    };
    let mut details: Vec<(String, DetailValue)> = Vec::new();
    details.push(token);
    details.push(principal_detail("nft_canister_id", nft_canister_id));
    details.push(cost);
    details.push(principal_detail("seller", seller));
    Some(MarketEvent { caller: seller, operation: operation.to_string(), details })
}

/// The record is that of `operation` on a bid: the item, the collection, the
/// price, the buyer and, where it is given, the seller.
pub open spec fn is_offer_event(
    e: MarketEvent,
    operation: Seq<char>,
    caller: Principal,
    nft_canister_id: Principal,
    token: nat,
    price: nat,
    buyer: Principal,
    seller: Option<Principal>,
) -> bool {
    &&& e.caller == caller
    &&& e.operation@ == operation
    &&& e.details@.len() == (if seller is Some {
        5int
    } else {
        4int
    })
    &&& names_number(e.details@[0], "token_id"@, token)
    &&& names_principal(e.details@[1], "nft_canister_id"@, nft_canister_id)
    &&& names_number(e.details@[2], "price"@, price)
    &&& names_principal(e.details@[3], "buyer"@, buyer)
    &&& seller is Some ==> names_principal(e.details@[4], "seller"@, seller->0)
}

/// The record of `operation` ("makeOffer", "cancelOffer" or "denyOffer") on
/// a bid, where the item's number and the price fit 64 bits.
pub fn offer_event(
    operation: &str,
    caller: Principal,
    nft_canister_id: Principal,
    token_id: &Nat,
    price: &Nat,
    buyer: Principal,
    seller: Option<Principal>,
) -> (r: Option<MarketEvent>)
    ensures
        r is Some <==> nat_value(*token_id) <= u64::MAX && nat_value(*price) <= u64::MAX,
        r is Some ==> is_offer_event(
            r->0,
            operation@,
            caller,
            nft_canister_id,
            nat_value(*token_id),
            nat_value(*price),
            buyer,
            seller,
        ),
{
    let token = match number_detail("token_id", token_id) {
        Some(d) => d,
        None => {
            return None;
        },
    };
    let cost = match number_detail("price", price) {
        Some(d) => d,
        None => {
            return None;
        },
    };
    let mut details: Vec<(String, DetailValue)> = Vec::new();
    details.push(token);
    details.push(principal_detail("nft_canister_id", nft_canister_id));
    details.push(cost);
    details.push(principal_detail("buyer", buyer));
    if let Some(s) = seller {
        details.push(principal_detail("seller", s));
    }
    Some(MarketEvent { caller, operation: operation.to_string(), details })
}

/// The record is that of a completed exchange: the item, the collection, the
/// buyer, the seller, the price and the sum of the fees. A purchase is
/// recorded for the buyer as "directBuy", an accepted bid for the seller as
/// "acceptOffer".
pub open spec fn is_sale_event(e: MarketEvent, x: Exchange) -> bool {
    &&& e.caller == (if x.from_offer {
        x.seller
    } else {
        x.buyer
    })
    &&& e.operation@ == (if x.from_offer {
        "acceptOffer"@
    } else {
        "directBuy"@
    })
    &&& e.details@.len() == 6
    &&& names_number(e.details@[0], "token_id"@, nat_value(x.token_id))
    &&& names_principal(e.details@[1], "nft_canister_id"@, x.nft_canister_id)
    &&& names_principal(e.details@[2], "buyer"@, x.buyer)
    &&& names_principal(e.details@[3], "seller"@, x.seller)
    &&& names_number(e.details@[4], "price"@, nat_value(x.price))
    &&& names_number(e.details@[5], "total_fees"@, x.total_fees())
}

/// The record of a completed exchange, where the item's number, the price
/// and the sum of the fees fit 64 bits.
pub fn sale_event(x: &Exchange) -> (r: Option<MarketEvent>)
    ensures
        r is Some <==> nat_value(x.token_id) <= u64::MAX && nat_value(x.price) <= u64::MAX
            && x.total_fees() <= u64::MAX,
        r is Some ==> is_sale_event(r->0, *x),
{
    let token = match number_detail("token_id", &x.token_id) {
        Some(d) => d,
        None => {
            return None;
        },
    };
    let cost = match number_detail("price", &x.price) {
        Some(d) => d,
        None => {
            return None;
        },
    };
    let total = sum_fees(&x.price, &x.fee);
    let fees = match number_detail("total_fees", &total) {
        Some(d) => d,
        None => {
            return None;
        },
    };
    let mut details: Vec<(String, DetailValue)> = Vec::new();
    details.push(token);
    details.push(principal_detail("nft_canister_id", x.nft_canister_id));
    details.push(principal_detail("buyer", x.buyer));
    details.push(principal_detail("seller", x.seller));
    details.push(cost);
    details.push(fees);
    if x.from_offer {
        Some(MarketEvent { caller: x.seller, operation: "acceptOffer".to_string(), details })
    } else {
        Some(MarketEvent { caller: x.buyer, operation: "directBuy".to_string(), details })
    }
}

} // verus!

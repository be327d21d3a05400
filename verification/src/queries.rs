//! Read-only questions about listings, offers and the engine's settings.

use vstd::prelude::*;
use candid::{Nat, Principal};
use crate::market::{bid_on, has_listings, is_floor, Marketplace};
use crate::number::{nat_value};
use crate::offer::is_other;
use crate::principal::same_principal;
use crate::registry::Collections;
use crate::types::{InitData, Listing, MPApiError, MPApiResult, NatResult, Offer};

verus! {

/// The listing of an item: refused with `NonExistentCollection` where the
/// collection is not registered, and with `InvalidListing` where the item is
/// not listed.
pub fn get_token_listing<'a>(
    mp: &'a Marketplace,
    collections: &Collections,
    nft_canister_id: Principal,
    token_id: Nat,
) -> (r: Result<&'a Listing, MPApiError>)
    requires
        mp.wf(),
        collections.wf(),
    ensures
        r is Ok <==> collections@.contains_key(nft_canister_id) && mp.listings().contains_key(
            (nft_canister_id, nat_value(token_id)),
        ),
        r is Ok ==> *r->Ok_0 == mp.listings()[(nft_canister_id, nat_value(token_id))],
        r is Err ==> r->Err_0 == (if collections@.contains_key(nft_canister_id) {
            MPApiError::InvalidListing
        } else {
            MPApiError::NonExistentCollection
        }),
{
    if collections.get(&nft_canister_id).is_none() {
        return Err(MPApiError::NonExistentCollection);
    }
    match mp.get_listing(&nft_canister_id, &token_id) {
        Some(l) => Ok(l),
        None => Err(MPApiError::InvalidListing),
    }
}

/// The bids on each of the items named, item by item.
pub fn get_token_offers(mp: &Marketplace, nft_canister_id: Principal, token_ids: Vec<Nat>) -> (r:
    Vec<(Nat, Vec<Offer>)>)
    requires
        mp.wf(),
    ensures
        r@.len() == token_ids@.len(),
        forall|i: int|
            0 <= i < r@.len() ==> (#[trigger] r@[i]).0 == token_ids@[i] && r@[i].1@
                == mp.offer_list().filter(bid_on(nft_canister_id, nat_value(token_ids@[i]))),
{
    let mut r: Vec<(Nat, Vec<Offer>)> = Vec::new();
    let mut i: usize = 0;
    while i < token_ids.len()
        invariant
            mp.wf(),
            i <= token_ids@.len(),
            r@.len() == i,
            forall|j: int|
                0 <= j < i ==> (#[trigger] r@[j]).0 == token_ids@[j] && r@[j].1@
                    == mp.offer_list().filter(bid_on(nft_canister_id, nat_value(token_ids@[j]))),
        decreases token_ids@.len() - i,
    {
        let bids = mp.offers_on(&nft_canister_id, &token_ids[i]);
        r.push((token_ids[i].clone(), bids));
        i += 1;
    }
    r
}

/// The lowest price at which an item of a collection is listed: refused with
/// `NonExistentCollection` where the collection is not registered, and with
/// `Other("No Listings")` where none of its items is listed.
pub fn get_floor(mp: &Marketplace, collections: &Collections, nft_canister_id: Principal) -> (r:
    NatResult)
    requires
        mp.wf(),
        collections.wf(),
    ensures
        r is Ok <==> collections@.contains_key(nft_canister_id) && has_listings(
            mp.listings(),
            nft_canister_id,
        ),
        r is Ok ==> is_floor(mp.listings(), nft_canister_id, nat_value(r->Ok_0)),
        r is Err && !collections@.contains_key(nft_canister_id) ==> r->Err_0
            == MPApiError::NonExistentCollection,
        r is Err && collections@.contains_key(nft_canister_id) ==> is_other(
            r->Err_0,
            "No Listings"@,
        ),
{
    if collections.get(&nft_canister_id).is_none() {
        return Err(MPApiError::NonExistentCollection);
    }
    match mp.floor_price(&nft_canister_id) {
        Some(p) => Ok(p),
        None => Err(MPApiError::Other("No Listings".to_string())),
    }
}

/// The engine's settings at its start: the protocol owner, the protocol fee
/// rate and the event service.
pub fn init(owner: Principal, protocol_fee: Nat, cap: Option<Principal>) -> (r: InitData)
    ensures
        r == (InitData { cap, owner, protocol_fee }),
{
    InitData::new(cap, owner, protocol_fee)
}

/// The protocol fee rate, in parts per ten thousand.
pub fn get_protocol_fee(init_data: &InitData) -> (r: Nat)
    ensures
        r == init_data.protocol_fee,
{
    init_data.protocol_fee.clone()
}

/// Replaces the protocol fee rate, for a caller who controls the engine.
pub fn set_protocol_fee(init_data: &mut InitData, controller: bool, fee: Nat) -> (r: MPApiResult)
    ensures
        final(init_data).cap == old(init_data).cap,
        final(init_data).owner == old(init_data).owner,
        controller ==> r is Ok && final(init_data).protocol_fee == fee,
        !controller ==> r == Err::<(), MPApiError>(MPApiError::Unauthorized) && final(init_data).protocol_fee == old(init_data).protocol_fee,
{
    if !controller {
        return Err(MPApiError::Unauthorized);
    }
    init_data.protocol_fee = fee;
    Ok(())
}

/// `format!` with the text forms of two principals: why a caller is turned
/// away. Nothing is claimed of the text.
#[verifier::external_body]
fn not_controller_text(caller: &Principal, self_id: &Principal) -> String {
    format!("{} is not a controller of {}", caller, self_id)
}

/// Whether `caller` is among the controllers that the management service
/// reports for the engine.
pub fn is_controller(controllers: &Vec<Principal>, caller: &Principal, self_id: &Principal) -> (r:
    Result<(), String>)
    ensures
        r is Ok <==> controllers@.contains(*caller),
{
    let mut i: usize = 0;
    while i < controllers.len()
        invariant
            i <= controllers@.len(),
            forall|j: int| 0 <= j < i ==> controllers@[j] != *caller,
        decreases controllers@.len() - i,
    {
        if same_principal(&controllers[i], caller) {
            return Ok(());
        }
        i += 1;
    }
    Err(not_controller_text(caller, self_id))
}

} // verus!

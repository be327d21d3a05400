//! The listing manager: making and cancelling a fixed-price listing.

use vstd::prelude::*;
use candid::{Nat, Principal};
use crate::market::Marketplace;
use crate::number::{nat_value};
use crate::principal::same_principal;
use crate::registry::Collections;
use crate::types::{Collection, InitData, Listing, ListingStatus, MPApiError, MPApiResult};

verus! {

/// The fee lines of a sale in a collection: the protocol fee for the protocol
/// owner, then the collection fee for the collection owner.
pub open spec fn is_fee_schedule(
    fee: Seq<(String, Principal, Nat)>,
    init_data: InitData,
    collection: Collection,
) -> bool {
    &&& fee.len() == 2
    &&& fee[0].0@ == "Protocol Fee"@
    &&& fee[0].1 == init_data.owner
    &&& fee[0].2 == init_data.protocol_fee
    &&& fee[1].0@ == "Collection Fee"@
    &&& fee[1].1 == collection.owner
    &&& fee[1].2 == collection.collection_fee
}

/// The fee lines of a sale in a collection, as they stand now.
pub fn fee_schedule(init_data: &InitData, collection: &Collection) -> (fee: Vec<
    (String, Principal, Nat),
>)
    ensures
        is_fee_schedule(fee@, *init_data, *collection),
{
    let mut fee: Vec<(String, Principal, Nat)> = Vec::new();
    fee.push(("Protocol Fee".to_string(), init_data.owner, init_data.protocol_fee.clone()));
    fee.push(
        ("Collection Fee".to_string(), collection.owner, collection.collection_fee.clone()),
    );
    fee
}

/// Why a listing cannot be made, if it cannot: the collection is not
/// registered, the caller does not own the item, the engine is not its
/// operator, or a sale of the item is under way.
pub open spec fn listing_refusal(
    collections: Map<Principal, Collection>,
    listings: Map<(Principal, nat), Listing>,
    caller: Principal,
    self_id: Principal,
    nft_canister_id: Principal,
    token: nat,
    token_owner: Option<Principal>,
    token_operator: Option<Principal>,
) -> Option<MPApiError> {
    if !collections.contains_key(nft_canister_id) {
        Some(MPApiError::NonExistentCollection)
    } else if token_owner != Some(caller) {
        Some(MPApiError::Unauthorized)
    } else if token_operator != Some(self_id) {
        Some(MPApiError::InvalidOperator)
    } else if listings.contains_key((nft_canister_id, token)) && listings[(
        nft_canister_id,
        token,
    )].status == ListingStatus::Selling {
        Some(MPApiError::InvalidListingStatus)
    } else {
        None
    }
}

/// Why a listing cannot be cancelled, if it cannot: the collection is not
/// registered, there is no listing, the caller is not its seller, or a sale
/// is under way.
pub open spec fn cancel_listing_refusal(
    collections: Map<Principal, Collection>,
    listings: Map<(Principal, nat), Listing>,
    caller: Principal,
    nft_canister_id: Principal,
    token: nat,
) -> Option<MPApiError> {
    if !collections.contains_key(nft_canister_id) {
        Some(MPApiError::NonExistentCollection)
    } else if !listings.contains_key((nft_canister_id, token)) {
        Some(MPApiError::InvalidListing)
    } else if listings[(nft_canister_id, token)].seller != caller {
        Some(MPApiError::Unauthorized)
    } else if listings[(nft_canister_id, token)].status != ListingStatus::Created {
        Some(MPApiError::InvalidListingStatus)
    } else {
        None
    }
}

/// Whether the principal found is the one wanted.
fn is_principal(found: &Option<Principal>, wanted: &Principal) -> (r: bool)
    ensures
        r == (*found == Some(*wanted)),
{
    match found {
        Some(p) => same_principal(p, wanted),
        None => false,
    }
}

/// Lists an item for sale at `price`, given the owner and the operator that
/// the item service reports for it. The listing starts as `Created` and keeps
/// the fee lines as they stand at time `now`.
pub fn make_listing(
    mp: &mut Marketplace,
    collections: &Collections,
    init_data: &InitData,
    caller: Principal,
    self_id: Principal,
    now: u64,
    nft_canister_id: Principal,
    token_id: Nat,
    price: Nat,
    token_owner: Option<Principal>,
    token_operator: Option<Principal>,
) -> (r: MPApiResult)
    requires
        old(mp).wf(),
        collections.wf(),
    ensures
        final(mp).wf(),
        final(mp).offers() == old(mp).offers(),
        final(mp).offer_index() == old(mp).offer_index(),
        r is Err <==> listing_refusal(
            collections@,
            old(mp).listings(),
            caller,
            self_id,
            nft_canister_id,
            nat_value(token_id),
            token_owner,
            token_operator,
        ) is Some,
        r is Err ==> Some(r->Err_0) == listing_refusal(
            collections@,
            old(mp).listings(),
            caller,
            self_id,
            nft_canister_id,
            nat_value(token_id),
            token_owner,
            token_operator,
        ) && final(mp).listings() == old(mp).listings(),
        r is Ok ==> ({
            let k = (nft_canister_id, nat_value(token_id));
            let l = final(mp).listings()[k];
            &&& final(mp).listings() == old(mp).listings().insert(k, l)
            &&& l.price == price
            &&& l.seller == caller
            &&& l.status == ListingStatus::Created
            &&& l.created == now
            &&& is_fee_schedule(l.fee@, *init_data, collections@[nft_canister_id])
        }),
{
    let collection = match collections.get(&nft_canister_id) {
        Some(c) => c,
        None => {
            return Err(MPApiError::NonExistentCollection);
        },
    };
    if !is_principal(&token_owner, &caller) {
        return Err(MPApiError::Unauthorized);
    }
    if !is_principal(&token_operator, &self_id) {
        return Err(MPApiError::InvalidOperator);
    }
    if let Some(l) = mp.get_listing(&nft_canister_id, &token_id) {
        if let ListingStatus::Selling = l.status {
            return Err(MPApiError::InvalidListingStatus);
        }
    }
    let fee = fee_schedule(init_data, collection);
    mp.put_listing(
        nft_canister_id,
        token_id,
        Listing::new(price, caller, ListingStatus::Created, now, fee),
    );
    Ok(())
}

/// Withdraws the caller's listing of an item, unless a sale is under way.
pub fn cancel_listing(
    mp: &mut Marketplace,
    collections: &Collections,
    caller: Principal,
    nft_canister_id: Principal,
    token_id: Nat,
) -> (r: MPApiResult)
    requires
        old(mp).wf(),
        collections.wf(),
    ensures
        final(mp).wf(),
        final(mp).offers() == old(mp).offers(),
        final(mp).offer_index() == old(mp).offer_index(),
        r is Err <==> cancel_listing_refusal(
            collections@,
            old(mp).listings(),
            caller,
            nft_canister_id,
            nat_value(token_id),
        ) is Some,
        r is Err ==> Some(r->Err_0) == cancel_listing_refusal(
            collections@,
            old(mp).listings(),
            caller,
            nft_canister_id,
            nat_value(token_id),
        ) && final(mp).listings() == old(mp).listings(),
        r is Ok ==> final(mp).listings() == old(mp).listings().remove(
            (nft_canister_id, nat_value(token_id)),
        ),
{
    if collections.get(&nft_canister_id).is_none() {
        return Err(MPApiError::NonExistentCollection);
    }
    match mp.get_listing(&nft_canister_id, &token_id) {
        None => {
            return Err(MPApiError::InvalidListing);
        },
        Some(l) => {
            if !same_principal(&l.seller, &caller) {
                return Err(MPApiError::Unauthorized);
            }
            match l.status {
                ListingStatus::Created => {},
                _ => {
                    return Err(MPApiError::InvalidListingStatus);
                },
            }
        },
    }
    let _ = mp.remove_listing(&nft_canister_id, &token_id);
    Ok(())
}

} // verus!

//! The offer manager: making, cancelling and denying a bid on an item.

use vstd::prelude::*;
use candid::{Nat, Principal};
use crate::market::{offer_with_price, Marketplace};
use crate::number::{nat_lt, nat_value};
use crate::principal::same_principal;
use crate::registry::Collections;
use crate::types::{Collection, MPApiError, MPApiResult, Offer, OfferStatus};

verus! {

/// The error is `Other` with the given text.
pub open spec fn is_other(e: MPApiError, text: Seq<char>) -> bool {
    e is Other && e->Other_0@ == text
}

/// A bid can be made: the collection is registered, the item's owner is
/// known, and the allowance and the balance that the currency service
/// reports for the buyer both cover the price.
pub open spec fn offer_admitted(
    collections: Map<Principal, Collection>,
    nft_canister_id: Principal,
    price: nat,
    token_owner: Option<Principal>,
    allowance: Option<Nat>,
    balance: Option<Nat>,
) -> bool {
    &&& collections.contains_key(nft_canister_id)
    &&& token_owner is Some
    &&& allowance is Some
    &&& nat_value(allowance->0) >= price
    &&& balance is Some
    &&& nat_value(balance->0) >= price
}

/// The error that a bid is refused with: the first of the checks that fails.
pub open spec fn offer_refused_with(
    e: MPApiError,
    collections: Map<Principal, Collection>,
    nft_canister_id: Principal,
    price: nat,
    token_owner: Option<Principal>,
    allowance: Option<Nat>,
    balance: Option<Nat>,
) -> bool {
    if !collections.contains_key(nft_canister_id) {
        e == MPApiError::NonExistentCollection
    } else if token_owner is None {
        is_other(e, "error calling owner_of"@)
    } else if allowance is None {
        is_other(e, "Error calling allowance"@)
    } else if nat_value(allowance->0) < price {
        e == MPApiError::InsufficientFungibleAllowance
    } else if balance is None {
        is_other(e, "Error calling balanceOf"@)
    } else {
        nat_value(balance->0) < price && e == MPApiError::InsufficientFungibleBalance
    }
}

/// The offers after a buyer bid `price` on an item: a first bid is held as
/// `Created`, a further bid replaces the price of the one held.
pub open spec fn offers_after_bid(
    offers: Map<(Principal, nat, Principal), Offer>,
    nft_canister_id: Principal,
    token_id: Nat,
    price: Nat,
    buyer: Principal,
    token_owner: Principal,
    now: u64,
) -> Map<(Principal, nat, Principal), Offer> {
    let k = (nft_canister_id, nat_value(token_id), buyer);
    if offers.contains_key(k) {
        offers.insert(k, offer_with_price(offers[k], price))
    } else {
        offers.insert(
            k,
            Offer {
                nft_canister_id,
                token_id,
                price,
                buyer,
                token_owner,
                status: OfferStatus::Created,
                created: now,
            },
        )
    }
}

/// Why a buyer's bid cannot be cancelled, if it cannot.
pub open spec fn cancel_offer_refusal(
    collections: Map<Principal, Collection>,
    offers: Map<(Principal, nat, Principal), Offer>,
    caller: Principal,
    nft_canister_id: Principal,
    token: nat,
) -> Option<MPApiError> {
    if !collections.contains_key(nft_canister_id) {
        Some(MPApiError::NonExistentCollection)
    } else if !offers.contains_key((nft_canister_id, token, caller)) {
        Some(MPApiError::InvalidListing)
    } else if offers[(nft_canister_id, token, caller)].status != OfferStatus::Created {
        Some(MPApiError::InvalidOfferStatus)
    } else {
        None
    }
}

/// A bid can be denied: the collection is registered, the caller owns the
/// item, and the bid is held as `Created`.
pub open spec fn denial_admitted(
    collections: Map<Principal, Collection>,
    offers: Map<(Principal, nat, Principal), Offer>,
    caller: Principal,
    nft_canister_id: Principal,
    token: nat,
    buyer: Principal,
    token_owner: Option<Principal>,
) -> bool {
    &&& collections.contains_key(nft_canister_id)
    &&& token_owner == Some(caller)
    &&& offers.contains_key((nft_canister_id, token, buyer))
    &&& offers[(nft_canister_id, token, buyer)].status == OfferStatus::Created
}

/// The error that a denial is refused with: the first of the checks that
/// fails.
pub open spec fn denial_refused_with(
    e: MPApiError,
    collections: Map<Principal, Collection>,
    offers: Map<(Principal, nat, Principal), Offer>,
    caller: Principal,
    nft_canister_id: Principal,
    token: nat,
    buyer: Principal,
    token_owner: Option<Principal>,
) -> bool {
    if !collections.contains_key(nft_canister_id) {
        e == MPApiError::NonExistentCollection
    } else if token_owner is None {
        is_other(e, "error calling owner_of"@)
    } else if token_owner != Some(caller) {
        e == MPApiError::Unauthorized
    } else if !offers.contains_key((nft_canister_id, token, buyer)) {
        e == MPApiError::InvalidOffer
    } else {
        offers[(nft_canister_id, token, buyer)].status != OfferStatus::Created && e
            == MPApiError::InvalidOfferStatus
    }
}

/// Bids `price` on an item for the caller, given the owner that the item
/// service reports and the allowance and balance that the currency service
/// reports for the caller (`None` where a report could not be had).
pub fn make_offer(
    mp: &mut Marketplace,
    collections: &Collections,
    caller: Principal,
    now: u64,
    nft_canister_id: Principal,
    token_id: Nat,
    price: Nat,
    token_owner: Option<Principal>,
    allowance: Option<Nat>,
    balance: Option<Nat>,
) -> (r: MPApiResult)
    requires
        old(mp).wf(),
        collections.wf(),
    ensures
        final(mp).wf(),
        final(mp).listings() == old(mp).listings(),
        r is Ok <==> offer_admitted(
            collections@,
            nft_canister_id,
            nat_value(price),
            token_owner,
            allowance,
            balance,
        ),
        r is Err ==> offer_refused_with(
            r->Err_0,
            collections@,
            nft_canister_id,
            nat_value(price),
            token_owner,
            allowance,
            balance,
        ) && final(mp).offers() == old(mp).offers() && final(mp).offer_index() == old(mp).offer_index(),
        r is Ok ==> final(mp).offers() == offers_after_bid(
            old(mp).offers(),
            nft_canister_id,
            token_id,
            price,
            caller,
            token_owner->0,
            now,
        ) && final(mp).offer_index() == old(mp).offer_index().insert(
            (caller, nft_canister_id, nat_value(token_id)),
        ),
{
    if collections.get(&nft_canister_id).is_none() {
        return Err(MPApiError::NonExistentCollection);
    }
    let owner = match token_owner {
        Some(p) => p,
        None => {
            return Err(MPApiError::Other("error calling owner_of".to_string()));
        },
    };
    match &allowance {
        None => {
            return Err(MPApiError::Other("Error calling allowance".to_string()));
        },
        Some(a) => {
            if nat_lt(a, &price) {
                return Err(MPApiError::InsufficientFungibleAllowance);
            }
        },
    }
    match &balance {
        None => {
            return Err(MPApiError::Other("Error calling balanceOf".to_string()));
        },
        Some(b) => {
            if nat_lt(b, &price) {
                return Err(MPApiError::InsufficientFungibleBalance);
            }
        },
    }
    proof {
        mp.lemma_offers_keyed();
    }
    match mp.remove_offer(&nft_canister_id, &token_id, &caller) {
        Some(held) => {
            let mut o = held;
            o.price = price;
            mp.put_offer(o);
            assert(mp.offers() =~= offers_after_bid(
                old(mp).offers(),
                nft_canister_id,
                token_id,
                price,
                caller,
                owner,
                now,
            ));
        },
        None => {
            mp.put_offer(
                Offer::new(
                    nft_canister_id,
                    token_id,
                    price,
                    caller,
                    owner,
                    OfferStatus::Created,
                    now,
                ),
            );
            assert(mp.offers() =~= offers_after_bid(
                old(mp).offers(),
                nft_canister_id,
                token_id,
                price,
                caller,
                owner,
                now,
            ));
        },
    }
    assert(mp.offer_index() =~= old(mp).offer_index().insert(
        (caller, nft_canister_id, nat_value(token_id)),
    ));
    Ok(())
}

/// Withdraws the caller's bid on an item, unless its exchange is under way.
pub fn cancel_offer(
    mp: &mut Marketplace,
    collections: &Collections,
    caller: Principal,
    nft_canister_id: Principal,
    token_id: Nat,
) -> (r: MPApiResult)
    requires
        old(mp).wf(),
        collections.wf(),
    ensures
        final(mp).wf(),
        final(mp).listings() == old(mp).listings(),
        r is Err <==> cancel_offer_refusal(
            collections@,
            old(mp).offers(),
            caller,
            nft_canister_id,
            nat_value(token_id),
        ) is Some,
        r is Err ==> Some(r->Err_0) == cancel_offer_refusal(
            collections@,
            old(mp).offers(),
            caller,
            nft_canister_id,
            nat_value(token_id),
        ) && final(mp).offers() == old(mp).offers() && final(mp).offer_index() == old(mp).offer_index(),
        r is Ok ==> final(mp).offers() == old(mp).offers().remove(
            (nft_canister_id, nat_value(token_id), caller),
        ) && final(mp).offer_index() == old(mp).offer_index().remove(
            (caller, nft_canister_id, nat_value(token_id)),
        ),
{
    if collections.get(&nft_canister_id).is_none() {
        return Err(MPApiError::NonExistentCollection);
    }
    match mp.get_offer(&nft_canister_id, &token_id, &caller) {
        None => {
            return Err(MPApiError::InvalidListing);
        },
        Some(o) => {
            match o.status {
                OfferStatus::Created => {},
                _ => {
                    return Err(MPApiError::InvalidOfferStatus);
                },
            }
        },
    }
    let _ = mp.remove_offer(&nft_canister_id, &token_id, &caller);
    Ok(())
}

/// Removes a buyer's bid on an item that the caller owns, given the owner
/// that the item service reports, unless the bid's exchange is under way.
pub fn deny_offer(
    mp: &mut Marketplace,
    collections: &Collections,
    caller: Principal,
    nft_canister_id: Principal,
    token_id: Nat,
    buyer: Principal,
    token_owner: Option<Principal>,
) -> (r: MPApiResult)
    requires
        old(mp).wf(),
        collections.wf(),
    ensures
        final(mp).wf(),
        final(mp).listings() == old(mp).listings(),
        r is Ok <==> denial_admitted(
            collections@,
            old(mp).offers(),
            caller,
            nft_canister_id,
            nat_value(token_id),
            buyer,
            token_owner,
        ),
        r is Err ==> denial_refused_with(
            r->Err_0,
            collections@,
            old(mp).offers(),
            caller,
            nft_canister_id,
            nat_value(token_id),
            buyer,
            token_owner,
        ) && final(mp).offers() == old(mp).offers() && final(mp).offer_index() == old(mp).offer_index(),
        r is Ok ==> final(mp).offers() == old(mp).offers().remove(
            (nft_canister_id, nat_value(token_id), buyer),
        ) && final(mp).offer_index() == old(mp).offer_index().remove(
            (buyer, nft_canister_id, nat_value(token_id)),
        ),
{
    if collections.get(&nft_canister_id).is_none() {
        return Err(MPApiError::NonExistentCollection);
    }
    match token_owner {
        None => {
            return Err(MPApiError::Other("error calling owner_of".to_string()));
        },
        Some(p) => {
            if !same_principal(&p, &caller) {
                return Err(MPApiError::Unauthorized);
            }
        },
    }
    match mp.get_offer(&nft_canister_id, &token_id, &buyer) {
        None => {
            return Err(MPApiError::InvalidOffer);
        },
        Some(o) => {
            match o.status {
                OfferStatus::Created => {},
                _ => {
                    return Err(MPApiError::InvalidOfferStatus);
                },
            }
        },
    }
    let _ = mp.remove_offer(&nft_canister_id, &token_id, &buyer);
    Ok(())
}

} // verus!

//! The settlement engine: the exchange of an item for currency, one step for
//! each answer of an asset service.
//!
//! An exchange starts with [`direct_buy`] or [`accept_offer`], which mark the
//! record as under way before any asset service is asked, and hand out an
//! [`Exchange`]. The caller then asks the item service for the item's
//! custody, pulls the currency from the buyer, moves the item, and pays the
//! seller, and reports each answer to the step of that name.

use vstd::prelude::*;
use candid::{Nat, Principal};
use crate::ledger::{credited, fees_credited, fees_total, sum_fees, Balances};
use crate::listing::{fee_schedule, is_fee_schedule};
use crate::market::{listing_marked, offer_marked, Marketplace};
use crate::number::{nat_sub, nat_value};
use crate::principal::same_principal;
use crate::registry::{volume_raised, Collections};
use crate::types::{
    Collection,
    InitData,
    Listing,
    ListingStatus,
    MPApiError,
    MPApiResult,
    NatResult,
    Offer,
    OfferStatus,
};

verus! {

/// An exchange under way: what is traded, between whom, at what price and
/// under which fee lines.
#[derive(Debug)]
pub struct Exchange {
    pub nft_canister_id: Principal,
    pub token_id: Nat,
    pub buyer: Principal,
    pub seller: Principal,
    pub price: Nat,
    pub fungible_canister_id: Principal,
    pub fee: Vec<(String, Principal, Nat)>,
    pub from_offer: bool,
}

/// The owner and the operator that the item service reports for an item.
#[derive(Debug)]
pub struct Custody {
    pub owner: Option<Principal>,
    pub operator: Option<Principal>,
}

impl Exchange {
    /// The key of the listing that a purchase is about.
    pub open spec fn listing_key(&self) -> (Principal, nat) {
        (self.nft_canister_id, nat_value(self.token_id))
    }

    /// The key of the buyer's bid on the item.
    pub open spec fn offer_key(&self) -> (Principal, nat, Principal) {
        (self.nft_canister_id, nat_value(self.token_id), self.buyer)
    }

    /// The sum of the fees of this exchange.
    pub open spec fn total_fees(&self) -> nat {
        fees_total(nat_value(self.price), self.fee@)
    }

    /// What is left of the price for the seller.
    pub open spec fn seller_share(&self) -> int {
        nat_value(self.price) - self.total_fees()
    }

    /// Whether the fees leave the seller a share that is not negative.
    pub fn fees_fit(&self) -> (r: bool)
        ensures
            r == (self.total_fees() <= nat_value(self.price)),
    {
        crate::ledger::fees_fit(&self.price, &self.fee)
    }
}

/// Why a purchase cannot start, if it cannot: the collection is not
/// registered, the item is not listed, or its sale is already under way.
pub open spec fn buy_refusal(
    collections: Map<Principal, Collection>,
    listings: Map<(Principal, nat), Listing>,
    nft_canister_id: Principal,
    token: nat,
) -> Option<MPApiError> {
    if !collections.contains_key(nft_canister_id) {
        Some(MPApiError::NonExistentCollection)
    } else if !listings.contains_key((nft_canister_id, token)) {
        Some(MPApiError::InvalidListing)
    } else if listings[(nft_canister_id, token)].status != ListingStatus::Created {
        Some(MPApiError::InvalidListingStatus)
    } else {
        None
    }
}

/// Why the acceptance of a bid cannot start, if it cannot: the collection is
/// not registered, there is no such bid, or its exchange is already under
/// way.
pub open spec fn accept_refusal(
    collections: Map<Principal, Collection>,
    offers: Map<(Principal, nat, Principal), Offer>,
    nft_canister_id: Principal,
    token: nat,
    buyer: Principal,
) -> Option<MPApiError> {
    if !collections.contains_key(nft_canister_id) {
        Some(MPApiError::NonExistentCollection)
    } else if !offers.contains_key((nft_canister_id, token, buyer)) {
        Some(MPApiError::InvalidListing)
    } else if offers[(nft_canister_id, token, buyer)].status != OfferStatus::Created {
        Some(MPApiError::InvalidOfferStatus)
    } else {
        None
    }
}

/// The listings after the record of an exchange went back to `Created`.
pub open spec fn listings_released(
    listings: Map<(Principal, nat), Listing>,
    x: Exchange,
) -> Map<(Principal, nat), Listing> {
    if x.from_offer {
        listings
    } else {
        listing_marked(listings, x.listing_key(), ListingStatus::Created)
    }
}

/// The offers after the record of an exchange went back to `Created`.
pub open spec fn offers_released(
    offers: Map<(Principal, nat, Principal), Offer>,
    x: Exchange,
) -> Map<(Principal, nat, Principal), Offer> {
    if x.from_offer {
        offer_marked(offers, x.offer_key(), OfferStatus::Created)
    } else {
        offers
    }
}

/// The listings after the record of an exchange was deleted.
pub open spec fn listings_discarded(
    listings: Map<(Principal, nat), Listing>,
    x: Exchange,
) -> Map<(Principal, nat), Listing> {
    if x.from_offer {
        listings
    } else {
        listings.remove(x.listing_key())
    }
}

/// The offers after the record of an exchange was deleted.
pub open spec fn offers_discarded(
    offers: Map<(Principal, nat, Principal), Offer>,
    x: Exchange,
) -> Map<(Principal, nat, Principal), Offer> {
    if x.from_offer {
        offers.remove(x.offer_key())
    } else {
        offers
    }
}

/// The buyers' index after the record of an exchange was deleted.
pub open spec fn index_discarded(
    index: Set<(Principal, Principal, nat)>,
    x: Exchange,
) -> Set<(Principal, Principal, nat)> {
    if x.from_offer {
        index.remove((x.buyer, x.nft_canister_id, nat_value(x.token_id)))
    } else {
        index
    }
}

/// Why the custody that the item service reports stops an exchange, if it
/// does: the seller does not own the item, or the engine is not its operator.
pub open spec fn custody_refusal(x: Exchange, self_id: Principal, custody: Custody) -> Option<
    MPApiError,
> {
    if custody.owner != Some(x.seller) {
        Some(MPApiError::InsufficientNonFungibleBalance)
    } else if custody.operator != Some(self_id) {
        Some(MPApiError::Unauthorized)
    } else {
        None
    }
}

/// A copy of fee lines.
fn clone_fees(fees: &Vec<(String, Principal, Nat)>) -> (r: Vec<(String, Principal, Nat)>)
    ensures
        r@ == fees@,
{
    let mut r: Vec<(String, Principal, Nat)> = Vec::new();
    let mut i: usize = 0;
    while i < fees.len()
        invariant
            i <= fees@.len(),
            r@ == fees@.take(i as int),
        decreases fees@.len() - i,
    {
        r.push((fees[i].0.clone(), fees[i].1, fees[i].2.clone()));
        assert(r@ =~= fees@.take(i as int + 1));
        i += 1;
    }
    assert(fees@.take(i as int) =~= fees@);
    r
}

/// `format!` with the text forms of principals and numbers: the diagnostic
/// for an item that could not be moved. Nothing is claimed of the text.
#[verifier::external_body]
fn item_failure_memo(flow: &str, user: &Principal, x: &Exchange, diagnostic: &String) -> String {
    format!(
        "{} non fungible failed for user {} for contract {} for token id {}; price {:?}; error: {}",
        flow, user, x.nft_canister_id, x.token_id, x.price, diagnostic,
    )
}

/// `format!` with the text forms of a principal and a number: the diagnostic
/// for a payout that could not be sent. Nothing is claimed of the text.
#[verifier::external_body]
fn payout_failure_memo(x: &Exchange, amount: &Nat) -> String {
    format!("payout of {} failed for user {}", amount, x.seller)
}

/// Starts the purchase of a listed item by `caller`. The listing must stand
/// as `Created`; it is marked `Selling` before anything else happens, so that
/// a second purchase of the same item is refused while this one is under way.
pub fn direct_buy(
    mp: &mut Marketplace,
    collections: &Collections,
    caller: Principal,
    nft_canister_id: Principal,
    token_id: Nat,
) -> (r: Result<Exchange, MPApiError>)
    requires
        old(mp).wf(),
        collections.wf(),
    ensures
        final(mp).wf(),
        final(mp).offers() == old(mp).offers(),
        final(mp).offer_index() == old(mp).offer_index(),
        r is Err <==> buy_refusal(
            collections@,
            old(mp).listings(),
            nft_canister_id,
            nat_value(token_id),
        ) is Some,
        r is Err ==> Some(r->Err_0) == buy_refusal(
            collections@,
            old(mp).listings(),
            nft_canister_id,
            nat_value(token_id),
        ) && final(mp).listings() == old(mp).listings(),
        r is Ok ==> ({
            let k = (nft_canister_id, nat_value(token_id));
            let l = old(mp).listings()[k];
            let x = r->Ok_0;
            &&& final(mp).listings() == listing_marked(
                old(mp).listings(),
                k,
                ListingStatus::Selling,
            )
            &&& x.nft_canister_id == nft_canister_id
            &&& x.token_id == token_id
            &&& x.buyer == caller
            &&& x.seller == l.seller
            &&& x.price == l.price
            &&& x.fungible_canister_id == collections@[nft_canister_id].fungible_canister_id
            &&& x.fee@ == l.fee@
            &&& !x.from_offer
        }),
{
    let currency = match collections.get(&nft_canister_id) {
        Some(c) => c.fungible_canister_id,
        None => {
            return Err(MPApiError::NonExistentCollection);
        },
    };
    let (seller, price, fee) = match mp.get_listing(&nft_canister_id, &token_id) {
        None => {
            return Err(MPApiError::InvalidListing);
        },
        Some(l) => {
            match l.status {
                ListingStatus::Created => {},
                _ => {
                    return Err(MPApiError::InvalidListingStatus);
                },
            }
            (l.seller, l.price.clone(), clone_fees(&l.fee))
        },
    };
    mp.mark_listing(&nft_canister_id, &token_id, ListingStatus::Selling);
    Ok(
        Exchange {
            nft_canister_id,
            token_id,
            buyer: caller,
            seller,
            price,
            fungible_canister_id: currency,
            fee,
            from_offer: false,
        },
    )
}

/// Starts the acceptance, by the seller `caller`, of the bid of `buyer` on an
/// item. The bid must stand as `Created`; it is marked `Bought` before
/// anything else happens, so that a second acceptance of the same bid is
/// refused while this one is under way. The fee lines are those that stand
/// now.
pub fn accept_offer(
    mp: &mut Marketplace,
    collections: &Collections,
    init_data: &InitData,
    caller: Principal,
    nft_canister_id: Principal,
    token_id: Nat,
    buyer: Principal,
) -> (r: Result<Exchange, MPApiError>)
    requires
        old(mp).wf(),
        collections.wf(),
    ensures
        final(mp).wf(),
        final(mp).listings() == old(mp).listings(),
        final(mp).offer_index() == old(mp).offer_index(),
        r is Err <==> accept_refusal(
            collections@,
            old(mp).offers(),
            nft_canister_id,
            nat_value(token_id),
            buyer,
        ) is Some,
        r is Err ==> Some(r->Err_0) == accept_refusal(
            collections@,
            old(mp).offers(),
            nft_canister_id,
            nat_value(token_id),
            buyer,
        ) && final(mp).offers() == old(mp).offers(),
        r is Ok ==> ({
            let k = (nft_canister_id, nat_value(token_id), buyer);
            let o = old(mp).offers()[k];
            let x = r->Ok_0;
            &&& final(mp).offers() == offer_marked(old(mp).offers(), k, OfferStatus::Bought)
            &&& x.nft_canister_id == nft_canister_id
            &&& x.token_id == token_id
            &&& x.buyer == buyer
            &&& x.seller == caller
            &&& x.price == o.price
            &&& x.fungible_canister_id == collections@[nft_canister_id].fungible_canister_id
            &&& is_fee_schedule(x.fee@, *init_data, collections@[nft_canister_id])
            &&& x.from_offer
        }),
{
    let (currency, fee) = match collections.get(&nft_canister_id) {
        Some(c) => (c.fungible_canister_id, fee_schedule(init_data, c)),
        None => {
            return Err(MPApiError::NonExistentCollection);
        },
    };
    let price = match mp.get_offer(&nft_canister_id, &token_id, &buyer) {
        None => {
            return Err(MPApiError::InvalidListing);
        },
        Some(o) => {
            match o.status {
                OfferStatus::Created => {},
                _ => {
                    return Err(MPApiError::InvalidOfferStatus);
                },
            }
            o.price.clone()
        },
    };
    mp.mark_offer(&nft_canister_id, &token_id, &buyer, OfferStatus::Bought);
    Ok(
        Exchange {
            nft_canister_id,
            token_id,
            buyer,
            seller: caller,
            price,
            fungible_canister_id: currency,
            fee,
            from_offer: true,
        },
    )
}

/// Puts the record of an exchange back to `Created`.
fn release(mp: &mut Marketplace, x: &Exchange)
    requires
        old(mp).wf(),
    ensures
        final(mp).wf(),
        final(mp).listings() == listings_released(old(mp).listings(), *x),
        final(mp).offers() == offers_released(old(mp).offers(), *x),
        final(mp).offer_index() == old(mp).offer_index(),
{
    if x.from_offer {
        mp.mark_offer(&x.nft_canister_id, &x.token_id, &x.buyer, OfferStatus::Created);
    } else {
        mp.mark_listing(&x.nft_canister_id, &x.token_id, ListingStatus::Created);
    }
}

/// Deletes the record of an exchange.
fn discard(mp: &mut Marketplace, x: &Exchange)
    requires
        old(mp).wf(),
    ensures
        final(mp).wf(),
        final(mp).listings() == listings_discarded(old(mp).listings(), *x),
        final(mp).offers() == offers_discarded(old(mp).offers(), *x),
        final(mp).offer_index() == index_discarded(old(mp).offer_index(), *x),
{
    if x.from_offer {
        let _ = mp.remove_offer(&x.nft_canister_id, &x.token_id, &x.buyer);
    } else {
        let _ = mp.remove_listing(&x.nft_canister_id, &x.token_id);
    }
}

/// Takes the item service's report of the item's custody. Where the report
/// could not be had, the record goes back to `Created` and the error is
/// handed on. Where the seller does not own the item, or the engine is not
/// its operator, the record is deleted. No asset has moved yet.
pub fn custody_checked(
    mp: &mut Marketplace,
    self_id: Principal,
    x: &Exchange,
    custody: Result<Custody, MPApiError>,
) -> (r: MPApiResult)
    requires
        old(mp).wf(),
    ensures
        final(mp).wf(),
        custody is Err ==> r is Err && r->Err_0 == custody->Err_0 && final(mp).listings()
            == listings_released(old(mp).listings(), *x) && final(mp).offers() == offers_released(
            old(mp).offers(),
            *x,
        ) && final(mp).offer_index() == old(mp).offer_index(),
        custody is Ok ==> (r is Err <==> custody_refusal(*x, self_id, custody->Ok_0) is Some),
        custody is Ok && r is Err ==> Some(r->Err_0) == custody_refusal(
            *x,
            self_id,
            custody->Ok_0,
        ) && final(mp).listings() == listings_discarded(old(mp).listings(), *x) && final(mp).offers() == offers_discarded(old(mp).offers(), *x) && final(mp).offer_index()
            == index_discarded(old(mp).offer_index(), *x),
        r is Ok ==> final(mp).listings() == old(mp).listings() && final(mp).offers() == old(mp).offers() && final(mp).offer_index() == old(mp).offer_index(),
{
    match custody {
        Err(e) => {
            release(mp, x);
            Err(e)
        },
        Ok(c) => {
            let owned = match c.owner {
                Some(p) => same_principal(&p, &x.seller),
                None => false,
            };
            if !owned {
                discard(mp, x);
                return Err(MPApiError::InsufficientNonFungibleBalance);
            }
            let operated = match c.operator {
                Some(p) => same_principal(&p, &self_id),
                None => false,
            };
            if !operated {
                discard(mp, x);
                return Err(MPApiError::Unauthorized);
            }
            Ok(())
        },
    }
}

/// Takes the answer of the currency service to the pull of the price from
/// the buyer. Where the pull failed, the record goes back to `Created`: no
/// asset has moved, and the ledger is not touched.
pub fn currency_pulled(mp: &mut Marketplace, x: &Exchange, pulled: bool) -> (r: MPApiResult)
    requires
        old(mp).wf(),
    ensures
        final(mp).wf(),
        final(mp).offer_index() == old(mp).offer_index(),
        pulled ==> r is Ok && final(mp).listings() == old(mp).listings() && final(mp).offers()
            == old(mp).offers(),
        !pulled ==> r == Err::<(), MPApiError>(MPApiError::TransferFungibleError) && final(mp).listings() == listings_released(old(mp).listings(), *x) && final(mp).offers()
            == offers_released(old(mp).offers(), *x),
{
    if pulled {
        Ok(())
    } else {
        release(mp, x);
        Err(MPApiError::TransferFungibleError)
    }
}

/// Takes the answer of the item service to the move of the item from the
/// seller to the buyer, after the price was pulled.
///
/// Where the move failed (`Err` with the service's diagnostic), the price is
/// credited to the buyer in the ledger and the failure is logged; the record
/// stays marked as under way. Where the item moved, each fee is credited to
/// its recipient and the seller's share, the price less all fees, is
/// returned to be paid out.
pub fn item_transferred(balances: &mut Balances, x: &Exchange, moved: Result<(), String>) -> (r:
    NatResult)
    requires
        old(balances).wf(),
        moved is Ok ==> x.total_fees() <= nat_value(x.price),
    ensures
        final(balances).wf(),
        r is Ok <==> moved is Ok,
        r is Ok ==> nat_value(r->Ok_0) + x.total_fees() == nat_value(x.price),
        r is Ok ==> final(balances)@ == fees_credited(
            old(balances)@,
            x.fungible_canister_id,
            nat_value(x.price),
            x.fee@,
        ),
        r is Ok ==> final(balances).log() == old(balances).log(),
        r is Err ==> r->Err_0 == MPApiError::TransferNonFungibleError,
        r is Err ==> final(balances)@ == credited(
            old(balances)@,
            x.fungible_canister_id,
            x.buyer,
            nat_value(x.price),
        ),
        r is Err ==> final(balances).log().len() == old(balances).log().len() + 1,
        r is Err ==> final(balances).log().drop_last() == old(balances).log(),
        r is Err ==> final(balances).log().last().from == (if x.from_offer {
            x.seller
        } else {
            x.buyer
        }),
        r is Err ==> final(balances).log().last().to == (if x.from_offer {
            x.buyer
        } else {
            x.seller
        }),
{
    match moved {
        Err(diagnostic) => {
            balances.credit(x.fungible_canister_id, x.buyer, &x.price);
            if x.from_offer {
                let memo = item_failure_memo("accept offer", &x.seller, x, &diagnostic);
                balances.log_failure(x.seller, x.buyer, memo);
            } else {
                let memo = item_failure_memo("direct buy", &x.buyer, x, &diagnostic);
                balances.log_failure(x.buyer, x.seller, memo);
            }
            assert(balances.log().drop_last() =~= old(balances).log());
            Err(MPApiError::TransferNonFungibleError)
        },
        Ok(()) => {
            let total = balances.credit_fees(x.fungible_canister_id, &x.price, &x.fee);
            Ok(nat_sub(&x.price, &total))
        },
    }
}

/// Takes the answer of the currency service to the payout of the seller's
/// share, and completes the exchange.
///
/// Where the payout failed, the share is credited to the seller in the
/// ledger and the failure is logged, from the engine to the seller. Either
/// way the item's listing and the buyer's bid on it are removed, and the
/// price is added to the collection's traded volume.
pub fn seller_paid(
    mp: &mut Marketplace,
    collections: &mut Collections,
    balances: &mut Balances,
    self_id: Principal,
    x: &Exchange,
    paid: bool,
) -> (r: MPApiResult)
    requires
        old(mp).wf(),
        old(collections).wf(),
        old(balances).wf(),
        x.total_fees() <= nat_value(x.price),
    ensures
        r is Ok,
        final(mp).wf(),
        final(collections).wf(),
        final(balances).wf(),
        final(mp).listings() == old(mp).listings().remove(x.listing_key()),
        final(mp).offers() == old(mp).offers().remove(x.offer_key()),
        final(mp).offer_index() == old(mp).offer_index().remove(
            (x.buyer, x.nft_canister_id, nat_value(x.token_id)),
        ),
        paid ==> final(balances)@ == old(balances)@ && final(balances).log() == old(balances).log(),
        !paid ==> final(balances)@ == credited(
            old(balances)@,
            x.fungible_canister_id,
            x.seller,
            x.seller_share() as nat,
        ),
        !paid ==> final(balances).log().len() == old(balances).log().len() + 1,
        !paid ==> final(balances).log().drop_last() == old(balances).log(),
        !paid ==> final(balances).log().last().from == self_id,
        !paid ==> final(balances).log().last().to == x.seller,
        !old(collections)@.contains_key(x.nft_canister_id) ==> final(collections)@ == old(collections)@,
        old(collections)@.contains_key(x.nft_canister_id) ==> final(collections)@ == old(collections)@.insert(x.nft_canister_id, final(collections)@[x.nft_canister_id]) && final(collections)@[x.nft_canister_id] == volume_raised(
            old(collections)@[x.nft_canister_id],
            final(collections)@[x.nft_canister_id].fungible_volume,
        ) && nat_value(final(collections)@[x.nft_canister_id].fungible_volume) == nat_value(
            old(collections)@[x.nft_canister_id].fungible_volume,
        ) + nat_value(x.price),
{
    if !paid {
        let total = sum_fees(&x.price, &x.fee);
        let share = nat_sub(&x.price, &total);
        balances.credit(x.fungible_canister_id, x.seller, &share);
        let memo = payout_failure_memo(x, &share);
        balances.log_failure(self_id, x.seller, memo);
        assert(balances.log().drop_last() =~= old(balances).log());
    }
    let _ = mp.remove_listing(&x.nft_canister_id, &x.token_id);
    let _ = mp.remove_offer(&x.nft_canister_id, &x.token_id, &x.buyer);
    collections.inc_volume(&x.nft_canister_id, &x.price);
    Ok(())
}

} // verus!

//! What holds of the engine whatever the asset services answer.

use vstd::prelude::*;
use candid::Principal;
use crate::ledger::{
    credited,
    fee_amount,
    fees_credited,
    fees_for,
    held,
    lemma_fees_for_within_total,
    lemma_fees_reach_recipients,
    lemma_fees_within_price,
    rates_total,
    withdrawal_sent,
    withdrawal_started,
};
use crate::listing::{cancel_listing_refusal, listing_refusal};
use crate::market::{listing_marked, offer_marked};
use crate::number::nat_value;
use crate::offer::cancel_offer_refusal;
use crate::settlement::{
    accept_refusal,
    buy_refusal,
    listings_released,
    offers_released,
    Exchange,
};
use crate::types::{Collection, Listing, ListingStatus, MPApiError, Offer, OfferStatus};

verus! {

/// A listing is bought at most once: where a purchase can start, a second
/// purchase of the same item is refused with `InvalidListingStatus` while the
/// first is under way, and with `InvalidListing` once the first has removed
/// the listing.
pub proof fn law_listing_bought_once(
    collections: Map<Principal, Collection>,
    listings: Map<(Principal, nat), Listing>,
    nft_canister_id: Principal,
    token: nat,
)
    requires
        buy_refusal(collections, listings, nft_canister_id, token) is None,
    ensures
        buy_refusal(
            collections,
            listing_marked(listings, (nft_canister_id, token), ListingStatus::Selling),
            nft_canister_id,
            token,
        ) == Some(MPApiError::InvalidListingStatus),
        buy_refusal(
            collections,
            listings.remove((nft_canister_id, token)),
            nft_canister_id,
            token,
        ) == Some(MPApiError::InvalidListing),
{
}

/// A bid is accepted at most once: where an acceptance can start, a second
/// acceptance of the same bid is refused with `InvalidOfferStatus` while the
/// first is under way, and with `InvalidListing` once the first has removed
/// the bid.
pub proof fn law_offer_accepted_once(
    collections: Map<Principal, Collection>,
    offers: Map<(Principal, nat, Principal), Offer>,
    nft_canister_id: Principal,
    token: nat,
    buyer: Principal,
)
    requires
        accept_refusal(collections, offers, nft_canister_id, token, buyer) is None,
    ensures
        accept_refusal(
            collections,
            offer_marked(offers, (nft_canister_id, token, buyer), OfferStatus::Bought),
            nft_canister_id,
            token,
            buyer,
        ) == Some(MPApiError::InvalidOfferStatus),
        accept_refusal(
            collections,
            offers.remove((nft_canister_id, token, buyer)),
            nft_canister_id,
            token,
            buyer,
        ) == Some(MPApiError::InvalidListing),
{
}

/// While an exchange is under way its record cannot be pulled away: the
/// listing can neither be cancelled nor replaced by its seller, and the bid
/// cannot be cancelled by its buyer.
pub proof fn law_record_locked(
    collections: Map<Principal, Collection>,
    listings: Map<(Principal, nat), Listing>,
    offers: Map<(Principal, nat, Principal), Offer>,
    caller: Principal,
    self_id: Principal,
    nft_canister_id: Principal,
    token: nat,
    token_owner: Option<Principal>,
    token_operator: Option<Principal>,
)
    requires
        collections.contains_key(nft_canister_id),
    ensures
        listings.contains_key((nft_canister_id, token)) ==> cancel_listing_refusal(
            collections,
            listing_marked(listings, (nft_canister_id, token), ListingStatus::Selling),
            caller,
            nft_canister_id,
            token,
        ) is Some && listing_refusal(
            collections,
            listing_marked(listings, (nft_canister_id, token), ListingStatus::Selling),
            caller,
            self_id,
            nft_canister_id,
            token,
            token_owner,
            token_operator,
        ) is Some,
        offers.contains_key((nft_canister_id, token, caller)) ==> cancel_offer_refusal(
            collections,
            offer_marked(offers, (nft_canister_id, token, caller), OfferStatus::Bought),
            caller,
            nft_canister_id,
            token,
        ) == Some(MPApiError::InvalidOfferStatus),
{
}

/// The seller's share and the fees make up the price exactly, and no fee is
/// more than its rate of the price, whenever the rates sum to no more than
/// ten thousand parts in ten thousand.
pub proof fn law_conservation(x: Exchange)
    requires
        rates_total(x.fee@) <= 10000,
    ensures
        0 <= x.seller_share(),
        x.seller_share() + x.total_fees() == nat_value(x.price),
        forall|i: int|
            0 <= i < x.fee@.len() ==> fee_amount(
                nat_value(x.price),
                #[trigger] nat_value(x.fee@[i].2),
            ) * 10000 <= nat_value(x.price) * nat_value(x.fee@[i].2),
{
    lemma_fees_within_price(nat_value(x.price), x.fee@);
    assert forall|i: int| 0 <= i < x.fee@.len() implies fee_amount(
        nat_value(x.price),
        #[trigger] nat_value(x.fee@[i].2),
    ) * 10000 <= nat_value(x.price) * nat_value(x.fee@[i].2) by {
        let p = nat_value(x.price);
        let r = nat_value(x.fee@[i].2);
        assert((p * r / 10000) * 10000 <= p * r) by (nonlinear_arith);
    }
}

/// The price of an exchange, as a number.
pub open spec fn nat_value_of_price(x: Exchange) -> nat {
    nat_value(x.price)
}

/// The fees reach their recipients and nobody else: after the fees of an
/// exchange were credited, each holder has in the exchange's currency what
/// the holder had before and the fees of the lines that name the holder, no
/// holder more than the sum of all fees, and nothing has changed in any other
/// currency.
pub proof fn law_fees_distributed(
    m: Map<(Principal, Principal), nat>,
    x: Exchange,
    other_currency: Principal,
    holder: Principal,
)
    ensures
        held(
            fees_credited(m, x.fungible_canister_id, nat_value(x.price), x.fee@),
            x.fungible_canister_id,
            holder,
        ) == held(m, x.fungible_canister_id, holder) + fees_for(nat_value(x.price), x.fee@, holder),
        fees_for(nat_value(x.price), x.fee@, holder) <= x.total_fees(),
        other_currency != x.fungible_canister_id ==> held(
            fees_credited(m, x.fungible_canister_id, nat_value(x.price), x.fee@),
            other_currency,
            holder,
        ) == held(m, other_currency, holder),
{
    lemma_fees_reach_recipients(
        m,
        x.fungible_canister_id,
        nat_value(x.price),
        x.fee@,
        other_currency,
        holder,
    );
    lemma_fees_for_within_total(nat_value(x.price), x.fee@, holder);
}

/// A pull of the currency that fails leaves no trace: the record that the
/// start of the exchange marked as under way stands as `Created` again,
/// exactly as it stood before.
pub proof fn law_failed_pull_restores(
    listings: Map<(Principal, nat), Listing>,
    offers: Map<(Principal, nat, Principal), Offer>,
    x: Exchange,
)
    requires
        !x.from_offer ==> listings.contains_key(x.listing_key()) && listings[x.listing_key()].status
            == ListingStatus::Created,
        x.from_offer ==> offers.contains_key(x.offer_key()) && offers[x.offer_key()].status
            == OfferStatus::Created,
    ensures
        !x.from_offer ==> listings_released(
            listing_marked(listings, x.listing_key(), ListingStatus::Selling),
            x,
        ) == listings,
        x.from_offer ==> offers_released(
            offer_marked(offers, x.offer_key(), OfferStatus::Bought),
            x,
        ) == offers,
{
    if x.from_offer {
        assert(offers_released(offer_marked(offers, x.offer_key(), OfferStatus::Bought), x)
            =~= offers);
    } else {
        assert(listings_released(
            listing_marked(listings, x.listing_key(), ListingStatus::Selling),
            x,
        ) =~= listings);
    }
}

/// A credit raises what the holder has by exactly the amount, and leaves
/// every other holder's amount as it was.
pub proof fn law_credit_exact(
    m: Map<(Principal, Principal), nat>,
    currency: Principal,
    holder: Principal,
    amount: nat,
    other_currency: Principal,
    other_holder: Principal,
)
    ensures
        held(credited(m, currency, holder, amount), currency, holder) == held(m, currency, holder)
            + amount,
        (other_currency, other_holder) != (currency, holder) ==> held(
            credited(m, currency, holder, amount),
            other_currency,
            other_holder,
        ) == held(m, other_currency, other_holder),
{
}

/// After a withdrawal that was sent, with no credit in between, nothing is
/// left to withdraw: a second withdrawal finds a balance of zero. A
/// withdrawal that could not be sent puts the amount back.
pub proof fn law_withdraw_once(
    m: Map<(Principal, Principal), nat>,
    currency: Principal,
    holder: Principal,
)
    requires
        held(m, currency, holder) > 0,
    ensures
        held(withdrawal_started(m, currency, holder), currency, holder) == 0,
        held(
            withdrawal_sent(withdrawal_started(m, currency, holder), currency, holder),
            currency,
            holder,
        ) == 0,
        !withdrawal_sent(
            withdrawal_started(m, currency, holder),
            currency,
            holder,
        ).contains_key((currency, holder)),
        credited(withdrawal_started(m, currency, holder), currency, holder, held(m, currency, holder))
            == m,
{
    assert(credited(
        withdrawal_started(m, currency, holder),
        currency,
        holder,
        held(m, currency, holder),
    ) =~= m);
}

} // verus!

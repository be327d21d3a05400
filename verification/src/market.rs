//! The open listings and offers, and the index from each buyer to the items
//! that the buyer has bid on.

use vstd::prelude::*;
use candid::{Nat, Principal};
use crate::number::{nat_eq, nat_lt, nat_value};
use crate::principal::same_principal;
use crate::table::{as_map, lemma_lookup, lemma_missing, lemma_push, lemma_remove, lemma_update, unique_keys};
use crate::types::{Listing, ListingStatus, Offer, OfferStatus};

verus! {

/// The key of a kept listing: its collection and the number of its item.
pub open spec fn listing_key() -> spec_fn((Principal, Nat, Listing)) -> (Principal, nat) {
    |e: (Principal, Nat, Listing)| (e.0, nat_value(e.1))
}

/// The listing of a kept entry.
pub open spec fn listing_record() -> spec_fn((Principal, Nat, Listing)) -> Listing {
    |e: (Principal, Nat, Listing)| e.2
}

/// The key of an offer: its collection, the number of its item, its buyer.
pub open spec fn offer_key() -> spec_fn(Offer) -> (Principal, nat, Principal) {
    |o: Offer| (o.nft_canister_id, nat_value(o.token_id), o.buyer)
}

/// The key of an index entry: buyer, collection, the number of the item.
pub open spec fn index_key() -> spec_fn((Principal, Principal, Nat)) -> (Principal, Principal, nat) {
    |e: (Principal, Principal, Nat)| (e.0, e.1, nat_value(e.2))
}

/// The listing with another status.
pub open spec fn listing_with_status(l: Listing, status: ListingStatus) -> Listing {
    Listing { price: l.price, seller: l.seller, status, created: l.created, fee: l.fee }
}

/// The offer with another status.
pub open spec fn offer_with_status(o: Offer, status: OfferStatus) -> Offer {
    Offer {
        nft_canister_id: o.nft_canister_id,
        token_id: o.token_id,
        price: o.price,
        buyer: o.buyer,
        token_owner: o.token_owner,
        status,
        created: o.created,
    }
}

/// The offer with another price.
pub open spec fn offer_with_price(o: Offer, price: Nat) -> Offer {
    Offer {
        nft_canister_id: o.nft_canister_id,
        token_id: o.token_id,
        price,
        buyer: o.buyer,
        token_owner: o.token_owner,
        status: o.status,
        created: o.created,
    }
}

/// The listings with the status of one of them replaced, if it is there.
pub open spec fn listing_marked(
    listings: Map<(Principal, nat), Listing>,
    k: (Principal, nat),
    status: ListingStatus,
) -> Map<(Principal, nat), Listing> {
    if listings.contains_key(k) {
        listings.insert(k, listing_with_status(listings[k], status))
    } else {
        listings
    }
}

/// The offers with the status of one of them replaced, if it is there.
pub open spec fn offer_marked(
    offers: Map<(Principal, nat, Principal), Offer>,
    k: (Principal, nat, Principal),
    status: OfferStatus,
) -> Map<(Principal, nat, Principal), Offer> {
    if offers.contains_key(k) {
        offers.insert(k, offer_with_status(offers[k], status))
    } else {
        offers
    }
}

/// The bids on one item of a collection.
pub open spec fn bid_on(nft_canister_id: Principal, token: nat) -> spec_fn(Offer) -> bool {
    |o: Offer| o.nft_canister_id == nft_canister_id && nat_value(o.token_id) == token
}

/// The index entries of one buyer in one collection.
pub open spec fn indexed_for(buyer: Principal, nft_canister_id: Principal) -> spec_fn(
    (Principal, Principal, nat),
) -> bool {
    |k: (Principal, Principal, nat)| k.0 == buyer && k.1 == nft_canister_id
}

/// The offers that index entries (buyer, collection, item) name, in the
/// order of the entries.
pub open spec fn offers_named(
    offers: Map<(Principal, nat, Principal), Offer>,
    entries: Seq<(Principal, Principal, nat)>,
) -> Seq<Offer> {
    Seq::new(entries.len(), |j: int| offers[(entries[j].1, entries[j].2, entries[j].0)])
}

/// Some item of the collection is listed.
pub open spec fn has_listings(
    listings: Map<(Principal, nat), Listing>,
    nft_canister_id: Principal,
) -> bool {
    exists|t: nat| #[trigger] listings.contains_key((nft_canister_id, t))
}

/// `p` is the lowest price at which an item of the collection is listed.
pub open spec fn is_floor(
    listings: Map<(Principal, nat), Listing>,
    nft_canister_id: Principal,
    p: nat,
) -> bool {
    &&& exists|t: nat| #[trigger]
        listings.contains_key((nft_canister_id, t)) && nat_value(
            listings[(nft_canister_id, t)].price,
        ) == p
    &&& forall|t: nat| #[trigger]
        listings.contains_key((nft_canister_id, t)) ==> p <= nat_value(
            listings[(nft_canister_id, t)].price,
        )
}

/// Listings by (collection, item), offers by (collection, item, buyer), and
/// the buyers' index of (buyer, collection, item).
pub struct Marketplace {
    pub(crate) listings: Vec<(Principal, Nat, Listing)>,
    pub(crate) offers: Vec<Offer>,
    pub(crate) user_offers: Vec<(Principal, Principal, Nat)>,
}

impl Default for Marketplace {
    /// A marketplace with no listing and no offer.
    fn default() -> (r: Self)
        ensures
            r.wf(),
            r.listings() == Map::<(Principal, nat), Listing>::empty(),
            r.offers() == Map::<(Principal, nat, Principal), Offer>::empty(),
            r.offer_index() == Set::<(Principal, Principal, nat)>::empty(),
    {
        Marketplace::new()
    }
}

impl Marketplace {
    /// The listing of each (collection, item) that has one.
    pub closed spec fn listings(&self) -> Map<(Principal, nat), Listing> {
        as_map(self.listings@, listing_key()).map_values(listing_record())
    }

    /// The offer of each (collection, item, buyer) that has one.
    pub closed spec fn offers(&self) -> Map<(Principal, nat, Principal), Offer> {
        as_map(self.offers@, offer_key())
    }

    /// The (buyer, collection, item) triples of the buyers' index.
    pub closed spec fn offer_index(&self) -> Set<(Principal, Principal, nat)> {
        as_map(self.user_offers@, index_key()).dom()
    }

    /// No key occurs twice, and the index names exactly the offers held.
    pub closed spec fn wf(&self) -> bool {
        &&& unique_keys(self.listings@, listing_key())
        &&& unique_keys(self.offers@, offer_key())
        &&& unique_keys(self.user_offers@, index_key())
        &&& forall|c: Principal, t: nat, b: Principal|
            #![trigger self.offers().contains_key((c, t, b))]
            #![trigger self.offer_index().contains((b, c, t))]
            self.offers().contains_key((c, t, b)) <==> self.offer_index().contains((b, c, t))
    }

    /// Every offer is held under its own collection, item and buyer, and the
    /// index names exactly the offers held.
    pub proof fn lemma_offers_keyed(&self)
        requires
            self.wf(),
        ensures
            forall|k: (Principal, nat, Principal)| #[trigger]
                self.offers().contains_key(k) ==> offer_key()(self.offers()[k]) == k,
            forall|c: Principal, t: nat, b: Principal|
                #![trigger self.offers().contains_key((c, t, b))]
                #![trigger self.offer_index().contains((b, c, t))]
                self.offers().contains_key((c, t, b)) <==> self.offer_index().contains((b, c, t)),
    {
        assert forall|k: (Principal, nat, Principal)| #[trigger]
            self.offers().contains_key(k) implies offer_key()(self.offers()[k]) == k by {
            let i = crate::table::index_of(self.offers@, offer_key(), k);
            lemma_lookup(self.offers@, offer_key(), i);
        }
    }

    /// A marketplace with no listing and no offer, and nothing kept in any order.
    pub fn new() -> (r: Self)
        ensures
            r.wf(),
            r.listings() == Map::<(Principal, nat), Listing>::empty(),
            r.offers() == Map::<(Principal, nat, Principal), Offer>::empty(),
            r.offer_index() == Set::<(Principal, Principal, nat)>::empty(),
            r.listing_list() == Seq::<(Principal, Nat, Listing)>::empty(),
            r.offer_list() == Seq::<Offer>::empty(),
            r.index_list() == Seq::<(Principal, Principal, nat)>::empty(),
    {
        let r = Marketplace { listings: Vec::new(), offers: Vec::new(), user_offers: Vec::new() };
        assert(r.listings() =~= Map::<(Principal, nat), Listing>::empty());
        assert(r.offers() =~= Map::<(Principal, nat, Principal), Offer>::empty());
        assert(r.offer_index() =~= Set::<(Principal, Principal, nat)>::empty());
        assert(r.listing_list() =~= Seq::<(Principal, Nat, Listing)>::empty());
        assert(r.offer_list() =~= Seq::<Offer>::empty());
        assert(r.index_list() =~= Seq::<(Principal, Principal, nat)>::empty());
        r
    }

    /// The place of the listing of an item, if there is one.
    fn find_listing(&self, c: &Principal, t: &Nat) -> (r: Option<usize>)
        requires
            self.wf(),
        ensures
            match r {
                Some(i) => i < self.listings@.len() && listing_key()(self.listings@[i as int]) == (
                    *c,
                    nat_value(*t),
                ) && self.listings().contains_key((*c, nat_value(*t))) && self.listings()[(
                    *c,
                    nat_value(*t),
                )] == self.listings@[i as int].2,
                None => !self.listings().contains_key((*c, nat_value(*t))) && !as_map(
                    self.listings@,
                    listing_key(),
                ).contains_key((*c, nat_value(*t))),
            },
    {
        let mut i: usize = 0;
        while i < self.listings.len()
            invariant
                self.wf(),
                i <= self.listings@.len(),
                forall|j: int|
                    0 <= j < i ==> listing_key()(#[trigger] self.listings@[j]) != (
                        *c,
                        nat_value(*t),
                    ),
            decreases self.listings@.len() - i,
        {
            if same_principal(&self.listings[i].0, c) && nat_eq(&self.listings[i].1, t) {
                proof {
                    lemma_lookup(self.listings@, listing_key(), i as int);
                }
                return Some(i);
            }
            i += 1;
        }
        proof {
            lemma_missing(self.listings@, listing_key(), (*c, nat_value(*t)));
        }
        None
    }

    /// The place of the offer of a buyer on an item, if there is one.
    fn find_offer(&self, c: &Principal, t: &Nat, b: &Principal) -> (r: Option<usize>)
        requires
            self.wf(),
        ensures
            match r {
                Some(i) => i < self.offers@.len() && offer_key()(self.offers@[i as int]) == (
                    *c,
                    nat_value(*t),
                    *b,
                ) && self.offers().contains_key((*c, nat_value(*t), *b)) && self.offers()[(
                    *c,
                    nat_value(*t),
                    *b,
                )] == self.offers@[i as int],
                None => !self.offers().contains_key((*c, nat_value(*t), *b)),
            },
    {
        let mut i: usize = 0;
        while i < self.offers.len()
            invariant
                self.wf(),
                i <= self.offers@.len(),
                forall|j: int|
                    0 <= j < i ==> offer_key()(#[trigger] self.offers@[j]) != (
                        *c,
                        nat_value(*t),
                        *b,
                    ),
            decreases self.offers@.len() - i,
        {
            if same_principal(&self.offers[i].nft_canister_id, c) && nat_eq(
                &self.offers[i].token_id,
                t,
            ) && same_principal(&self.offers[i].buyer, b) {
                proof {
                    lemma_lookup(self.offers@, offer_key(), i as int);
                }
                return Some(i);
            }
            i += 1;
        }
        proof {
            lemma_missing(self.offers@, offer_key(), (*c, nat_value(*t), *b));
        }
        None
    }

    /// The place of an index entry, if it is there.
    fn find_indexed(&self, b: &Principal, c: &Principal, t: &Nat) -> (r: Option<usize>)
        requires
            self.wf(),
        ensures
            match r {
                Some(i) => i < self.user_offers@.len() && index_key()(self.user_offers@[i as int])
                    == (*b, *c, nat_value(*t)) && self.offer_index().contains(
                    (*b, *c, nat_value(*t)),
                ),
                None => !self.offer_index().contains((*b, *c, nat_value(*t))),
            },
    {
        let mut i: usize = 0;
        while i < self.user_offers.len()
            invariant
                self.wf(),
                i <= self.user_offers@.len(),
                forall|j: int|
                    0 <= j < i ==> index_key()(#[trigger] self.user_offers@[j]) != (
                        *b,
                        *c,
                        nat_value(*t),
                    ),
            decreases self.user_offers@.len() - i,
        {
            if same_principal(&self.user_offers[i].0, b) && same_principal(
                &self.user_offers[i].1,
                c,
            ) && nat_eq(&self.user_offers[i].2, t) {
                proof {
                    lemma_lookup(self.user_offers@, index_key(), i as int);
                }
                return Some(i);
            }
            i += 1;
        }
        proof {
            lemma_missing(self.user_offers@, index_key(), (*b, *c, nat_value(*t)));
        }
        None
    }

    /// The listing of an item, if there is one.
    pub fn get_listing(&self, nft_canister_id: &Principal, token_id: &Nat) -> (r: Option<&Listing>)
        requires
            self.wf(),
        ensures
            r is Some <==> self.listings().contains_key((*nft_canister_id, nat_value(*token_id))),
            r is Some ==> *r->0 == self.listings()[(*nft_canister_id, nat_value(*token_id))],
    {
        match self.find_listing(nft_canister_id, token_id) {
            Some(i) => Some(&self.listings[i].2),
            None => None,
        }
    }

    /// The offer of a buyer on an item, if there is one.
    pub fn get_offer(&self, nft_canister_id: &Principal, token_id: &Nat, buyer: &Principal) -> (r:
        Option<&Offer>)
        requires
            self.wf(),
        ensures
            r is Some <==> self.offers().contains_key(
                (*nft_canister_id, nat_value(*token_id), *buyer),
            ),
            r is Some ==> *r->0 == self.offers()[(*nft_canister_id, nat_value(*token_id), *buyer)],
    {
        match self.find_offer(nft_canister_id, token_id, buyer) {
            Some(i) => Some(&self.offers[i]),
            None => None,
        }
    }

    /// The offers in the order in which they are kept.
    pub closed spec fn offer_list(&self) -> Seq<Offer> {
        self.offers@
    }

    /// The listings, each with its collection and item, in the order in
    /// which they are kept.
    pub closed spec fn listing_list(&self) -> Seq<(Principal, Nat, Listing)> {
        self.listings@
    }

    /// Every listing, with its collection and item.
    pub fn listing_entries(&self) -> (r: &Vec<(Principal, Nat, Listing)>)
        ensures
            r@ == self.listing_list(),
    {
        &self.listings
    }

    /// Every offer.
    pub fn offer_entries(&self) -> (r: &Vec<Offer>)
        ensures
            r@ == self.offer_list(),
    {
        &self.offers
    }

    /// The buyers' index in the order in which it is kept.
    pub closed spec fn index_list(&self) -> Seq<(Principal, Principal, nat)> {
        self.user_offers@.map_values(index_key())
    }

    /// The kept order holds each listing and each offer once, under its own
    /// key, and each index entry once.
    pub proof fn lemma_lists(&self)
        requires
            self.wf(),
        ensures
            unique_keys(self.listing_list(), listing_key()),
            as_map(self.listing_list(), listing_key()).map_values(listing_record())
                == self.listings(),
            unique_keys(self.offer_list(), offer_key()),
            as_map(self.offer_list(), offer_key()) == self.offers(),
            self.index_list().no_duplicates(),
            self.index_list().to_set() == self.offer_index(),
    {
        let idx = self.index_list();
        assert forall|i: int, j: int| 0 <= i < idx.len() && 0 <= j < idx.len() && i != j implies idx[i]
            != idx[j] by {
            assert(idx[i] == index_key()(self.user_offers@[i]));
            assert(idx[j] == index_key()(self.user_offers@[j]));
        }
        assert forall|k: (Principal, Principal, nat)| idx.to_set().contains(k)
            <==> self.offer_index().contains(k) by {
            if idx.to_set().contains(k) {
                let i = choose|i: int| 0 <= i < idx.len() && idx[i] == k;
                assert(index_key()(self.user_offers@[i]) == k);
            }
            if self.offer_index().contains(k) {
                let i = crate::table::index_of(self.user_offers@, index_key(), k);
                assert(idx[i] == k);
            }
        }
        assert(idx.to_set() =~= self.offer_index());
    }

    /// The lowest price at which an item of the collection is listed, if any
    /// is.
    pub fn floor_price(&self, nft_canister_id: &Principal) -> (r: Option<Nat>)
        requires
            self.wf(),
        ensures
            r is Some <==> has_listings(self.listings(), *nft_canister_id),
            r is Some ==> is_floor(self.listings(), *nft_canister_id, nat_value(r->0)),
    {
        let mut best: Option<usize> = None;
        let mut i: usize = 0;
        while i < self.listings.len()
            invariant
                self.wf(),
                i <= self.listings@.len(),
                best is None ==> forall|j: int|
                    0 <= j < i ==> (#[trigger] self.listings@[j]).0 != *nft_canister_id,
                best is Some ==> best->0 < i && self.listings@[best->0 as int].0
                    == *nft_canister_id && forall|j: int|
                    0 <= j < i && (#[trigger] self.listings@[j]).0 == *nft_canister_id ==> nat_value(
                        self.listings@[best->0 as int].2.price,
                    ) <= nat_value(self.listings@[j].2.price),
            decreases self.listings@.len() - i,
        {
            if same_principal(&self.listings[i].0, nft_canister_id) {
                match best {
                    None => {
                        best = Some(i);
                    },
                    Some(b) => {
                        if nat_lt(&self.listings[i].2.price, &self.listings[b].2.price) {
                            best = Some(i);
                        }
                    },
                }
            }
            i += 1;
        }
        let ghost m = self.listings();
        let ghost s = self.listings@;
        assert forall|t: nat| #[trigger] m.contains_key((*nft_canister_id, t)) implies best is Some
            && nat_value(s[best->0 as int].2.price) <= nat_value(
            m[(*nft_canister_id, t)].price,
        ) by {
            let j = crate::table::index_of(s, listing_key(), (*nft_canister_id, t));
            lemma_lookup(s, listing_key(), j);
            assert(s[j].0 == *nft_canister_id);
        }
        match best {
            None => None,
            Some(b) => {
                proof {
                    lemma_lookup(s, listing_key(), b as int);
                    assert(m.contains_key((*nft_canister_id, nat_value(s[b as int].1))));
                }
                Some(self.listings[b].2.price.clone())
            },
        }
    }

    /// A copy of an offer.
    fn clone_offer(o: &Offer) -> (r: Offer)
        ensures
            r == *o,
    {
        Offer {
            nft_canister_id: o.nft_canister_id,
            token_id: o.token_id.clone(),
            price: o.price.clone(),
            buyer: o.buyer,
            token_owner: o.token_owner,
            status: o.status,
            created: o.created,
        }
    }

    /// The bids on one item of a collection, in the order in which they are
    /// kept.
    pub fn offers_on(&self, nft_canister_id: &Principal, token_id: &Nat) -> (r: Vec<Offer>)
        requires
            self.wf(),
        ensures
            r@ == self.offer_list().filter(bid_on(*nft_canister_id, nat_value(*token_id))),
    {
        let ghost pred = bid_on(*nft_canister_id, nat_value(*token_id));
        let mut r: Vec<Offer> = Vec::new();
        let mut i: usize = 0;
        proof {
            reveal(Seq::filter);
            assert(self.offers@.take(0).filter(pred) =~= Seq::<Offer>::empty());
        }
        while i < self.offers.len()
            invariant
                i <= self.offers@.len(),
                pred == bid_on(*nft_canister_id, nat_value(*token_id)),
                r@ == self.offers@.take(i as int).filter(pred),
            decreases self.offers@.len() - i,
        {
            proof {
                reveal(Seq::filter);
                let next = self.offers@.take(i as int + 1);
                assert(next.drop_last() =~= self.offers@.take(i as int));
                assert(next.last() == self.offers@[i as int]);
            }
            if same_principal(&self.offers[i].nft_canister_id, nft_canister_id) && nat_eq(
                &self.offers[i].token_id,
                token_id,
            ) {
                r.push(Self::clone_offer(&self.offers[i]));
            }
            i += 1;
        }
        assert(self.offers@.take(i as int) =~= self.offers@);
        r
    }

    /// The bids that a buyer has standing in a collection: the bid on each
    /// item that the buyer's index names there, in the order of the index.
    pub fn get_buyer_offers(&self, nft_canister_id: &Principal, buyer: &Principal) -> (r: Vec<
        Offer,
    >)
        requires
            self.wf(),
        ensures
            r@ == offers_named(
                self.offers(),
                self.index_list().filter(indexed_for(*buyer, *nft_canister_id)),
            ),
    {
        let ghost pred = indexed_for(*buyer, *nft_canister_id);
        let ghost idx = self.index_list();
        let ghost mut picked = Seq::<(Principal, Principal, nat)>::empty();
        let mut r: Vec<Offer> = Vec::new();
        let mut i: usize = 0;
        proof {
            reveal(Seq::filter);
            assert(idx.take(0).filter(pred) =~= picked);
            assert(r@ =~= offers_named(self.offers(), picked));
        }
        while i < self.user_offers.len()
            invariant
                self.wf(),
                i <= self.user_offers@.len(),
                idx == self.index_list(),
                idx.len() == self.user_offers@.len(),
                pred == indexed_for(*buyer, *nft_canister_id),
                picked == idx.take(i as int).filter(pred),
                r@ == offers_named(self.offers(), picked),
            decreases self.user_offers@.len() - i,
        {
            let ghost before = picked;
            proof {
                reveal(Seq::filter);
                let next = idx.take(i as int + 1);
                assert(next.drop_last() =~= idx.take(i as int));
                assert(next.last() == index_key()(self.user_offers@[i as int]));
                picked = next.filter(pred);
            }
            if same_principal(&self.user_offers[i].0, buyer) && same_principal(
                &self.user_offers[i].1,
                nft_canister_id,
            ) {
                match self.find_offer(nft_canister_id, &self.user_offers[i].2, buyer) {
                    Some(at) => {
                        r.push(Self::clone_offer(&self.offers[at]));
                    },
                    None => {
                        proof {
                            lemma_lookup(self.user_offers@, index_key(), i as int);
                            assert(self.offer_index().contains(
                                (*buyer, *nft_canister_id, nat_value(self.user_offers@[i as int].2)),
                            ));
                            assert(false);
                        }
                    },
                }
                proof {
                    assert(picked == before.push(index_key()(self.user_offers@[i as int])));
                    assert(r@ =~= offers_named(self.offers(), picked));
                }
            } else {
                assert(picked == before);
            }
            i += 1;
        }
        assert(idx.take(i as int) =~= idx);
        r
    }

    /// Takes the listing of an item out, if there is one.
    pub fn remove_listing(&mut self, c: &Principal, t: &Nat) -> (r: Option<Listing>)
        requires
            old(self).wf(),
        ensures
            final(self).wf(),
            final(self).listings() == old(self).listings().remove((*c, nat_value(*t))),
            final(self).offers() == old(self).offers(),
            final(self).offer_index() == old(self).offer_index(),
            r is Some <==> old(self).listings().contains_key((*c, nat_value(*t))),
            r is Some ==> r->0 == old(self).listings()[(*c, nat_value(*t))],
    {
        match self.find_listing(c, t) {
            Some(i) => {
                proof {
                    lemma_remove(self.listings@, listing_key(), i as int);
                }
                let e = self.listings.remove(i);
                assert(self.listings() =~= old(self).listings().remove((*c, nat_value(*t))));
                assert(self.offers() == old(self).offers());
                assert(self.offer_index() == old(self).offer_index());
                Some(e.2)
            },
            None => {
                assert(self.listings() =~= old(self).listings().remove((*c, nat_value(*t))));
                None
            },
        }
    }

    /// Puts a listing under (collection, item), in place of any that was
    /// there.
    pub fn put_listing(&mut self, c: Principal, t: Nat, l: Listing)
        requires
            old(self).wf(),
        ensures
            final(self).wf(),
            final(self).listings() == old(self).listings().insert((c, nat_value(t)), l),
            final(self).offers() == old(self).offers(),
            final(self).offer_index() == old(self).offer_index(),
    {
        match self.find_listing(&c, &t) {
            Some(i) => {
                proof {
                    lemma_update(self.listings@, listing_key(), i as int, (c, t, l));
                }
                self.listings.set(i, (c, t, l));
            },
            None => {
                proof {
                    lemma_push(self.listings@, listing_key(), (c, t, l));
                }
                self.listings.push((c, t, l));
            },
        }
        assert(self.listings() =~= old(self).listings().insert((c, nat_value(t)), l));
        assert(self.offers() == old(self).offers());
        assert(self.offer_index() == old(self).offer_index());
    }

    /// Takes the offer of a buyer on an item out, if there is one, and its
    /// entry in the buyer's index with it.
    pub fn remove_offer(&mut self, c: &Principal, t: &Nat, b: &Principal) -> (r: Option<
        Offer,
    >)
        requires
            old(self).wf(),
        ensures
            final(self).wf(),
            final(self).listings() == old(self).listings(),
            final(self).offers() == old(self).offers().remove((*c, nat_value(*t), *b)),
            final(self).offer_index() == old(self).offer_index().remove((*b, *c, nat_value(*t))),
            r is Some <==> old(self).offers().contains_key((*c, nat_value(*t), *b)),
            r is Some ==> r->0 == old(self).offers()[(*c, nat_value(*t), *b)],
    {
        let found = self.find_offer(c, t, b);
        let indexed = self.find_indexed(b, c, t);
        let mut r: Option<Offer> = None;
        if let Some(i) = found {
            proof {
                lemma_remove(self.offers@, offer_key(), i as int);
            }
            r = Some(self.offers.remove(i));
        }
        if let Some(j) = indexed {
            proof {
                lemma_remove(self.user_offers@, index_key(), j as int);
            }
            let _ = self.user_offers.remove(j);
        }
        assert(self.listings() == old(self).listings());
        assert(self.offers() =~= old(self).offers().remove((*c, nat_value(*t), *b)));
        assert(self.offer_index() =~= old(self).offer_index().remove((*b, *c, nat_value(*t))));
        assert forall|c2: Principal, t2: nat, b2: Principal|
            #![trigger self.offers().contains_key((c2, t2, b2))]
            #![trigger self.offer_index().contains((b2, c2, t2))]
            self.offers().contains_key((c2, t2, b2)) <==> self.offer_index().contains(
                (b2, c2, t2),
            ) by {
            assert(old(self).offers().contains_key((c2, t2, b2)) <==> old(self).offer_index().contains((b2, c2, t2)));
        }
        r
    }

    /// Replaces the status of the listing of an item, if there is one.
    pub(crate) fn mark_listing(&mut self, c: &Principal, t: &Nat, status: ListingStatus)
        requires
            old(self).wf(),
        ensures
            final(self).wf(),
            final(self).listings() == listing_marked(
                old(self).listings(),
                (*c, nat_value(*t)),
                status,
            ),
            final(self).offers() == old(self).offers(),
            final(self).offer_index() == old(self).offer_index(),
    {
        match self.remove_listing(c, t) {
            Some(held) => {
                let mut l = held;
                l.status = status;
                self.put_listing(*c, t.clone(), l);
                assert(self.listings() =~= listing_marked(
                    old(self).listings(),
                    (*c, nat_value(*t)),
                    status,
                ));
            },
            None => {
                assert(self.listings() =~= old(self).listings());
            },
        }
    }

    /// Replaces the status of the offer of a buyer on an item, if there is
    /// one.
    pub(crate) fn mark_offer(&mut self, c: &Principal, t: &Nat, b: &Principal, status: OfferStatus)
        requires
            old(self).wf(),
        ensures
            final(self).wf(),
            final(self).listings() == old(self).listings(),
            final(self).offers() == offer_marked(
                old(self).offers(),
                (*c, nat_value(*t), *b),
                status,
            ),
            final(self).offer_index() == old(self).offer_index(),
    {
        proof {
            self.lemma_offers_keyed();
        }
        match self.remove_offer(c, t, b) {
            Some(held) => {
                let mut o = held;
                o.status = status;
                self.put_offer(o);
                assert(self.offers() =~= offer_marked(
                    old(self).offers(),
                    (*c, nat_value(*t), *b),
                    status,
                ));
                assert(self.offer_index() =~= old(self).offer_index());
            },
            None => {
                assert(self.offers() =~= old(self).offers());
                assert(self.offer_index() =~= old(self).offer_index());
            },
        }
    }

    /// Puts an offer under its collection, item and buyer, in place of any
    /// that was there, and names it in the buyer's index.
    pub fn put_offer(&mut self, o: Offer)
        requires
            old(self).wf(),
        ensures
            final(self).wf(),
            final(self).listings() == old(self).listings(),
            final(self).offers() == old(self).offers().insert(offer_key()(o), o),
            final(self).offer_index() == old(self).offer_index().insert(
                (o.buyer, o.nft_canister_id, nat_value(o.token_id)),
            ),
    {
        let ghost k = offer_key()(o);
        let found = self.find_offer(&o.nft_canister_id, &o.token_id, &o.buyer);
        let indexed = self.find_indexed(&o.buyer, &o.nft_canister_id, &o.token_id);
        if indexed.is_none() {
            let e = (o.buyer, o.nft_canister_id, o.token_id.clone());
            proof {
                lemma_push(self.user_offers@, index_key(), e);
            }
            self.user_offers.push(e);
        }
        match found {
            Some(i) => {
                proof {
                    lemma_update(self.offers@, offer_key(), i as int, o);
                }
                self.offers.set(i, o);
            },
            None => {
                proof {
                    lemma_push(self.offers@, offer_key(), o);
                }
                self.offers.push(o);
            },
        }
        assert(self.listings() == old(self).listings());
        assert(self.offers() =~= old(self).offers().insert(k, o));
        assert(self.offer_index() =~= old(self).offer_index().insert((k.2, k.0, k.1)));
        assert forall|c2: Principal, t2: nat, b2: Principal|
            #![trigger self.offers().contains_key((c2, t2, b2))]
            #![trigger self.offer_index().contains((b2, c2, t2))]
            self.offers().contains_key((c2, t2, b2)) <==> self.offer_index().contains(
                (b2, c2, t2),
            ) by {
            assert(old(self).offers().contains_key((c2, t2, b2)) <==> old(self).offer_index().contains((b2, c2, t2)));
        }
    }
}

} // verus!

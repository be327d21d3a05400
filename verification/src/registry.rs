//! The collection registry: the trading configuration of each item service.

use vstd::prelude::*;
use candid::{Nat, Principal};
use crate::number::{nat_add, nat_from_u64, nat_value};
use crate::principal::same_principal;
use crate::table::{as_map, lemma_lookup, lemma_missing, lemma_push, lemma_remove, unique_keys};
use crate::types::{Collection, FungibleStandard, MPApiError, MPApiResult, NFTStandard};

verus! {

/// The key of a collection: the identity of its item service.
pub open spec fn collection_key() -> spec_fn(Collection) -> Principal {
    |c: Collection| c.nft_canister_id
}

/// The collection with another traded volume.
pub open spec fn volume_raised(c: Collection, volume: Nat) -> Collection {
    Collection {
        owner: c.owner,
        collection_fee: c.collection_fee,
        creation_time: c.creation_time,
        collection_name: c.collection_name,
        nft_canister_id: c.nft_canister_id,
        nft_canister_standard: c.nft_canister_standard,
        fungible_canister_id: c.fungible_canister_id,
        fungible_canister_standard: c.fungible_canister_standard,
        fungible_volume: volume,
    }
}

/// The collection is the one that a registration with these settings makes:
/// it holds them all, and no volume has been traded in it.
pub open spec fn is_registration(
    c: Collection,
    owner: Principal,
    collection_fee: Nat,
    creation_time: u64,
    collection_name: String,
    nft_canister_id: Principal,
    nft_canister_standard: NFTStandard,
    fungible_canister_id: Principal,
    fungible_canister_standard: FungibleStandard,
) -> bool {
    &&& c.owner == owner
    &&& c.collection_fee == collection_fee
    &&& c.creation_time == creation_time
    &&& c.collection_name == collection_name
    &&& c.nft_canister_id == nft_canister_id
    &&& c.nft_canister_standard == nft_canister_standard
    &&& c.fungible_canister_id == fungible_canister_id
    &&& c.fungible_canister_standard == fungible_canister_standard
    &&& nat_value(c.fungible_volume) == 0
}

/// The registered collections, by the identity of their item service.
pub struct Collections {
    pub(crate) collections: Vec<Collection>,
}

impl View for Collections {
    type V = Map<Principal, Collection>;

    /// The collection registered for each item service that has one.
    closed spec fn view(&self) -> Map<Principal, Collection> {
        as_map(self.collections@, collection_key())
    }
}

impl Default for Collections {
    /// A registry with no collection.
    fn default() -> (r: Self)
        ensures
            r.wf(),
            r@ == Map::<Principal, Collection>::empty(),
    {
        Collections::new()
    }
}

impl Collections {
    /// No item service is registered twice.
    pub closed spec fn wf(&self) -> bool {
        unique_keys(self.collections@, collection_key())
    }

    /// Every collection is registered under its own item service.
    pub proof fn lemma_keyed(&self)
        requires
            self.wf(),
        ensures
            forall|k: Principal| #[trigger] self@.contains_key(k) ==> self@[k].nft_canister_id == k,
    {
        assert forall|k: Principal| #[trigger] self@.contains_key(k) implies self@[k].nft_canister_id
            == k by {
            let i = crate::table::index_of(self.collections@, collection_key(), k);
            lemma_lookup(self.collections@, collection_key(), i);
        }
    }

    /// A registry with no collection.
    pub fn new() -> (r: Self)
        ensures
            r.wf(),
            r@ == Map::<Principal, Collection>::empty(),
    {
        let r = Collections { collections: Vec::new() };
        assert(r@ =~= Map::<Principal, Collection>::empty());
        r
    }

    /// The place of the collection of an item service, if it is registered.
    fn find(&self, id: &Principal) -> (r: Option<usize>)
        requires
            self.wf(),
        ensures
            match r {
                Some(i) => i < self.collections@.len() && self.collections@[i as int].nft_canister_id
                    == *id && self@.contains_key(*id) && self@[*id] == self.collections@[i as int],
                None => !self@.contains_key(*id),
            },
    {
        let mut i: usize = 0;
        while i < self.collections.len()
            invariant
                self.wf(),
                i <= self.collections@.len(),
                forall|j: int|
                    0 <= j < i ==> collection_key()(#[trigger] self.collections@[j]) != *id,
            decreases self.collections@.len() - i,
        {
            if same_principal(&self.collections[i].nft_canister_id, id) {
                proof {
                    lemma_lookup(self.collections@, collection_key(), i as int);
                }
                return Some(i);
            }
            i += 1;
        }
        proof {
            lemma_missing(self.collections@, collection_key(), *id);
        }
        None
    }

    /// The configuration registered for an item service, if any.
    pub fn get(&self, nft_canister_id: &Principal) -> (r: Option<&Collection>)
        requires
            self.wf(),
        ensures
            r is Some <==> self@.contains_key(*nft_canister_id),
            r is Some ==> *r->0 == self@[*nft_canister_id] && r->0.nft_canister_id
                == *nft_canister_id,
    {
        match self.find(nft_canister_id) {
            Some(i) => Some(&self.collections[i]),
            None => None,
        }
    }

    /// All registered configurations.
    pub fn get_collections(&self) -> (r: &Vec<Collection>)
        requires
            self.wf(),
        ensures
            unique_keys(r@, collection_key()),
            as_map(r@, collection_key()) == self@,
    {
        &self.collections
    }

    /// Takes the collection of an item service out, if it is registered.
    fn take(&mut self, id: &Principal) -> (r: Option<Collection>)
        requires
            old(self).wf(),
        ensures
            final(self).wf(),
            final(self)@ == old(self)@.remove(*id),
            r is Some <==> old(self)@.contains_key(*id),
            r is Some ==> r->0 == old(self)@[*id] && r->0.nft_canister_id == *id,
    {
        match self.find(id) {
            Some(i) => {
                proof {
                    lemma_remove(self.collections@, collection_key(), i as int);
                }
                Some(self.collections.remove(i))
            },
            None => {
                assert(self@ =~= old(self)@.remove(*id));
                None
            },
        }
    }

    /// Registers a collection under its item service, in place of any that
    /// was registered there, with no volume traded yet. Only for a caller who
    /// controls the engine.
    pub fn add_collection(
        &mut self,
        controller: bool,
        owner: Principal,
        collection_fee: Nat,
        creation_time: u64,
        collection_name: String,
        nft_canister_id: Principal,
        nft_canister_standard: NFTStandard,
        fungible_canister_id: Principal,
        fungible_canister_standard: FungibleStandard,
    ) -> (r: MPApiResult)
        requires
            old(self).wf(),
        ensures
            final(self).wf(),
            !controller ==> r == Err::<(), MPApiError>(MPApiError::Unauthorized) && final(self)@
                == old(self)@,
            controller ==> r is Ok && final(self)@ == old(self)@.insert(
                nft_canister_id,
                final(self)@[nft_canister_id],
            ) && is_registration(
                final(self)@[nft_canister_id],
                owner,
                collection_fee,
                creation_time,
                collection_name,
                nft_canister_id,
                nft_canister_standard,
                fungible_canister_id,
                fungible_canister_standard,
            ),
    {
        if !controller {
            return Err(MPApiError::Unauthorized);
        }
        let _ = self.take(&nft_canister_id);
        let c = Collection::new(
            owner,
            collection_fee,
            creation_time,
            collection_name,
            nft_canister_id,
            nft_canister_standard,
            fungible_canister_id,
            fungible_canister_standard,
            nat_from_u64(0),
        );
        proof {
            lemma_push(self.collections@, collection_key(), c);
        }
        self.collections.push(c);
        assert(self@ =~= old(self)@.insert(nft_canister_id, c));
        Ok(())
    }

    /// Adds `amount` to the traded volume of a collection. Nothing changes
    /// where the collection is not registered.
    pub fn inc_volume(&mut self, nft_canister_id: &Principal, amount: &Nat)
        requires
            old(self).wf(),
        ensures
            final(self).wf(),
            !old(self)@.contains_key(*nft_canister_id) ==> final(self)@ == old(self)@,
            old(self)@.contains_key(*nft_canister_id) ==> final(self)@ == old(self)@.insert(
                *nft_canister_id,
                final(self)@[*nft_canister_id],
            ) && final(self)@[*nft_canister_id] == volume_raised(
                old(self)@[*nft_canister_id],
                final(self)@[*nft_canister_id].fungible_volume,
            ) && nat_value(final(self)@[*nft_canister_id].fungible_volume) == nat_value(
                old(self)@[*nft_canister_id].fungible_volume,
            ) + nat_value(*amount),
    {
        match self.take(nft_canister_id) {
            Some(c) => {
                let mut c = c;
                c.fungible_volume = nat_add(&c.fungible_volume, amount);
                proof {
                    lemma_push(self.collections@, collection_key(), c);
                }
                self.collections.push(c);
                assert(self@ =~= old(self)@.insert(*nft_canister_id, c));
            },
            None => {
                assert(self@ =~= old(self)@);
            },
        }
    }
}

} // verus!

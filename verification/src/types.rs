//! The records that the engine keeps and the errors that it returns.

use vstd::prelude::*;
use candid::{Nat, Principal};
use crate::number::{nat_from_u64, nat_value};
use crate::principal::anonymous_principal;

verus! {

/// Why an operation was refused or could not complete.
#[derive(Debug, PartialEq, Eq)]
pub enum MPApiError {
    InvalidOperator,
    InvalidOwner,
    TransferFromFungibleError(String),
    TransferFromNonFungibleError(String),
    TransferFungibleError,
    TransferNonFungibleError,
    InvalidListingStatus,
    InvalidOfferStatus,
    InvalidListing,
    InvalidOffer,
    InsufficientFungibleBalance,
    InsufficientFungibleAllowance,
    InsufficientNonFungibleBalance,
    Unauthorized,
    NoDeposit,
    CAPInsertionError,
    NonExistentCollection,
    Other(String),
}

/// The outcome of an operation that returns nothing.
pub type MPApiResult = Result<(), MPApiError>;

/// The outcome of asking for a principal that may not be there.
pub type PrincipalResult = Result<Option<Principal>, MPApiError>;

/// The outcome of an operation that returns a receipt number.
pub type U64Result = Result<u64, MPApiError>;

/// The outcome of an operation that returns an amount.
pub type NatResult = Result<Nat, MPApiError>;

/// Where an offer stands. `Bought` marks an offer whose exchange is under way.
#[derive(Clone, Copy, Debug, PartialEq, Eq, Structural)]
pub enum OfferStatus {
    Uninitialized,
    Created,
    Cancelled,
    Denied,
    Bought,
}

/// Where a listing stands. `Selling` marks a listing whose exchange is under
/// way.
#[derive(Clone, Copy, Debug, PartialEq, Eq, Structural)]
pub enum ListingStatus {
    Uninitialized,
    Created,
    Selling,
}

/// The engine's own settings: the event service, the protocol owner and the
/// protocol fee rate in parts per ten thousand.
#[derive(Clone)]
pub struct InitData {
    pub cap: Option<Principal>,
    pub owner: Principal,
    pub protocol_fee: Nat,
}

impl InitData {
    /// Settings with these values.
    pub fn new(cap: Option<Principal>, owner: Principal, protocol_fee: Nat) -> (r: Self)
        ensures
            r == (InitData { cap, owner, protocol_fee }),
    {
        InitData { cap, owner, protocol_fee }
    }
}

/// A seller's standing offer to sell one item at a fixed price, with the fee
/// lines (label, recipient, rate) as they stood when it was made.
#[derive(Clone, Debug)]
pub struct Listing {
    pub price: Nat,
    pub seller: Principal,
    pub status: ListingStatus,
    pub created: u64,
    pub fee: Vec<(String, Principal, Nat)>,
}

impl Listing {
    /// A listing with these values.
    pub fn new(
        price: Nat,
        seller: Principal,
        status: ListingStatus,
        created: u64,
        fee: Vec<(String, Principal, Nat)>,
    ) -> (r: Self)
        ensures
            r == (Listing { price, seller, status, created, fee }),
    {
        Listing { price, seller, status, created, fee }
    }
}

impl Default for Listing {
    /// A listing that was never made: no price, no fee lines, not yet
    /// `Created`.
    fn default() -> (r: Self)
        ensures
            nat_value(r.price) == 0,
            r.status == ListingStatus::Uninitialized,
            r.created == 0,
            r.fee@.len() == 0,
    {
        Listing::new(
            nat_from_u64(0),
            anonymous_principal(),
            ListingStatus::Uninitialized,
            0,
            Vec::new(),
        )
    }
}

/// A buyer's standing bid on one item.
#[derive(Clone, Debug, PartialEq)]
pub struct Offer {
    pub nft_canister_id: Principal,
    pub token_id: Nat,
    pub price: Nat,
    pub buyer: Principal,
    pub token_owner: Principal,
    pub status: OfferStatus,
    pub created: u64,
}

impl Offer {
    /// An offer with these values.
    pub fn new(
        nft_canister_id: Principal,
        token_id: Nat,
        price: Nat,
        buyer: Principal,
        token_owner: Principal,
        status: OfferStatus,
        created: u64,
    ) -> (r: Self)
        ensures
            r == (Offer { nft_canister_id, token_id, price, buyer, token_owner, status, created }),
    {
        Offer { nft_canister_id, token_id, price, buyer, token_owner, status, created }
    }
}

/// The interface that a currency service speaks.
#[derive(Clone, Copy, Debug)]
pub enum FungibleStandard {
    DIP20,
}

impl FungibleStandard {
    /// The name of the interface.
    pub fn to_string(&self) -> (r: String)
        ensures
            r@ == "DIP20"@,
    {
        match self {
            FungibleStandard::DIP20 => "DIP20".to_string(),
        }
    }
}

/// The interface that an item service speaks.
#[derive(Clone, Copy, Debug)]
pub enum NFTStandard {
    DIP721v2,
    EXT,
}

impl NFTStandard {
    /// The name of the interface.
    pub fn to_string(&self) -> (r: String)
        ensures
            r@ == (match *self {
                NFTStandard::DIP721v2 => "DIP721v2"@,
                NFTStandard::EXT => "EXT"@,
            }),
    {
        match self {
            NFTStandard::DIP721v2 => "DIP721v2".to_string(),
            NFTStandard::EXT => "EXT".to_string(),
        }
    }
}

/// One tradeable pairing of an item service and a currency service.
#[derive(Clone, Debug)]
pub struct Collection {
    pub owner: Principal,
    pub collection_fee: Nat,
    pub creation_time: u64,
    pub collection_name: String,
    pub nft_canister_id: Principal,
    pub nft_canister_standard: NFTStandard,
    pub fungible_canister_id: Principal,
    pub fungible_canister_standard: FungibleStandard,
    pub fungible_volume: Nat,
}

impl Collection {
    /// A collection with these values.
    pub fn new(
        owner: Principal,
        collection_fee: Nat,
        creation_time: u64,
        collection_name: String,
        nft_canister_id: Principal,
        nft_canister_standard: NFTStandard,
        fungible_canister_id: Principal,
        fungible_canister_standard: FungibleStandard,
        fungible_volume: Nat,
    ) -> (r: Self)
        ensures
            r == (Collection {
                owner,
                collection_fee,
                creation_time,
                collection_name,
                nft_canister_id,
                nft_canister_standard,
                fungible_canister_id,
                fungible_canister_standard,
                fungible_volume,
            }),
    {
        Collection {
            owner,
            collection_fee,
            creation_time,
            collection_name,
            nft_canister_id,
            nft_canister_standard,
            fungible_canister_id,
            fungible_canister_standard,
            fungible_volume,
        }
    }
}

/// The record of an asset move that could not be completed.
#[derive(Clone, Debug)]
pub struct TxLogEntry {
    pub from: Principal,
    pub to: Principal,
    pub memo: String,
}

impl TxLogEntry {
    /// A record with these values.
    pub fn new(from: Principal, to: Principal, memo: String) -> (r: Self)
        ensures
            r == (TxLogEntry { from, to, memo }),
    {
        TxLogEntry { from, to, memo }
    }
}

} // verus!

//! What the answers of the asset services mean to the engine. The calls
//! themselves are made by the caller of this library; each answer comes in as
//! `Err` with a diagnostic where the service could not be reached, and as
//! `Ok` with the service's own reply where it could.

use vstd::prelude::*;
use candid::{Nat, Principal};
use crate::number::{convert_nat_to_u64, nat_from_u64, nat_value};
use crate::settlement::Custody;
use crate::types::{MPApiError, NatResult, PrincipalResult, U64Result};
use crate::vendor_types::{ApiError, NftError, TxError};

verus! {

/// The currency services, whatever interface they speak.
pub struct FungibleProxy {}

/// A currency service of the DIP20 interface.
pub struct Dip20Proxy {}

/// An item service of the DIP721v2 interface.
pub struct DIP721v2Proxy {}

/// An item service of the EXT interface.
pub struct EXTProxy {}

/// `format!` with std's debug form of a string, inside the name of the
/// variant that carries it. Nothing is claimed of the text.
#[verifier::external_body]
fn other_error_text(message: &String) -> String {
    format!("Other({:?})", message)
}

/// The name of an item service's error, as a diagnostic.
pub open spec fn nft_error_name(e: NftError) -> Seq<char> {
    match e {
        NftError::UnauthorizedOwner => "UnauthorizedOwner"@,
        NftError::UnauthorizedOperator => "UnauthorizedOperator"@,
        NftError::OwnerNotFound => "OwnerNotFound"@,
        NftError::OperatorNotFound => "OperatorNotFound"@,
        NftError::TokenNotFound => "TokenNotFound"@,
        NftError::ExistedNFT => "ExistedNFT"@,
        NftError::SelfApprove => "SelfApprove"@,
        NftError::SelfTransfer => "SelfTransfer"@,
        NftError::TxNotFound => "TxNotFound"@,
        NftError::Other(_) => "Other"@,
    }
}

/// The diagnostic for an item service's error: the error's name, followed
/// for `Other` by the message that it carries.
pub fn nft_error_text(e: &NftError) -> (r: String)
    ensures
        !(*e is Other) ==> r@ == nft_error_name(*e),
{
    match e {
        NftError::UnauthorizedOwner => "UnauthorizedOwner".to_string(),
        NftError::UnauthorizedOperator => "UnauthorizedOperator".to_string(),
        NftError::OwnerNotFound => "OwnerNotFound".to_string(),
        NftError::OperatorNotFound => "OperatorNotFound".to_string(),
        NftError::TokenNotFound => "TokenNotFound".to_string(),
        NftError::ExistedNFT => "ExistedNFT".to_string(),
        NftError::SelfApprove => "SelfApprove".to_string(),
        NftError::SelfTransfer => "SelfTransfer".to_string(),
        NftError::TxNotFound => "TxNotFound".to_string(),
        NftError::Other(message) => other_error_text(message),
    }
}

/// The number of a receipt, which must fit 64 bits.
fn receipt_number(n: Nat) -> (r: u64)
    requires
        nat_value(n) <= u64::MAX,
    ensures
        r == nat_value(n),
{
    match convert_nat_to_u64(n) {
        Ok(v) => v,
        Err(_) => 0,
    }
}

/// Whether the number of every receipt in the answer fits 64 bits.
pub open spec fn receipt_fits<E>(call_res: Result<Result<Nat, E>, String>) -> bool {
    call_res is Ok && call_res->Ok_0 is Ok ==> nat_value(call_res->Ok_0->Ok_0) <= u64::MAX
}

impl Dip20Proxy {
    /// The answer to `transferFrom`: the number of the receipt, or
    /// `TransferFungibleError` for any failure.
    pub fn transfer_from(call_res: Result<Result<Nat, TxError>, String>) -> (r: U64Result)
        requires
            receipt_fits(call_res),
        ensures
            r is Ok <==> call_res is Ok && call_res->Ok_0 is Ok,
            r is Ok ==> r->Ok_0 == nat_value(call_res->Ok_0->Ok_0),
            r is Err ==> r->Err_0 == MPApiError::TransferFungibleError,
    {
        match call_res {
            Ok(Ok(n)) => Ok(receipt_number(n)),
            _ => Err(MPApiError::TransferFungibleError),
        }
    }

    /// The answer to `transfer`: the number of the receipt, or
    /// `TransferFungibleError` for any failure.
    pub fn transfer(call_res: Result<Result<Nat, TxError>, String>) -> (r: U64Result)
        requires
            receipt_fits(call_res),
        ensures
            r is Ok <==> call_res is Ok && call_res->Ok_0 is Ok,
            r is Ok ==> r->Ok_0 == nat_value(call_res->Ok_0->Ok_0),
            r is Err ==> r->Err_0 == MPApiError::TransferFungibleError,
    {
        match call_res {
            Ok(Ok(n)) => Ok(receipt_number(n)),
            _ => Err(MPApiError::TransferFungibleError),
        }
    }

    /// The answer to `balanceOf`: the balance, or `TransferFungibleError`
    /// where the service could not be reached.
    pub fn balance_of(call_res: Result<Nat, String>) -> (r: NatResult)
        ensures
            r is Ok <==> call_res is Ok,
            r is Ok ==> r->Ok_0 == call_res->Ok_0,
            r is Err ==> r->Err_0 == MPApiError::TransferFungibleError,
    {
        match call_res {
            Ok(n) => Ok(n),
            Err(_) => Err(MPApiError::TransferFungibleError),
        }
    }

    /// The answer to `allowance`: the allowance, or
    /// `InsufficientFungibleAllowance` where the service could not be reached.
    pub fn allowance(call_res: Result<Nat, String>) -> (r: NatResult)
        ensures
            r is Ok <==> call_res is Ok,
            r is Ok ==> r->Ok_0 == call_res->Ok_0,
            r is Err ==> r->Err_0 == MPApiError::InsufficientFungibleAllowance,
    {
        match call_res {
            Ok(n) => Ok(n),
            Err(_) => Err(MPApiError::InsufficientFungibleAllowance),
        }
    }
}

impl DIP721v2Proxy {
    /// The answer to `tokenMetadata`, reduced to the item's custody: the
    /// custody, or `Other` with a diagnostic.
    pub fn token_metadata(call_res: Result<Result<Custody, NftError>, String>) -> (r: Result<
        Custody,
        MPApiError,
    >)
        ensures
            r is Ok <==> call_res is Ok && call_res->Ok_0 is Ok,
            r is Ok ==> r->Ok_0 == call_res->Ok_0->Ok_0,
            r is Err ==> r->Err_0 is Other,
            call_res is Err ==> r->Err_0->Other_0 == call_res->Err_0,
            call_res is Ok && call_res->Ok_0 is Err && !(call_res->Ok_0->Err_0 is Other)
                ==> r->Err_0->Other_0@ == nft_error_name(call_res->Ok_0->Err_0),
    {
        match call_res {
            Ok(Ok(c)) => Ok(c),
            Ok(Err(e)) => Err(MPApiError::Other(nft_error_text(&e))),
            Err(text) => Err(MPApiError::Other(text)),
        }
    }

    /// The answer to `transferFrom`: the number of the receipt, or
    /// `TransferFromNonFungibleError` with a diagnostic.
    pub fn transfer_from(call_res: Result<Result<Nat, NftError>, String>) -> (r: NatResult)
        ensures
            r is Ok <==> call_res is Ok && call_res->Ok_0 is Ok,
            r is Ok ==> r->Ok_0 == call_res->Ok_0->Ok_0,
            r is Err ==> r->Err_0 is TransferFromNonFungibleError,
            call_res is Err ==> r->Err_0->TransferFromNonFungibleError_0 == call_res->Err_0,
            call_res is Ok && call_res->Ok_0 is Err && !(call_res->Ok_0->Err_0 is Other)
                ==> r->Err_0->TransferFromNonFungibleError_0@ == nft_error_name(
                call_res->Ok_0->Err_0,
            ),
    {
        match call_res {
            Ok(Ok(n)) => Ok(n),
            Ok(Err(e)) => Err(MPApiError::TransferFromNonFungibleError(nft_error_text(&e))),
            Err(text) => Err(MPApiError::TransferFromNonFungibleError(text)),
        }
    }

    /// The answer to `transfer`: the number of the receipt, or
    /// `TransferFungibleError` for any failure.
    pub fn transfer(call_res: Result<Result<Nat, NftError>, String>) -> (r: NatResult)
        requires
            receipt_fits(call_res),
        ensures
            r is Ok <==> call_res is Ok && call_res->Ok_0 is Ok,
            r is Ok ==> nat_value(r->Ok_0) == nat_value(call_res->Ok_0->Ok_0),
            r is Err ==> r->Err_0 == MPApiError::TransferFungibleError,
    {
        match call_res {
            Ok(Ok(n)) => Ok(nat_from_u64(receipt_number(n))),
            _ => Err(MPApiError::TransferFungibleError),
        }
    }

    /// The answer to `ownerOf`: the owner, if the item has one, or `Other`
    /// with a diagnostic.
    pub fn owner_of(call_res: Result<Result<Option<Principal>, NftError>, String>) -> (r:
        PrincipalResult)
        ensures
            r is Ok <==> call_res is Ok && call_res->Ok_0 is Ok,
            r is Ok ==> r->Ok_0 == call_res->Ok_0->Ok_0,
            r is Err ==> r->Err_0 is Other,
            call_res is Err ==> r->Err_0->Other_0 == call_res->Err_0,
            call_res is Ok && call_res->Ok_0 is Err && !(call_res->Ok_0->Err_0 is Other)
                ==> r->Err_0->Other_0@ == nft_error_name(call_res->Ok_0->Err_0),
    {
        match call_res {
            Ok(Ok(p)) => Ok(p),
            Ok(Err(e)) => Err(MPApiError::Other(nft_error_text(&e))),
            Err(text) => Err(MPApiError::Other(text)),
        }
    }

    /// The answer to `operatorOf`: the operator, if the item has one, or
    /// `Other` with a diagnostic.
    pub fn operator_of(call_res: Result<Result<Option<Principal>, NftError>, String>) -> (r:
        PrincipalResult)
        ensures
            r is Ok <==> call_res is Ok && call_res->Ok_0 is Ok,
            r is Ok ==> r->Ok_0 == call_res->Ok_0->Ok_0,
            r is Err ==> r->Err_0 is Other,
            call_res is Err ==> r->Err_0->Other_0 == call_res->Err_0,
            call_res is Ok && call_res->Ok_0 is Err && !(call_res->Ok_0->Err_0 is Other)
                ==> r->Err_0->Other_0@ == nft_error_name(call_res->Ok_0->Err_0),
    {
        match call_res {
            Ok(Ok(p)) => Ok(p),
            Ok(Err(e)) => Err(MPApiError::Other(nft_error_text(&e))),
            Err(text) => Err(MPApiError::Other(text)),
        }
    }
}

impl EXTProxy {
    /// The answer to `transfer` of one item: the number of the receipt, or
    /// `TransferFungibleError` for any failure.
    pub fn transfer_from(call_res: Result<Result<Nat, ApiError>, String>) -> (r: U64Result)
        requires
            receipt_fits(call_res),
        ensures
            r is Ok <==> call_res is Ok && call_res->Ok_0 is Ok,
            r is Ok ==> r->Ok_0 == nat_value(call_res->Ok_0->Ok_0),
            r is Err ==> r->Err_0 == MPApiError::TransferFungibleError,
    {
        match call_res {
            Ok(Ok(n)) => Ok(receipt_number(n)),
            _ => Err(MPApiError::TransferFungibleError),
        }
    }

    /// Nothing is moved: the answer is always a receipt of number zero.
    pub fn transfer() -> (r: NatResult)
        ensures
            r is Ok && nat_value(r->Ok_0) == 0,
    {
        Ok(nat_from_u64(0))
    }
}

} // verus!

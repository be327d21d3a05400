//! Errors that the asset services report.

use vstd::prelude::*;

verus! {

/// What an item service of the older interface reports.
#[derive(Debug)]
pub enum ApiError {
    Unauthorized,
    InvalidTokenId,
    ZeroAddress,
    Other,
}

/// What an item service reports.
#[derive(Debug)]
pub enum NftError {
    UnauthorizedOwner,
    UnauthorizedOperator,
    OwnerNotFound,
    OperatorNotFound,
    TokenNotFound,
    ExistedNFT,
    SelfApprove,
    SelfTransfer,
    TxNotFound,
    Other(String),
}

/// What an item service of the extensible interface reports.
#[derive(Debug, PartialEq)]
pub enum TransferResponseErrors {
    Unauthorized(String),
    InsufficientBalance,
    Rejected,
    InvalidToken(u64),
    CannotNotify(String),
    Other(String),
}

/// What a currency service reports.
#[derive(Debug, PartialEq, Eq)]
pub enum TxError {
    InsufficientAllowance,
    InsufficientBalance,
    ErrorOperationStyle,
    Unauthorized,
    LedgerTrap,
    ErrorTo,
    Other,
    BlockUsed,
    AmountTooSmall,
}

} // verus!

use vstd::prelude::*;
use crate::types::{AccountId, BlockNumber};
use crate::RuntimeCall;

verus! {

/// Why a dispatched operation, or a whole block, was refused.
#[derive(Clone, Copy, PartialEq, Eq, Structural, Debug)]
pub enum ErrorKind {
    /// The caller's balance does not cover the amount to transfer.
    InsufficientBalance,
    /// Crediting the recipient would overflow the balance range.
    BalanceOverflow,
    /// The content is already claimed.
    ClaimExists,
    /// The content has never been claimed, or its claim was revoked.
    ClaimNotFound,
    /// The claim belongs to an account other than the caller.
    NotClaimOwner,
    /// The block's header does not carry the next block number.
    BlockNumberMismatch,
}

impl ErrorKind {
    /// The diagnostic text of this error, character for character.
    pub open spec fn message(&self) -> Seq<char> {
        match *self {
            ErrorKind::InsufficientBalance => "Insufficient balance"@,
            ErrorKind::BalanceOverflow => "Overflow when adding balance"@,
            ErrorKind::ClaimExists => "Claim already exists"@,
            ErrorKind::ClaimNotFound => "Claim does not exist"@,
            ErrorKind::NotClaimOwner => "The claim does not belong to Caller"@,
            ErrorKind::BlockNumberMismatch => "Block number mismatch"@,
        }
    }

    /// The diagnostic text of this error.
    pub fn as_str(&self) -> (r: &'static str)
        ensures
            r@ == self.message(),
    {
        match *self {
            ErrorKind::InsufficientBalance => "Insufficient balance",
            ErrorKind::BalanceOverflow => "Overflow when adding balance",
            ErrorKind::ClaimExists => "Claim already exists",
            ErrorKind::ClaimNotFound => "Claim does not exist",
            ErrorKind::NotClaimOwner => "The claim does not belong to Caller",
            ErrorKind::BlockNumberMismatch => "Block number mismatch",
        }
    }
}

/// The uniform outcome of dispatching a call.
pub type DispatchResult = Result<(), ErrorKind>;

/// What a block's header records: the number this block must carry.
pub struct Header {
    pub block_number: BlockNumber,
}

/// One externally submitted instruction: who calls, and what.
pub struct Extrinsic {
    pub caller: AccountId,
    pub call: RuntimeCall,
}

/// An ordered batch of extrinsics under one header.
pub struct Block {
    pub header: Header,
    pub extrinsics: Vec<Extrinsic>,
}

} // verus!

//! Shared types: the error taxonomy and the block structure.

use vstd::prelude::*;
use crate::runtime::RuntimeCall;

verus! {

/// The closed set of failures a pallet call can produce. Each one is local
/// to the call that raised it: the call leaves all state unchanged and the
/// rest of the block continues.
#[derive(Clone, Copy, Debug, PartialEq, Eq, Structural)]
pub enum DispatchError {
    /// A transfer would drive the sender's balance below zero.
    InsufficientBalance,
    /// A transfer would push the recipient's balance past the
    /// largest representable value.
    BalanceOverflow,
    /// The content to claim already has an owner.
    ClaimAlreadyExists,
    /// The content to revoke has no owner.
    ClaimNotFound,
    /// The content to revoke is owned by someone else.
    NotClaimOwner,
}

/// Outcome of one dispatched call.
pub type DispatchResult = Result<(), DispatchError>;

/// A structural fault in a block. Unlike a `DispatchError`, this rejects
/// the block as a whole.
#[derive(Clone, Copy, Debug, PartialEq, Eq, Structural)]
pub enum BlockError {
    /// The block's header does not carry the number the chain expects next.
    BlockNumberMismatch,
}

/// A block header: the bookkeeping the chain keeps about the block itself,
/// here only its number.
pub struct Header {
    pub block_number: u32,
}

/// One submitted transaction: the calling account and the call it makes.
pub struct Extrinsic {
    pub caller: String,
    pub call: RuntimeCall,
}

/// An ordered batch of extrinsics under one header. Blocks are inputs to
/// the runtime, read once during execution and never mutated by it.
pub struct Block {
    pub header: Header,
    pub extrinsics: Vec<Extrinsic>,
}

} // verus!

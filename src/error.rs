//! What can go wrong, and where.

use vstd::prelude::*;

verus! {

/// A transaction-building operation of the token client.
#[derive(Clone, Copy, Debug, PartialEq, Eq, Structural)]
pub enum Operation {
    CreateCollection,
    CreateToken,
    BurnToken,
    OfferToken,
    ClaimToken,
    CancelTokenOffer,
    DirectTransferToken,
    ListTokenForSwap,
}

/// A lookup of on-chain state.
#[derive(Clone, Copy, Debug, PartialEq, Eq, Structural)]
pub enum QueryKind {
    CollectionData,
    TokenForAccount,
    TokenData,
    PendingClaims,
}

/// A legitimate absence: the resource, or the table entry, is not there.
#[derive(Clone, Copy, Debug, PartialEq, Eq, Structural)]
pub enum Absence {
    /// The account holds no collection registry.
    NoCollectionRegistry,
    /// The registry exists but holds no collection of that name.
    CollectionNotFound,
    /// The account holds no token store.
    NoTokenStore,
    /// The store exists but does not hold that token instance.
    TokenNotHeld,
    /// The registry exists but holds no token data of that identity.
    TokenDataNotFound,
    /// The account holds no pending-claims resource.
    NoPendingClaims,
}

/// Errors of the token client.
#[derive(Clone, Copy, Debug, PartialEq, Eq, Structural)]
pub enum TokenError {
    /// The chain's identifier could not be had.
    ChainId,
    /// An argument of the operation is too long for the encoder.
    Encoding(Operation),
    /// The coin type of a swap listing is no type tag.
    InvalidCoinType,
    /// The transaction's expiry instant does not fit in a `u64`.
    ExpirationOverflow(Operation),
    /// The transport refused or could not deliver the transaction.
    Submission(Operation),
    /// The transport failed while fetching state for the lookup.
    Transport(QueryKind),
    /// The state looked up is not there.
    NotFound(Absence),
    /// The state fetched does not have the expected shape.
    Decode(QueryKind),
}

/// The context attached to a failed submission of `op`.
pub open spec fn submit_context_text(op: Operation) -> Seq<char> {
    match op {
        Operation::CreateCollection => "Failed to submit create collection transaction"@,
        Operation::CreateToken => "Failed to submit create token transaction"@,
        Operation::BurnToken => "Failed to submit burn token transaction"@,
        Operation::OfferToken => "Failed to submit offer token transaction"@,
        Operation::ClaimToken => "Failed to submit claim token transaction"@,
        Operation::CancelTokenOffer => "Failed to submit cancel token offer transaction"@,
        Operation::DirectTransferToken => "Failed to submit direct transfer token transaction"@,
        Operation::ListTokenForSwap => "Failed to submit list token for swap transaction"@,
    }
}

impl Operation {
    /// The context attached to a failed submission of this operation.
    pub fn submit_context(&self) -> (r: &'static str)
        ensures
            r@ == submit_context_text(*self),
    {
        match self {
            Operation::CreateCollection => "Failed to submit create collection transaction",
            Operation::CreateToken => "Failed to submit create token transaction",
            Operation::BurnToken => "Failed to submit burn token transaction",
            Operation::OfferToken => "Failed to submit offer token transaction",
            Operation::ClaimToken => "Failed to submit claim token transaction",
            Operation::CancelTokenOffer => "Failed to submit cancel token offer transaction",
            Operation::DirectTransferToken => "Failed to submit direct transfer token transaction",
            Operation::ListTokenForSwap => "Failed to submit list token for swap transaction",
        }
    }
}

} // verus!

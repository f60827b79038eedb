//! The rejection taxonomy. Every error is a synchronous, local rejection
//! that aborts the call; the only recoverable failure class is an external
//! transfer that fails after an optimistic local mutation, and that one is
//! reported through a later callback, not through these variants.
use vstd::prelude::*;
use vstd::string::StringExecFns;

verus! {

/// Why a call was rejected.
#[derive(Clone, Copy, PartialEq, Eq, Structural, Debug)]
pub enum MarketError {
    /// The signature did not verify, or the caller is not the account named
    /// in the authorization message.
    AuthorizationFailed,
    /// The authorization message is expired, replayed, or out of order.
    StaleAuthorization,
    /// The attached deposit or the account balance is short by exactly
    /// `missing`.
    InsufficientPayment { missing: u128 },
    /// Seller and buyer must differ.
    CannotSelfTrade,
    /// A fee fraction does not satisfy its invariants.
    ConfigurationInvalid,
    /// A storage quota would exceed its configured maximum.
    QuotaExceeded,
    /// Unknown token, storage package, or archived item.
    NotFound,
    /// An administrative operation was attempted by a non-operator, or a
    /// counterpart call came from the wrong contract.
    Unauthorized,
    /// A checked arithmetic step would overflow, so the whole operation is
    /// refused.
    Overflow,
    /// A withdrawal must move a positive amount.
    ZeroAmount,
    /// The derived identifier for an archived copy is already taken.
    TokenExists,
}

impl MarketError {
    /// A short human-readable description.
    pub fn message(&self) -> (r: String)
        ensures
            r@.len() > 0,
    {
        let s: &str = match self {
            MarketError::AuthorizationFailed => "Signature check failed",
            MarketError::StaleAuthorization => "Timestamp is too old or already used",
            MarketError::InsufficientPayment { .. } => "Illegal deposit or balance is too small",
            MarketError::CannotSelfTrade => "Current and next owner must differ",
            MarketError::ConfigurationInvalid => "Fee fraction is invalid",
            MarketError::QuotaExceeded => "Illegal storage value",
            MarketError::NotFound => "Not found",
            MarketError::Unauthorized => "Not an owner",
            MarketError::Overflow => "Arithmetic overflow",
            MarketError::ZeroAmount => "Positive amount required",
            MarketError::TokenExists => "token_id must be unique",
        };
        proof {
            reveal_strlit("Signature check failed");
            reveal_strlit("Timestamp is too old or already used");
            reveal_strlit("Illegal deposit or balance is too small");
            reveal_strlit("Current and next owner must differ");
            reveal_strlit("Fee fraction is invalid");
            reveal_strlit("Illegal storage value");
            reveal_strlit("Not found");
            reveal_strlit("Not an owner");
            reveal_strlit("Arithmetic overflow");
            reveal_strlit("Positive amount required");
            reveal_strlit("token_id must be unique");
        }
        String::from_str(s)
    }
}

} // verus!

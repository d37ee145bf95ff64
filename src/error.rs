use vstd::prelude::*;

verus! {

/// Every way an operation of the registry can be rejected. A rejected
/// operation leaves all state and all balances as they were.
#[derive(PartialEq, Eq, Structural, Clone, Copy, Debug)]
pub enum SynidError {
    /// The signer is not the owner or authority that the operation needs.
    Unauthorized,
    /// The owner already holds an identity record.
    AlreadyMinted,
    /// The locator is malformed.
    InvalidCid,
    /// The display name is longer than 32 bytes.
    NameTooLong,
    /// The metadata URI is longer than 200 bytes.
    UriTooLong,
    /// The encrypted locator is longer than 128 bytes.
    CidTooLong,
    /// More than 10 fields were requested.
    TooManyFields,
    /// The offered payment is below the configured access fee.
    InsufficientPayment,
    /// The request is not pending.
    InvalidStatus,
    /// The request's expiry time has been reached.
    RequestExpired,
    /// The grant is no longer active.
    AlreadyRevoked,
    /// The registry is paused.
    Paused,
    /// The payer's balance cannot cover the amount.
    InsufficientFunds,
    /// Escrow holds less than the amount to release.
    EscrowUnderflow,
    /// A counter or a balance would leave the range of `u64`.
    Overflow,
    /// No identity record exists for the given owner.
    IdentityNotFound,
    /// No access request exists for the given identity and requester.
    RequestNotFound,
    /// An access request for this identity and requester already exists.
    RequestExists,
    /// No access grant exists for the given identity and requester.
    GrantNotFound,
    /// Requests or grants of an earlier identity of this owner remain.
    RecordsRemain,
    /// The requested expiry time is not after the creation time.
    InvalidExpiry,
}

} // verus!

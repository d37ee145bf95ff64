use vstd::prelude::*;

verus! {

// The parties taking part in each operation. Every party is named by its
// key; `now` is the time, in seconds since the epoch, at which the
// operation runs.

/// Sets up the registry.
pub struct Initialize {
    pub authority: u64,
    pub treasury: u64,
}

/// Changes the price, the fee or the pause flag; signed by the authority.
pub struct UpdateConfig {
    pub authority: u64,
}

/// Creates the identity record of `owner`, linked to the token `mint`.
pub struct MintSynid {
    pub owner: u64,
    pub mint: u64,
    pub now: i64,
}

/// Replaces profile fields of the identity of `owner`; signed by `owner`.
pub struct UpdateProfile {
    pub owner: u64,
    pub now: i64,
}

/// `requester` asks for access to the identity owned by `synid`.
pub struct RequestAccess {
    pub synid: u64,
    pub requester: u64,
    pub now: i64,
}

/// `owner` approves the request of `requester` on the identity `synid`.
pub struct ApproveAccess {
    pub synid: u64,
    pub owner: u64,
    pub requester: u64,
    pub now: i64,
}

/// `owner` denies the request of `requester` on the identity `synid`.
pub struct DenyAccess {
    pub synid: u64,
    pub owner: u64,
    pub requester: u64,
    pub now: i64,
}

/// `owner` revokes the grant of `requester` on the identity `synid`.
pub struct RevokeAccess {
    pub synid: u64,
    pub owner: u64,
    pub requester: u64,
    pub now: i64,
}

/// The authority marks the identity `synid` verified.
pub struct VerifyIdentity {
    pub authority: u64,
    pub synid: u64,
    pub now: i64,
}

/// The authority adjusts the reputation of the identity `synid`.
pub struct UpdateReputation {
    pub authority: u64,
    pub synid: u64,
    pub now: i64,
}

/// `owner` removes their identity record.
pub struct BurnSynid {
    pub owner: u64,
    pub now: i64,
}

/// The authority moves funds out of the treasury into its own balance.
pub struct WithdrawTreasury {
    pub authority: u64,
}

} // verus!

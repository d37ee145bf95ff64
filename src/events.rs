use vstd::prelude::*;

verus! {

/// An identity record was created.
pub struct SynidMinted {
    pub owner: u64,
    pub mint: u64,
    pub token_id: u64,
    pub timestamp: i64,
}

/// An identity's locator or key digest was replaced.
pub struct ProfileUpdated {
    pub owner: u64,
    pub timestamp: i64,
}

/// An access request was created and its payment escrowed.
pub struct AccessRequested {
    pub synid: u64,
    pub requester: u64,
    pub fields: Vec<String>,
    pub payment: u64,
    pub timestamp: i64,
}

/// An access request was approved and its payment settled.
pub struct AccessApproved {
    pub synid: u64,
    pub requester: u64,
    pub payment: u64,
    pub timestamp: i64,
}

/// An access request was denied and its payment refunded.
pub struct AccessDenied {
    pub synid: u64,
    pub requester: u64,
    pub timestamp: i64,
}

/// An access grant was revoked.
pub struct AccessRevoked {
    pub synid: u64,
    pub requester: u64,
    pub timestamp: i64,
}

/// An identity was marked verified.
pub struct IdentityVerified {
    pub owner: u64,
    pub timestamp: i64,
}

/// An identity's reputation score changed.
pub struct ReputationUpdated {
    pub owner: u64,
    pub new_score: u16,
    pub timestamp: i64,
}

/// An identity record was removed.
pub struct SynidBurned {
    pub owner: u64,
    pub token_id: u64,
    pub timestamp: i64,
}

} // verus!

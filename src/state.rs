use vstd::prelude::*;

verus! {

/// Upper bound of an identity's reputation score.
pub const MAX_REPUTATION: u16 = 1000;

/// Reputation score of a freshly created identity.
pub const INITIAL_REPUTATION: u16 = 100;

/// Reputation added when an identity is verified.
pub const VERIFICATION_BONUS: u16 = 50;

/// Largest byte length of a display name.
pub const MAX_NAME_LEN: usize = 32;

/// Largest byte length of a metadata URI.
pub const MAX_URI_LEN: usize = 200;

/// Largest byte length of an encrypted locator.
pub const MAX_CID_LEN: usize = 128;

/// Largest number of fields one request may name.
pub const MAX_FIELDS: usize = 10;

/// Registry-wide settings, owned by one administrative authority.
pub struct Config {
    pub authority: u64,
    pub mint_count: u64,
    pub mint_price: u64,
    pub access_fee: u64,
    pub treasury: u64,
    pub paused: bool,
    pub total_revenue: u64,
}

/// The identity record of one owner.
pub struct SynidAccount {
    pub owner: u64,
    pub mint: u64,
    pub encrypted_cid: String,
    pub encryption_key_hash: [u8; 32],
    pub created_at: i64,
    pub updated_at: i64,
    pub token_id: u64,
    pub soulbound: bool,
    pub access_count: u64,
    pub total_earnings: u64,
    pub reputation_score: u16,
    pub verified: bool,
}

/// A request by `requester` to read `fields` of the identity owned by `synid`.
pub struct AccessRequest {
    pub synid: u64,
    pub requester: u64,
    pub fields: Vec<String>,
    pub offered_payment: u64,
    pub created_at: i64,
    pub expires_at: i64,
    pub status: AccessStatus,
}

/// A permission produced by approving an access request.
pub struct AccessGrant {
    pub synid: u64,
    pub requester: u64,
    pub fields: Vec<String>,
    pub payment: u64,
    pub granted_at: i64,
    pub expires_at: i64,
    pub active: bool,
}

/// Where an access request stands. A request leaves `Pending` once, by
/// approval or denial; no operation assigns `Expired`, since expiry is only
/// checked when a request is approved.
#[derive(PartialEq, Eq, Structural, Clone, Copy, Debug)]
pub enum AccessStatus {
    Pending,
    Approved,
    Denied,
    Expired,
}

} // verus!

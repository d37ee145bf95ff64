//! A registry of soulbound identity records with a paid, escrowed
//! data-access brokerage on top: requests hold payment in escrow, the
//! identity owner approves (settling 95/5 with the platform treasury) or
//! denies (refunding in full), and approved grants can later be revoked.

pub mod accounts;
pub mod admin;
pub mod brokerage;
pub mod error;
pub mod escrow;
pub mod events;
pub mod identity;
pub mod laws;
pub mod ledger;
pub mod registry;
pub mod state;

pub use accounts::{
    ApproveAccess, BurnSynid, DenyAccess, Initialize, MintSynid, RequestAccess, RevokeAccess,
    UpdateConfig, UpdateProfile, UpdateReputation, VerifyIdentity, WithdrawTreasury,
};
pub use admin::{initialize, update_config, withdraw_treasury};
pub use brokerage::{approve_access, deny_access, request_access, revoke_access};
pub use error::SynidError;
pub use events::{
    AccessApproved, AccessDenied, AccessRequested, AccessRevoked, IdentityVerified,
    ProfileUpdated, ReputationUpdated, SynidBurned, SynidMinted,
};
pub use identity::{burn_synid, mint_synid, update_profile, update_reputation, verify_identity};
pub use ledger::Ledger;
pub use registry::Registry;
pub use state::{AccessGrant, AccessRequest, AccessStatus, Config, SynidAccount};

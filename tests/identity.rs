use synid::identity::adjusted_score;
use synid::ledger::platform_fee;
use synid::{
    burn_synid, deny_access, initialize, mint_synid, request_access, update_config, update_profile,
    update_reputation, verify_identity, withdraw_treasury, BurnSynid, Initialize, MintSynid,
    AccessStatus, DenyAccess, Registry, RequestAccess, SynidError, UpdateConfig, UpdateProfile, UpdateReputation,
    VerifyIdentity, WithdrawTreasury,
};

const AUTHORITY: u64 = 1;
const TREASURY: u64 = 2;
const OWNER: u64 = 10;

fn fresh(mint_price: u64) -> Registry {
    let mut reg = initialize(&Initialize { authority: AUTHORITY, treasury: TREASURY }, mint_price, 50);
    reg.deposit(OWNER, 1_000).unwrap();
    reg
}

fn mint(reg: &mut Registry, owner: u64, name: &str, uri: &str, cid: &str) -> Result<u64, SynidError> {
    mint_synid(
        reg,
        &MintSynid { owner, mint: owner + 1_000, now: 500 },
        name.to_string(),
        uri.to_string(),
        cid.to_string(),
        [1u8; 32],
    )
    .map(|e| e.token_id)
}

#[test]
fn mint_initialises_record() {
    let mut reg = fresh(0);
    assert_eq!(mint(&mut reg, OWNER, "alice", "uri", "cid"), Ok(0));
    let id = reg.identity(OWNER).unwrap();
    assert_eq!(id.owner, OWNER);
    assert_eq!(id.mint, OWNER + 1_000);
    assert_eq!(id.encrypted_cid, "cid");
    assert_eq!(id.encryption_key_hash, [1u8; 32]);
    assert_eq!(id.created_at, 500);
    assert_eq!(id.updated_at, 500);
    assert_eq!(id.token_id, 0);
    assert!(id.soulbound);
    assert_eq!(id.access_count, 0);
    assert_eq!(id.total_earnings, 0);
    assert_eq!(id.reputation_score, 100);
    assert!(!id.verified);
    assert_eq!(reg.config.mint_count, 1);
    assert_eq!(mint(&mut reg, 11, "bob", "uri", "cid"), Ok(1));
}

#[test]
fn mint_rejects_duplicates_and_long_fields() {
    let mut reg = fresh(0);
    mint(&mut reg, OWNER, "alice", "uri", "cid").unwrap();
    assert_eq!(mint(&mut reg, OWNER, "alice", "uri", "cid"), Err(SynidError::AlreadyMinted));
    let name33 = "n".repeat(33);
    let uri201 = "u".repeat(201);
    let cid129 = "c".repeat(129);
    assert_eq!(mint(&mut reg, 11, &name33, "uri", "cid"), Err(SynidError::NameTooLong));
    assert_eq!(mint(&mut reg, 11, "bob", &uri201, "cid"), Err(SynidError::UriTooLong));
    assert_eq!(mint(&mut reg, 11, "bob", "uri", &cid129), Err(SynidError::CidTooLong));
    assert_eq!(mint(&mut reg, 11, &"n".repeat(32), &"u".repeat(200), &"c".repeat(128)), Ok(1));
    // lengths are counted in bytes: 17 two-byte characters exceed 32 bytes
    assert_eq!(mint(&mut reg, 12, &"é".repeat(17), "uri", "cid"), Err(SynidError::NameTooLong));
}

#[test]
fn mint_charges_price_to_treasury() {
    let mut reg = fresh(300);
    mint(&mut reg, OWNER, "alice", "uri", "cid").unwrap();
    assert_eq!(reg.balance(OWNER), 700);
    assert_eq!(reg.balance(TREASURY), 300);
    assert_eq!(reg.config.total_revenue, 300);
    assert_eq!(mint(&mut reg, 11, "bob", "uri", "cid"), Err(SynidError::InsufficientFunds));
    assert!(reg.identity(11).is_none());
}

#[test]
fn paused_registry_rejects_mint_and_request() {
    let mut reg = fresh(0);
    mint(&mut reg, OWNER, "alice", "uri", "cid").unwrap();
    update_config(&mut reg, &UpdateConfig { authority: AUTHORITY }, None, None, Some(true)).unwrap();
    assert_eq!(mint(&mut reg, 11, "bob", "uri", "cid"), Err(SynidError::Paused));
    reg.deposit(20, 100).unwrap();
    let r = request_access(&mut reg, &RequestAccess { synid: OWNER, requester: 20, now: 600 }, vec![], 60, 900);
    assert_eq!(r.err(), Some(SynidError::Paused));
    assert_eq!(reg.escrow_balance(), 0);
}

#[test]
fn update_config_needs_authority() {
    let mut reg = fresh(0);
    assert_eq!(
        update_config(&mut reg, &UpdateConfig { authority: 3 }, Some(9), Some(9), Some(true)),
        Err(SynidError::Unauthorized)
    );
    update_config(&mut reg, &UpdateConfig { authority: AUTHORITY }, Some(9), Some(8), None).unwrap();
    assert_eq!(reg.config.mint_price, 9);
    assert_eq!(reg.config.access_fee, 8);
    assert!(!reg.config.paused);
}

#[test]
fn update_profile_replaces_given_fields() {
    let mut reg = fresh(0);
    mint(&mut reg, OWNER, "alice", "uri", "cid").unwrap();
    update_profile(&mut reg, &UpdateProfile { owner: OWNER, now: 800 }, Some("new-cid".to_string()), None).unwrap();
    let id = reg.identity(OWNER).unwrap();
    assert_eq!(id.encrypted_cid, "new-cid");
    assert_eq!(id.encryption_key_hash, [1u8; 32]);
    assert_eq!(id.updated_at, 800);
    update_profile(&mut reg, &UpdateProfile { owner: OWNER, now: 900 }, None, Some([2u8; 32])).unwrap();
    let id = reg.identity(OWNER).unwrap();
    assert_eq!(id.encrypted_cid, "new-cid");
    assert_eq!(id.encryption_key_hash, [2u8; 32]);
    assert_eq!(id.updated_at, 900);
    assert_eq!(
        update_profile(&mut reg, &UpdateProfile { owner: OWNER, now: 950 }, Some("c".repeat(129)), None).err(),
        Some(SynidError::CidTooLong)
    );
    assert_eq!(reg.identity(OWNER).unwrap().updated_at, 900);
    assert_eq!(
        update_profile(&mut reg, &UpdateProfile { owner: 11, now: 950 }, None, None).err(),
        Some(SynidError::IdentityNotFound)
    );
}

#[test]
fn verification_adds_fifty_saturating() {
    let mut reg = fresh(0);
    mint(&mut reg, OWNER, "alice", "uri", "cid").unwrap();
    let ctx = VerifyIdentity { authority: AUTHORITY, synid: OWNER, now: 700 };
    verify_identity(&mut reg, &ctx).unwrap();
    let id = reg.identity(OWNER).unwrap();
    assert!(id.verified);
    assert_eq!(id.reputation_score, 150);
    update_reputation(&mut reg, &UpdateReputation { authority: AUTHORITY, synid: OWNER, now: 700 }, 830).unwrap();
    verify_identity(&mut reg, &ctx).unwrap();
    assert_eq!(reg.identity(OWNER).unwrap().reputation_score, 1000);
    let bad = VerifyIdentity { authority: 3, synid: OWNER, now: 700 };
    assert_eq!(verify_identity(&mut reg, &bad).err(), Some(SynidError::Unauthorized));
}

#[test]
fn reputation_is_clamped() {
    let mut reg = fresh(0);
    mint(&mut reg, OWNER, "alice", "uri", "cid").unwrap();
    let ctx = UpdateReputation { authority: AUTHORITY, synid: OWNER, now: 700 };
    let ev = update_reputation(&mut reg, &ctx, -2000).unwrap();
    assert_eq!(ev.new_score, 0);
    assert_eq!(reg.identity(OWNER).unwrap().reputation_score, 0);
    update_reputation(&mut reg, &ctx, 1000).unwrap();
    let ev = update_reputation(&mut reg, &ctx, 2000).unwrap();
    assert_eq!(ev.new_score, 1000);
    assert_eq!(update_reputation(&mut reg, &ctx, -1).unwrap().new_score, 999);
    let bad = UpdateReputation { authority: OWNER, synid: OWNER, now: 700 };
    assert_eq!(update_reputation(&mut reg, &bad, 5).err(), Some(SynidError::Unauthorized));
}

#[test]
fn adjusted_score_extremes() {
    assert_eq!(adjusted_score(100, -2000), 0);
    assert_eq!(adjusted_score(1000, 2000), 1000);
    assert_eq!(adjusted_score(0, i16::MIN), 0);
    assert_eq!(adjusted_score(1000, i16::MAX), 1000);
    assert_eq!(adjusted_score(500, 25), 525);
}

#[test]
fn platform_fee_values() {
    assert_eq!(platform_fee(100), 5);
    assert_eq!(platform_fee(99), 4);
    assert_eq!(platform_fee(19), 0);
    assert_eq!(platform_fee(u64::MAX), 922337203685477580);
}

#[test]
fn burn_removes_record() {
    let mut reg = fresh(0);
    mint(&mut reg, OWNER, "alice", "uri", "cid").unwrap();
    let ev = burn_synid(&mut reg, &BurnSynid { owner: OWNER, now: 900 }).unwrap();
    assert_eq!(ev.token_id, 0);
    assert!(reg.identity(OWNER).is_none());
    assert_eq!(burn_synid(&mut reg, &BurnSynid { owner: OWNER, now: 901 }).err(), Some(SynidError::IdentityNotFound));
    // no request or grant ever named this identity, so it may be created again
    assert_eq!(mint(&mut reg, OWNER, "alice", "uri", "cid"), Ok(1));
}

#[test]
fn burn_refunds_pending_requests() {
    let mut reg = fresh(0);
    mint(&mut reg, OWNER, "alice", "uri", "cid").unwrap();
    reg.deposit(20, 100).unwrap();
    reg.deposit(21, 100).unwrap();
    let ctx20 = RequestAccess { synid: OWNER, requester: 20, now: 600 };
    let ctx21 = RequestAccess { synid: OWNER, requester: 21, now: 600 };
    request_access(&mut reg, &ctx20, vec![], 60, 900).unwrap();
    request_access(&mut reg, &ctx21, vec![], 70, 900).unwrap();
    deny_access(&mut reg, &DenyAccess { synid: OWNER, owner: OWNER, requester: 21, now: 650 }).unwrap();
    request_access(&mut reg, &ctx21, vec![], 80, 900).unwrap();
    assert_eq!(reg.escrow_balance(), 140);
    let ev = burn_synid(&mut reg, &BurnSynid { owner: OWNER, now: 700 }).unwrap();
    assert_eq!(ev.token_id, 0);
    assert!(reg.identity(OWNER).is_none());
    assert_eq!(reg.escrow_balance(), 0);
    assert_eq!(reg.balance(20), 100);
    assert_eq!(reg.balance(21), 100);
    assert_eq!(reg.balance(OWNER), 1_000);
    assert_eq!(reg.request(OWNER, 20).unwrap().status, AccessStatus::Denied);
    assert_eq!(reg.request(OWNER, 21).unwrap().status, AccessStatus::Denied);
    assert_eq!(mint(&mut reg, OWNER, "alice", "uri", "cid"), Err(SynidError::RecordsRemain));
}

#[test]
fn burn_refund_overflow_keeps_record() {
    let mut reg = fresh(0);
    mint(&mut reg, OWNER, "alice", "uri", "cid").unwrap();
    reg.deposit(20, 100).unwrap();
    request_access(&mut reg, &RequestAccess { synid: OWNER, requester: 20, now: 600 }, vec![], 60, 900).unwrap();
    reg.deposit(20, u64::MAX - 40).unwrap();
    assert_eq!(burn_synid(&mut reg, &BurnSynid { owner: OWNER, now: 700 }).err(), Some(SynidError::Overflow));
    assert!(reg.identity(OWNER).is_some());
    assert_eq!(reg.escrow_balance(), 60);
}

#[test]
fn withdraw_moves_treasury_funds() {
    let mut reg = fresh(400);
    mint(&mut reg, OWNER, "alice", "uri", "cid").unwrap();
    assert_eq!(
        withdraw_treasury(&mut reg, &WithdrawTreasury { authority: OWNER }, 100),
        Err(SynidError::Unauthorized)
    );
    assert_eq!(
        withdraw_treasury(&mut reg, &WithdrawTreasury { authority: AUTHORITY }, 401),
        Err(SynidError::InsufficientFunds)
    );
    withdraw_treasury(&mut reg, &WithdrawTreasury { authority: AUTHORITY }, 150).unwrap();
    assert_eq!(reg.balance(TREASURY), 250);
    assert_eq!(reg.balance(AUTHORITY), 150);
    withdraw_treasury(&mut reg, &WithdrawTreasury { authority: AUTHORITY }, 250).unwrap();
    assert_eq!(reg.balance(TREASURY), 0);
    assert_eq!(reg.balance(AUTHORITY), 400);
}

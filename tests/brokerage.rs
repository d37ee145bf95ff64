use synid::{
    approve_access, deny_access, initialize, mint_synid, request_access, revoke_access,
    AccessStatus, ApproveAccess, DenyAccess, Initialize, MintSynid, Registry, RequestAccess,
    RevokeAccess, SynidError,
};

const AUTHORITY: u64 = 1;
const TREASURY: u64 = 2;
const OWNER: u64 = 10;
const REQUESTER: u64 = 20;

fn setup(mint_price: u64, access_fee: u64) -> Registry {
    let mut reg = initialize(&Initialize { authority: AUTHORITY, treasury: TREASURY }, mint_price, access_fee);
    reg.deposit(OWNER, 1_000).unwrap();
    reg.deposit(REQUESTER, 1_000).unwrap();
    mint_synid(
        &mut reg,
        &MintSynid { owner: OWNER, mint: 99, now: 1_000 },
        "alice".to_string(),
        "https://example.com/alice.json".to_string(),
        "bafy-locator".to_string(),
        [7u8; 32],
    )
    .unwrap();
    reg
}

fn request(reg: &mut Registry, payment: u64, now: i64, expires_at: i64) -> Result<(), SynidError> {
    request_access(
        reg,
        &RequestAccess { synid: OWNER, requester: REQUESTER, now },
        vec!["age".to_string()],
        payment,
        expires_at,
    )
    .map(|_| ())
}

fn approve_ctx(now: i64) -> ApproveAccess {
    ApproveAccess { synid: OWNER, owner: OWNER, requester: REQUESTER, now }
}

fn deny_ctx(now: i64) -> DenyAccess {
    DenyAccess { synid: OWNER, owner: OWNER, requester: REQUESTER, now }
}

fn revoke_ctx(now: i64) -> RevokeAccess {
    RevokeAccess { synid: OWNER, owner: OWNER, requester: REQUESTER, now }
}

#[test]
fn end_to_end_approval_settles_payment() {
    let mut reg = setup(0, 50);
    let owner_before = reg.balance(OWNER);
    let treasury_before = reg.balance(TREASURY);
    request(&mut reg, 100, 2_000, 10_000).unwrap();
    assert_eq!(reg.escrow_balance(), 100);
    assert_eq!(reg.balance(REQUESTER), 900);
    let ev = approve_access(&mut reg, &approve_ctx(3_000)).unwrap();
    assert_eq!(ev.payment, 100);
    let id = reg.identity(OWNER).unwrap();
    assert_eq!(id.access_count, 1);
    assert_eq!(id.total_earnings, 100);
    let grant = reg.grant(OWNER, REQUESTER).unwrap();
    assert!(grant.active);
    assert_eq!(grant.fields, vec!["age".to_string()]);
    assert_eq!(grant.payment, 100);
    assert_eq!(grant.expires_at, 10_000);
    assert_eq!(grant.granted_at, 3_000);
    assert_eq!(reg.balance(TREASURY), treasury_before + 5);
    assert_eq!(reg.balance(OWNER), owner_before + 95);
    assert_eq!(reg.escrow_balance(), 0);
    assert_eq!(reg.request(OWNER, REQUESTER).unwrap().status, AccessStatus::Approved);
}

#[test]
fn underpaid_request_is_rejected_without_effect() {
    let mut reg = setup(0, 50);
    assert_eq!(request(&mut reg, 40, 2_000, 10_000), Err(SynidError::InsufficientPayment));
    assert!(reg.request(OWNER, REQUESTER).is_none());
    assert_eq!(reg.escrow_balance(), 0);
    assert_eq!(reg.balance(REQUESTER), 1_000);
}

#[test]
fn expired_request_cannot_be_approved() {
    let mut reg = setup(0, 50);
    request(&mut reg, 100, 2_000, 2_500).unwrap();
    assert_eq!(approve_access(&mut reg, &approve_ctx(3_000)).err(), Some(SynidError::RequestExpired));
    assert_eq!(reg.request(OWNER, REQUESTER).unwrap().status, AccessStatus::Pending);
    assert_eq!(reg.escrow_balance(), 100);
    assert!(reg.grant(OWNER, REQUESTER).is_none());
    // at exactly the expiry time the request is already expired
    assert_eq!(approve_access(&mut reg, &approve_ctx(2_500)).err(), Some(SynidError::RequestExpired));
}

#[test]
fn second_approve_or_deny_fails() {
    let mut reg = setup(0, 50);
    request(&mut reg, 100, 2_000, 10_000).unwrap();
    approve_access(&mut reg, &approve_ctx(3_000)).unwrap();
    let owner = reg.balance(OWNER);
    let treasury = reg.balance(TREASURY);
    assert_eq!(approve_access(&mut reg, &approve_ctx(3_001)).err(), Some(SynidError::InvalidStatus));
    assert_eq!(deny_access(&mut reg, &deny_ctx(3_001)).err(), Some(SynidError::InvalidStatus));
    assert_eq!(reg.balance(OWNER), owner);
    assert_eq!(reg.balance(TREASURY), treasury);
    assert_eq!(reg.identity(OWNER).unwrap().access_count, 1);
}

#[test]
fn deny_refunds_in_full() {
    let mut reg = setup(0, 50);
    request(&mut reg, 333, 2_000, 10_000).unwrap();
    assert_eq!(reg.balance(REQUESTER), 667);
    deny_access(&mut reg, &deny_ctx(3_000)).unwrap();
    assert_eq!(reg.balance(REQUESTER), 1_000);
    assert_eq!(reg.escrow_balance(), 0);
    assert_eq!(reg.request(OWNER, REQUESTER).unwrap().status, AccessStatus::Denied);
    assert!(reg.grant(OWNER, REQUESTER).is_none());
    assert_eq!(reg.identity(OWNER).unwrap().access_count, 0);
    assert_eq!(approve_access(&mut reg, &approve_ctx(3_001)).err(), Some(SynidError::InvalidStatus));
}

#[test]
fn fee_split_rounds_in_favour_of_owner() {
    let mut reg = setup(0, 0);
    request(&mut reg, 99, 2_000, 10_000).unwrap();
    approve_access(&mut reg, &approve_ctx(3_000)).unwrap();
    assert_eq!(reg.balance(TREASURY), 4);
    assert_eq!(reg.balance(OWNER), 1_000 + 95);
}

#[test]
fn revoke_twice_fails_and_moves_no_funds() {
    let mut reg = setup(0, 50);
    request(&mut reg, 100, 2_000, 10_000).unwrap();
    approve_access(&mut reg, &approve_ctx(3_000)).unwrap();
    let balances = (reg.balance(OWNER), reg.balance(TREASURY), reg.balance(REQUESTER), reg.escrow_balance());
    revoke_access(&mut reg, &revoke_ctx(4_000)).unwrap();
    assert!(!reg.grant(OWNER, REQUESTER).unwrap().active);
    assert_eq!(revoke_access(&mut reg, &revoke_ctx(4_001)).err(), Some(SynidError::AlreadyRevoked));
    assert!(!reg.grant(OWNER, REQUESTER).unwrap().active);
    assert_eq!(
        balances,
        (reg.balance(OWNER), reg.balance(TREASURY), reg.balance(REQUESTER), reg.escrow_balance())
    );
    assert_eq!(reg.request(OWNER, REQUESTER).unwrap().status, AccessStatus::Approved);
}

#[test]
fn escrow_tracks_pending_requests() {
    let mut reg = setup(0, 10);
    reg.deposit(21, 500).unwrap();
    reg.deposit(22, 500).unwrap();
    request(&mut reg, 100, 2_000, 10_000).unwrap();
    request_access(&mut reg, &RequestAccess { synid: OWNER, requester: 21, now: 2_000 }, vec![], 30, 10_000).unwrap();
    request_access(&mut reg, &RequestAccess { synid: OWNER, requester: 22, now: 2_000 }, vec![], 70, 10_000).unwrap();
    assert_eq!(reg.escrow_balance(), 200);
    approve_access(&mut reg, &approve_ctx(3_000)).unwrap();
    assert_eq!(reg.escrow_balance(), 100);
    deny_access(&mut reg, &DenyAccess { synid: OWNER, owner: OWNER, requester: 21, now: 3_000 }).unwrap();
    assert_eq!(reg.escrow_balance(), 70);
}

#[test]
fn duplicate_request_is_rejected() {
    let mut reg = setup(0, 50);
    request(&mut reg, 100, 2_000, 10_000).unwrap();
    assert_eq!(request(&mut reg, 100, 2_001, 10_000), Err(SynidError::RequestExists));
    assert_eq!(reg.escrow_balance(), 100);
}

#[test]
fn request_validation_errors() {
    let mut reg = setup(0, 50);
    let many: Vec<String> = (0..11).map(|i| format!("f{}", i)).collect();
    let ctx = RequestAccess { synid: OWNER, requester: REQUESTER, now: 2_000 };
    assert_eq!(request_access(&mut reg, &ctx, many, 100, 10_000).err(), Some(SynidError::TooManyFields));
    let ten: Vec<String> = (0..10).map(|i| format!("f{}", i)).collect();
    assert_eq!(request_access(&mut reg, &ctx, ten.clone(), 100, 2_000).err(), Some(SynidError::InvalidExpiry));
    assert_eq!(request_access(&mut reg, &ctx, ten.clone(), 5_000, 10_000).err(), Some(SynidError::InsufficientFunds));
    let missing = RequestAccess { synid: 77, requester: REQUESTER, now: 2_000 };
    assert_eq!(request_access(&mut reg, &missing, ten.clone(), 100, 10_000).err(), Some(SynidError::IdentityNotFound));
    let ev = request_access(&mut reg, &ctx, ten.clone(), 50, 10_000).unwrap();
    assert_eq!(ev.fields, ten);
    assert_eq!(ev.payment, 50);
    assert_eq!(ev.timestamp, 2_000);
    assert_eq!(reg.request(OWNER, REQUESTER).unwrap().fields.len(), 10);
}

#[test]
fn only_the_owner_resolves_requests() {
    let mut reg = setup(0, 50);
    request(&mut reg, 100, 2_000, 10_000).unwrap();
    let stranger = ApproveAccess { synid: OWNER, owner: 55, requester: REQUESTER, now: 3_000 };
    assert_eq!(approve_access(&mut reg, &stranger).err(), Some(SynidError::Unauthorized));
    let stranger = DenyAccess { synid: OWNER, owner: 55, requester: REQUESTER, now: 3_000 };
    assert_eq!(deny_access(&mut reg, &stranger).err(), Some(SynidError::Unauthorized));
    let stranger = RevokeAccess { synid: OWNER, owner: 55, requester: REQUESTER, now: 3_000 };
    assert_eq!(revoke_access(&mut reg, &stranger).err(), Some(SynidError::Unauthorized));
    let other = ApproveAccess { synid: OWNER, owner: OWNER, requester: 56, now: 3_000 };
    assert_eq!(approve_access(&mut reg, &other).err(), Some(SynidError::RequestNotFound));
    assert_eq!(revoke_access(&mut reg, &revoke_ctx(3_000)).err(), Some(SynidError::GrantNotFound));
    assert_eq!(reg.escrow_balance(), 100);
}

#[test]
fn request_again_after_denial() {
    let mut reg = setup(0, 50);
    request(&mut reg, 100, 2_000, 10_000).unwrap();
    deny_access(&mut reg, &deny_ctx(3_000)).unwrap();
    request(&mut reg, 120, 4_000, 12_000).unwrap();
    let req = reg.request(OWNER, REQUESTER).unwrap();
    assert_eq!(req.status, AccessStatus::Pending);
    assert_eq!(req.offered_payment, 120);
    assert_eq!(req.created_at, 4_000);
    assert_eq!(reg.escrow_balance(), 120);
    assert_eq!(reg.balance(REQUESTER), 880);
    assert_eq!(request(&mut reg, 120, 4_001, 12_000), Err(SynidError::RequestExists));
}

#[test]
fn approve_again_replaces_grant() {
    let mut reg = setup(0, 50);
    request(&mut reg, 100, 2_000, 10_000).unwrap();
    approve_access(&mut reg, &approve_ctx(3_000)).unwrap();
    revoke_access(&mut reg, &revoke_ctx(3_500)).unwrap();
    request_access(
        &mut reg,
        &RequestAccess { synid: OWNER, requester: REQUESTER, now: 4_000 },
        vec!["age".to_string(), "city".to_string()],
        200,
        20_000,
    )
    .unwrap();
    approve_access(&mut reg, &approve_ctx(5_000)).unwrap();
    let grant = reg.grant(OWNER, REQUESTER).unwrap();
    assert!(grant.active);
    assert_eq!(grant.payment, 200);
    assert_eq!(grant.fields, vec!["age".to_string(), "city".to_string()]);
    assert_eq!(grant.granted_at, 5_000);
    assert_eq!(grant.expires_at, 20_000);
    assert_eq!(reg.grants.len(), 1);
    let id = reg.identity(OWNER).unwrap();
    assert_eq!(id.access_count, 2);
    assert_eq!(id.total_earnings, 300);
    assert_eq!(reg.balance(TREASURY), 15);
    assert_eq!(reg.escrow_balance(), 0);
}

use vstd::prelude::*;
use vstd::utf8::encode_utf8;

use crate::accounts::{BurnSynid, MintSynid, UpdateProfile, UpdateReputation, VerifyIdentity};
use crate::error::SynidError;
use crate::events::{IdentityVerified, ProfileUpdated, ReputationUpdated, SynidBurned, SynidMinted};
use crate::ledger::credit_to;
use crate::escrow::{held_by, lemma_pending_total_covers, lemma_pending_total_update, pending_total};
use crate::registry::{lemma_request_index_at, lemma_request_keys_kept, request_key_is, request_keys_unique, Registry};
use crate::state::{
    AccessRequest, AccessStatus, SynidAccount, INITIAL_REPUTATION, MAX_CID_LEN, MAX_NAME_LEN, MAX_REPUTATION, MAX_URI_LEN,
    VERIFICATION_BONUS,
};

verus! {

broadcast use vstd::std_specs::hash::group_hash_axioms;

/// The length of `s` in bytes, as UTF-8, as `str::len` reports it.
pub open spec fn byte_len(s: String) -> int {
    encode_utf8(s@).len() as usize as int
}

fn len_in_bytes(s: &String) -> (r: usize)
    ensures
        r == byte_len(*s),
{
    s.as_str().len()
}

/// The score after adding `delta` to `score`, clamped to [0, 1000].
pub open spec fn clamped_score(score: int, delta: int) -> int {
    if score + delta < 0 {
        0
    } else if score + delta > MAX_REPUTATION {
        MAX_REPUTATION as int
    } else {
        score + delta
    }
}

/// The score after verification: 50 more, saturating at 1000.
pub open spec fn verified_score(score: int) -> int {
    if score + VERIFICATION_BONUS > MAX_REPUTATION {
        MAX_REPUTATION as int
    } else {
        score + VERIFICATION_BONUS
    }
}

/// The first reason, if any, for which `mint_synid` is rejected.
pub open spec fn mint_synid_error(
    reg: &Registry,
    ctx: &MintSynid,
    name: String,
    uri: String,
    encrypted_cid: String,
) -> Option<SynidError> {
    let price = reg.config.mint_price;
    let treasury = reg.config.treasury;
    if reg.config.paused {
        Some(SynidError::Paused)
    } else if byte_len(name) > MAX_NAME_LEN {
        Some(SynidError::NameTooLong)
    } else if byte_len(uri) > MAX_URI_LEN {
        Some(SynidError::UriTooLong)
    } else if byte_len(encrypted_cid) > MAX_CID_LEN {
        Some(SynidError::CidTooLong)
    } else if reg.identities@.contains_key(ctx.owner) {
        Some(SynidError::AlreadyMinted)
    } else if reg.has_records_on(ctx.owner) {
        Some(SynidError::RecordsRemain)
    } else if price > 0 && reg.ledger.balance_of(ctx.owner) < price {
        Some(SynidError::InsufficientFunds)
    } else if price > 0 && ctx.owner != treasury && reg.ledger.balance_of(treasury) + price > u64::MAX {
        Some(SynidError::Overflow)
    } else if reg.config.total_revenue + price > u64::MAX || reg.config.mint_count + 1 > u64::MAX {
        Some(SynidError::Overflow)
    } else {
        None
    }
}

/// The record that `mint_synid` creates.
pub open spec fn minted_record(reg: &Registry, ctx: &MintSynid, encrypted_cid: String, encryption_key_hash: [u8; 32]) -> SynidAccount {
    SynidAccount {
        owner: ctx.owner,
        mint: ctx.mint,
        encrypted_cid,
        encryption_key_hash,
        created_at: ctx.now,
        updated_at: ctx.now,
        token_id: reg.config.mint_count,
        soulbound: true,
        access_count: 0,
        total_earnings: 0,
        reputation_score: INITIAL_REPUTATION,
        verified: false,
    }
}

/// Creates the identity record of `ctx.owner`. The mint price, if any, moves
/// from the owner to the treasury and is added to the revenue; the record
/// takes the current value of the mint counter as its sequence number (the
/// counter then moves on by one), reputation 100 and is unverified. `name`
/// and `uri` describe the token and are only length-checked here. An owner
/// whose earlier identity still has requests or grants on record cannot
/// create a new one, so old records never apply to a new identity.
pub fn mint_synid(
    reg: &mut Registry,
    ctx: &MintSynid,
    name: String,
    uri: String,
    encrypted_cid: String,
    encryption_key_hash: [u8; 32],
) -> (r: Result<SynidMinted, SynidError>)
    requires
        old(reg).wf(),
    ensures
        final(reg).wf(),
        match mint_synid_error(old(reg), ctx, name, uri, encrypted_cid) {
            Some(e) => r == Err::<SynidMinted, SynidError>(e) && *final(reg) == *old(reg),
            None => {
                let price = old(reg).config.mint_price;
                &&& r == Ok::<SynidMinted, SynidError>(SynidMinted {
                    owner: ctx.owner,
                    mint: ctx.mint,
                    token_id: old(reg).config.mint_count,
                    timestamp: ctx.now,
                })
                &&& final(reg).identities@ == old(reg).identities@.insert(
                    ctx.owner,
                    minted_record(old(reg), ctx, encrypted_cid, encryption_key_hash),
                )
                &&& final(reg).config == (crate::state::Config {
                    mint_count: (old(reg).config.mint_count + 1) as u64,
                    total_revenue: (old(reg).config.total_revenue + price) as u64,
                    ..old(reg).config
                })
                &&& final(reg).ledger.escrow == old(reg).ledger.escrow
                &&& old(reg).ledger.moved(
                    &final(reg).ledger,
                    |k: u64| credit_to(k, old(reg).config.treasury, price as int) - credit_to(k, ctx.owner, price as int),
                )
                &&& final(reg).requests@ == old(reg).requests@
                &&& final(reg).grants@ == old(reg).grants@
            },
        },
{
    if reg.config.paused {
        return Err(SynidError::Paused);
    }
    if len_in_bytes(&name) > MAX_NAME_LEN {
        return Err(SynidError::NameTooLong);
    }
    if len_in_bytes(&uri) > MAX_URI_LEN {
        return Err(SynidError::UriTooLong);
    }
    if len_in_bytes(&encrypted_cid) > MAX_CID_LEN {
        return Err(SynidError::CidTooLong);
    }
    if reg.identities.contains_key(&ctx.owner) {
        return Err(SynidError::AlreadyMinted);
    }
    if reg.any_records_on(ctx.owner) {
        return Err(SynidError::RecordsRemain);
    }
    let price = reg.config.mint_price;
    let treasury = reg.config.treasury;
    if price > 0 {
        if reg.ledger.balance(ctx.owner) < price {
            return Err(SynidError::InsufficientFunds);
        }
        if ctx.owner != treasury && reg.ledger.balance(treasury) > u64::MAX - price {
            return Err(SynidError::Overflow);
        }
    }
    if reg.config.total_revenue > u64::MAX - price || reg.config.mint_count == u64::MAX {
        return Err(SynidError::Overflow);
    }
    if price > 0 {
        match reg.ledger.transfer(ctx.owner, treasury, price) {
            Ok(()) => {},
            Err(e) => {
                return Err(e);
            },
        }
        reg.config.total_revenue = reg.config.total_revenue + price;
    }
    let token_id = reg.config.mint_count;
    reg.config.mint_count = reg.config.mint_count + 1;
    let record = SynidAccount {
        owner: ctx.owner,
        mint: ctx.mint,
        encrypted_cid,
        encryption_key_hash,
        created_at: ctx.now,
        updated_at: ctx.now,
        token_id,
        soulbound: true,
        access_count: 0,
        total_earnings: 0,
        reputation_score: INITIAL_REPUTATION,
        verified: false,
    };
    reg.identities.insert(ctx.owner, record);
    Ok(SynidMinted { owner: ctx.owner, mint: ctx.mint, token_id, timestamp: ctx.now })
}

/// The first reason, if any, for which `update_profile` is rejected.
pub open spec fn update_profile_error(reg: &Registry, ctx: &UpdateProfile, encrypted_cid: Option<String>) -> Option<SynidError> {
    if !reg.identities@.contains_key(ctx.owner) {
        Some(SynidError::IdentityNotFound)
    } else if encrypted_cid is Some && byte_len(encrypted_cid->Some_0) > MAX_CID_LEN {
        Some(SynidError::CidTooLong)
    } else {
        None
    }
}

/// The owner replaces the locator and the key digest, each where given, and
/// the record's update time becomes `ctx.now` in any case.
pub fn update_profile(
    reg: &mut Registry,
    ctx: &UpdateProfile,
    encrypted_cid: Option<String>,
    encryption_key_hash: Option<[u8; 32]>,
) -> (r: Result<ProfileUpdated, SynidError>)
    requires
        old(reg).wf(),
    ensures
        final(reg).wf(),
        match update_profile_error(old(reg), ctx, encrypted_cid) {
            Some(e) => r == Err::<ProfileUpdated, SynidError>(e) && *final(reg) == *old(reg),
            None => {
                let id = old(reg).identities@[ctx.owner];
                &&& r == Ok::<ProfileUpdated, SynidError>(ProfileUpdated { owner: ctx.owner, timestamp: ctx.now })
                &&& final(reg).identities@ == old(reg).identities@.insert(
                    ctx.owner,
                    SynidAccount {
                        encrypted_cid: match encrypted_cid {
                            Some(c) => c,
                            None => id.encrypted_cid,
                        },
                        encryption_key_hash: match encryption_key_hash {
                            Some(h) => h,
                            None => id.encryption_key_hash,
                        },
                        updated_at: ctx.now,
                        ..id
                    },
                )
                &&& final(reg).ledger == old(reg).ledger
                &&& final(reg).config == old(reg).config
                &&& final(reg).requests@ == old(reg).requests@
                &&& final(reg).grants@ == old(reg).grants@
            },
        },
{
    if !reg.identities.contains_key(&ctx.owner) {
        return Err(SynidError::IdentityNotFound);
    }
    if let Some(c) = &encrypted_cid {
        if len_in_bytes(c) > MAX_CID_LEN {
            return Err(SynidError::CidTooLong);
        }
    }
    let mut id = match reg.identities.remove(&ctx.owner) {
        Some(id) => id,
        None => {
            return Err(SynidError::IdentityNotFound);
        },
    };
    if let Some(c) = encrypted_cid {
        id.encrypted_cid = c;
    }
    if let Some(h) = encryption_key_hash {
        id.encryption_key_hash = h;
    }
    id.updated_at = ctx.now;
    reg.identities.insert(ctx.owner, id);
    proof {
        assert(reg.identities@ =~= old(reg).identities@.insert(ctx.owner, id));
    }
    Ok(ProfileUpdated { owner: ctx.owner, timestamp: ctx.now })
}

/// The first reason, if any, for which an authority operation on the
/// identity `synid` is rejected.
pub open spec fn authority_error(reg: &Registry, authority: u64, synid: u64) -> Option<SynidError> {
    if authority != reg.config.authority {
        Some(SynidError::Unauthorized)
    } else if !reg.identities@.contains_key(synid) {
        Some(SynidError::IdentityNotFound)
    } else {
        None
    }
}

/// The authority marks an identity verified, which also raises its
/// reputation by 50, saturating at 1000.
pub fn verify_identity(reg: &mut Registry, ctx: &VerifyIdentity) -> (r: Result<IdentityVerified, SynidError>)
    requires
        old(reg).wf(),
    ensures
        final(reg).wf(),
        match authority_error(old(reg), ctx.authority, ctx.synid) {
            Some(e) => r == Err::<IdentityVerified, SynidError>(e) && *final(reg) == *old(reg),
            None => {
                let id = old(reg).identities@[ctx.synid];
                &&& r == Ok::<IdentityVerified, SynidError>(IdentityVerified { owner: ctx.synid, timestamp: ctx.now })
                &&& final(reg).identities@ == old(reg).identities@.insert(
                    ctx.synid,
                    SynidAccount {
                        verified: true,
                        reputation_score: verified_score(id.reputation_score as int) as u16,
                        ..id
                    },
                )
                &&& final(reg).ledger == old(reg).ledger
                &&& final(reg).config == old(reg).config
                &&& final(reg).requests@ == old(reg).requests@
                &&& final(reg).grants@ == old(reg).grants@
            },
        },
{
    if ctx.authority != reg.config.authority {
        return Err(SynidError::Unauthorized);
    }
    if !reg.identities.contains_key(&ctx.synid) {
        return Err(SynidError::IdentityNotFound);
    }
    let mut id = match reg.identities.remove(&ctx.synid) {
        Some(id) => id,
        None => {
            return Err(SynidError::IdentityNotFound);
        },
    };
    id.verified = true;
    id.reputation_score = if id.reputation_score > MAX_REPUTATION - VERIFICATION_BONUS {
        MAX_REPUTATION
    } else {
        id.reputation_score + VERIFICATION_BONUS
    };
    reg.identities.insert(ctx.synid, id);
    proof {
        assert(reg.identities@ =~= old(reg).identities@.insert(ctx.synid, id));
    }
    Ok(IdentityVerified { owner: ctx.synid, timestamp: ctx.now })
}

/// The score that `update_reputation` gives: `current + delta` clamped to
/// [0, 1000], computed in a wider type so that no delta can overflow.
pub fn adjusted_score(current: u16, delta: i16) -> (r: u16)
    ensures
        r == clamped_score(current as int, delta as int),
        r <= MAX_REPUTATION,
{
    let sum: i32 = current as i32 + delta as i32;
    if sum < 0 {
        0
    } else if sum > MAX_REPUTATION as i32 {
        MAX_REPUTATION
    } else {
        sum as u16
    }
}

/// The authority adds `delta` to an identity's reputation, clamped to
/// [0, 1000].
pub fn update_reputation(reg: &mut Registry, ctx: &UpdateReputation, delta: i16) -> (r: Result<ReputationUpdated, SynidError>)
    requires
        old(reg).wf(),
    ensures
        final(reg).wf(),
        match authority_error(old(reg), ctx.authority, ctx.synid) {
            Some(e) => r == Err::<ReputationUpdated, SynidError>(e) && *final(reg) == *old(reg),
            None => {
                let id = old(reg).identities@[ctx.synid];
                let score = clamped_score(id.reputation_score as int, delta as int) as u16;
                &&& r == Ok::<ReputationUpdated, SynidError>(
                    ReputationUpdated { owner: ctx.synid, new_score: score, timestamp: ctx.now },
                )
                &&& final(reg).identities@ == old(reg).identities@.insert(
                    ctx.synid,
                    SynidAccount { reputation_score: score, ..id },
                )
                &&& final(reg).ledger == old(reg).ledger
                &&& final(reg).config == old(reg).config
                &&& final(reg).requests@ == old(reg).requests@
                &&& final(reg).grants@ == old(reg).grants@
            },
        },
{
    if ctx.authority != reg.config.authority {
        return Err(SynidError::Unauthorized);
    }
    if !reg.identities.contains_key(&ctx.synid) {
        return Err(SynidError::IdentityNotFound);
    }
    let mut id = match reg.identities.remove(&ctx.synid) {
        Some(id) => id,
        None => {
            return Err(SynidError::IdentityNotFound);
        },
    };
    let new_score = adjusted_score(id.reputation_score, delta);
    id.reputation_score = new_score;
    reg.identities.insert(ctx.synid, id);
    proof {
        assert(reg.identities@ =~= old(reg).identities@.insert(ctx.synid, id));
    }
    Ok(ReputationUpdated { owner: ctx.synid, new_score, timestamp: ctx.now })
}

/// What terminating the identity `owner` gives back to party `k`: the
/// payment of `k`'s request on it while that request is pending.
pub open spec fn burn_refund(reg: &Registry, owner: u64, k: u64) -> int {
    if reg.has_request(owner, k) { held_by(reg.request_of(owner, k)) } else { 0 }
}

/// A request after its identity `owner` is terminated: denied if it was
/// pending on that identity, else as it was.
pub open spec fn closed_on_burn(r: AccessRequest, owner: u64) -> AccessRequest {
    if r.synid == owner && r.status == AccessStatus::Pending {
        AccessRequest { status: AccessStatus::Denied, ..r }
    } else {
        r
    }
}

/// The first reason, if any, for which `burn_synid` is rejected.
pub open spec fn burn_synid_error(reg: &Registry, ctx: &BurnSynid) -> Option<SynidError> {
    if !reg.identities@.contains_key(ctx.owner) {
        Some(SynidError::IdentityNotFound)
    } else if exists|k: u64| reg.ledger.balance_of(k) + #[trigger] burn_refund(reg, ctx.owner, k) > u64::MAX {
        Some(SynidError::Overflow)
    } else {
        None
    }
}

/// Whether every refund that terminating `owner` makes fits its balance.
fn burn_refunds_fit(reg: &Registry, owner: u64) -> (r: bool)
    requires
        reg.wf(),
    ensures
        r <==> forall|k: u64| reg.ledger.balance_of(k) + #[trigger] burn_refund(reg, owner, k) <= u64::MAX,
{
    let mut i: usize = 0;
    while i < reg.requests.len()
        invariant
            reg.wf(),
            i <= reg.requests@.len(),
            forall|j: int| 0 <= j < i ==> !(#[trigger] reg.requests@[j].synid == owner
                && reg.requests@[j].status == AccessStatus::Pending
                && reg.ledger.balance_of(reg.requests@[j].requester) + reg.requests@[j].offered_payment > u64::MAX),
        decreases reg.requests@.len() - i,
    {
        let r = &reg.requests[i];
        if r.synid == owner && r.status == AccessStatus::Pending
            && reg.ledger.balance(r.requester) > u64::MAX - r.offered_payment {
            proof {
                lemma_request_index_at(reg, i as int);
                assert(reg.ledger.balance_of(r.requester) + burn_refund(reg, owner, r.requester) > u64::MAX);
            }
            return false;
        }
        i = i + 1;
    }
    proof {
        assert forall|k: u64| reg.ledger.balance_of(k) + #[trigger] burn_refund(reg, owner, k) <= u64::MAX by {
            if reg.has_request(owner, k) {
                let j = reg.request_index(owner, k);
                assert(reg.requests@[j].synid == owner);
            }
        }
    }
    true
}

/// The owner terminates their identity: the record is removed, and every
/// request on it that is still pending is denied, its payment going back
/// from escrow to its requester in full. Grants and resolved requests stay
/// on record. The call is refused only when there is no record, or when a
/// refund would take a balance out of the range of `u64`.
pub fn burn_synid(reg: &mut Registry, ctx: &BurnSynid) -> (r: Result<SynidBurned, SynidError>)
    requires
        old(reg).wf(),
    ensures
        final(reg).wf(),
        match burn_synid_error(old(reg), ctx) {
            Some(e) => r == Err::<SynidBurned, SynidError>(e) && *final(reg) == *old(reg),
            None => {
                &&& r == Ok::<SynidBurned, SynidError>(SynidBurned {
                    owner: ctx.owner,
                    token_id: old(reg).identities@[ctx.owner].token_id,
                    timestamp: ctx.now,
                })
                &&& final(reg).identities@ == old(reg).identities@.remove(ctx.owner)
                &&& final(reg).requests@.len() == old(reg).requests@.len()
                &&& forall|j: int| 0 <= j < old(reg).requests@.len() ==> #[trigger] final(reg).requests@[j]
                    == closed_on_burn(old(reg).requests@[j], ctx.owner)
                &&& forall|k: u64| #[trigger] final(reg).ledger.balance_of(k)
                    == old(reg).ledger.balance_of(k) + burn_refund(old(reg), ctx.owner, k)
                &&& final(reg).config == old(reg).config
                &&& final(reg).grants@ == old(reg).grants@
            },
        },
{
    let owner = ctx.owner;
    if !reg.identities.contains_key(&owner) {
        return Err(SynidError::IdentityNotFound);
    }
    if !burn_refunds_fit(reg, owner) {
        return Err(SynidError::Overflow);
    }
    let mut i: usize = 0;
    while i < reg.requests.len()
        invariant
            old(reg).wf(),
            forall|k: u64| old(reg).ledger.balance_of(k) + #[trigger] burn_refund(old(reg), owner, k) <= u64::MAX,
            old(reg).identities@.contains_key(owner),
            i <= reg.requests@.len(),
            reg.requests@.len() == old(reg).requests@.len(),
            forall|j: int| 0 <= j < i ==> #[trigger] reg.requests@[j] == closed_on_burn(old(reg).requests@[j], owner),
            forall|j: int| i <= j < reg.requests@.len() ==> #[trigger] reg.requests@[j] == old(reg).requests@[j],
            reg.ledger.escrow == pending_total(reg.requests@),
            request_keys_unique(reg.requests@),
            forall|k: u64| #[trigger] reg.ledger.balance_of(k) == old(reg).ledger.balance_of(k) + (
                if old(reg).has_request(owner, k) && old(reg).request_index(owner, k) < i {
                    burn_refund(old(reg), owner, k)
                } else {
                    0
                }),
            reg.config == old(reg).config,
            reg.identities == old(reg).identities,
            reg.grants == old(reg).grants,
        decreases reg.requests@.len() - i,
    {
        proof {
            lemma_request_index_at(old(reg), i as int);
        }
        if reg.requests[i].synid == owner && reg.requests[i].status == AccessStatus::Pending {
            let requester = reg.requests[i].requester;
            let payment = reg.requests[i].offered_payment;
            proof {
                lemma_pending_total_covers(reg.requests@, i as int);
                assert(reg.ledger.balance_of(requester) == old(reg).ledger.balance_of(requester));
                assert(burn_refund(old(reg), owner, requester) == payment);
            }
            let ghost before = reg.ledger;
            match reg.ledger.refund(requester, payment) {
                Ok(()) => {},
                Err(e) => {
                    return Err(e);
                },
            }
            let ghost cur = reg.requests@[i as int];
            proof {
                lemma_pending_total_update(reg.requests@, i as int, AccessRequest { status: AccessStatus::Denied, ..cur });
                lemma_request_keys_kept(reg.requests@, reg.requests@.update(i as int, AccessRequest { status: AccessStatus::Denied, ..cur }));
            }
            reg.requests[i].status = AccessStatus::Denied;
            proof {
                assert forall|k: u64| #[trigger] reg.ledger.balance_of(k) == old(reg).ledger.balance_of(k) + (
                    if old(reg).has_request(owner, k) && old(reg).request_index(owner, k) < i + 1 {
                        burn_refund(old(reg), owner, k)
                    } else {
                        0
                    }) by {
                    assert(reg.ledger.balance_of(k) == before.balance_of(k) + (if k == requester { payment as int } else { 0 }));
                    if old(reg).has_request(owner, k) && old(reg).request_index(owner, k) == i {
                        assert(request_key_is(old(reg).requests@[i as int], owner, k));
                    }
                }
            }
        } else {
            proof {
                assert forall|k: u64| #[trigger] reg.ledger.balance_of(k) == old(reg).ledger.balance_of(k) + (
                    if old(reg).has_request(owner, k) && old(reg).request_index(owner, k) < i + 1 {
                        burn_refund(old(reg), owner, k)
                    } else {
                        0
                    }) by {
                    if old(reg).has_request(owner, k) && old(reg).request_index(owner, k) == i {
                        assert(request_key_is(old(reg).requests@[i as int], owner, k));
                    }
                }
            }
        }
        i = i + 1;
    }
    let token_id = match reg.identities.remove(&owner) {
        Some(id) => id.token_id,
        None => {
            return Err(SynidError::IdentityNotFound);
        },
    };
    proof {
        assert forall|k: u64| #[trigger] reg.ledger.balance_of(k) == old(reg).ledger.balance_of(k) + burn_refund(old(reg), owner, k) by {
            assert(reg.ledger.balance_of(k) == old(reg).ledger.balance_of(k) + (
                if old(reg).has_request(owner, k) && old(reg).request_index(owner, k) < i {
                    burn_refund(old(reg), owner, k)
                } else {
                    0
                }));
        }
    }
    Ok(SynidBurned { owner, token_id, timestamp: ctx.now })
}

} // verus!

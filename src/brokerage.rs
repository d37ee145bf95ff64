use vstd::prelude::*;

use crate::accounts::{ApproveAccess, DenyAccess, RequestAccess, RevokeAccess};
use crate::error::SynidError;
use crate::escrow::{lemma_pending_total_covers, lemma_pending_total_push, lemma_pending_total_update};
use crate::events::{AccessApproved, AccessDenied, AccessRequested, AccessRevoked};
use crate::ledger::Ledger;
use crate::registry::{
    lemma_grant_keys_kept, lemma_grant_keys_push, lemma_request_keys_kept, lemma_request_keys_push,
    Registry,
};
use crate::state::{AccessGrant, AccessRequest, AccessStatus, SynidAccount, MAX_FIELDS};

verus! {

broadcast use vstd::std_specs::hash::group_hash_axioms;

/// A copy of `v`, string by string.
fn copy_fields(v: &Vec<String>) -> (r: Vec<String>)
    ensures
        r@ == v@,
{
    let mut r: Vec<String> = Vec::new();
    let mut i: usize = 0;
    while i < v.len()
        invariant
            i <= v@.len(),
            r@ == v@.subrange(0, i as int),
        decreases v@.len() - i,
    {
        r.push(v[i].clone());
        i = i + 1;
        assert(r@ =~= v@.subrange(0, i as int));
    }
    assert(v@.subrange(0, v@.len() as int) =~= v@);
    r
}

/// The first reason, if any, for which `request_access` rejects its inputs.
pub open spec fn request_access_error(
    reg: &Registry,
    ctx: &RequestAccess,
    n_fields: int,
    offered_payment: u64,
    expires_at: i64,
) -> Option<SynidError> {
    if reg.config.paused {
        Some(SynidError::Paused)
    } else if !reg.identities@.contains_key(ctx.synid) {
        Some(SynidError::IdentityNotFound)
    } else if n_fields > MAX_FIELDS {
        Some(SynidError::TooManyFields)
    } else if offered_payment < reg.config.access_fee {
        Some(SynidError::InsufficientPayment)
    } else if expires_at <= ctx.now {
        Some(SynidError::InvalidExpiry)
    } else if reg.has_request(ctx.synid, ctx.requester)
        && reg.request_of(ctx.synid, ctx.requester).status == AccessStatus::Pending {
        Some(SynidError::RequestExists)
    } else if reg.ledger.balance_of(ctx.requester) < offered_payment {
        Some(SynidError::InsufficientFunds)
    } else if reg.ledger.escrow + offered_payment > u64::MAX {
        Some(SynidError::Overflow)
    } else {
        None
    }
}

/// `requester` asks to read `fields` of the identity owned by `synid`,
/// moving `offered_payment` from its balance into escrow. The new request is
/// pending and expires at `expires_at`. While a request of the same pair is
/// pending the call is refused; a resolved one (approved or denied) is
/// replaced by the new request.
pub fn request_access(
    reg: &mut Registry,
    ctx: &RequestAccess,
    fields: Vec<String>,
    offered_payment: u64,
    expires_at: i64,
) -> (r: Result<AccessRequested, SynidError>)
    requires
        old(reg).wf(),
    ensures
        final(reg).wf(),
        match request_access_error(old(reg), ctx, fields@.len() as int, offered_payment, expires_at) {
            Some(e) => r == Err::<AccessRequested, SynidError>(e) && *final(reg) == *old(reg),
            None => {
                let request = AccessRequest {
                    synid: ctx.synid,
                    requester: ctx.requester,
                    fields,
                    offered_payment,
                    created_at: ctx.now,
                    expires_at,
                    status: AccessStatus::Pending,
                };
                &&& r is Ok
                &&& final(reg).requests@ == if old(reg).has_request(ctx.synid, ctx.requester) {
                    old(reg).requests@.update(old(reg).request_index(ctx.synid, ctx.requester), request)
                } else {
                    old(reg).requests@.push(request)
                }
                &&& final(reg).ledger.escrow == old(reg).ledger.escrow + offered_payment
                &&& old(reg).ledger.moved(&final(reg).ledger, |k: u64| if k == ctx.requester { -(offered_payment as int) } else { 0 })
                &&& final(reg).config == old(reg).config
                &&& final(reg).identities@ == old(reg).identities@
                &&& final(reg).grants@ == old(reg).grants@
                &&& r->Ok_0.synid == ctx.synid
                &&& r->Ok_0.requester == ctx.requester
                &&& r->Ok_0.fields@ == fields@
                &&& r->Ok_0.payment == offered_payment
                &&& r->Ok_0.timestamp == ctx.now
            },
        },
{
    if reg.config.paused {
        return Err(SynidError::Paused);
    }
    if !reg.identities.contains_key(&ctx.synid) {
        return Err(SynidError::IdentityNotFound);
    }
    if fields.len() > MAX_FIELDS {
        return Err(SynidError::TooManyFields);
    }
    if offered_payment < reg.config.access_fee {
        return Err(SynidError::InsufficientPayment);
    }
    if expires_at <= ctx.now {
        return Err(SynidError::InvalidExpiry);
    }
    let slot = reg.find_request(ctx.synid, ctx.requester);
    if let Some(i) = slot {
        if reg.requests[i].status == AccessStatus::Pending {
            return Err(SynidError::RequestExists);
        }
    }
    match reg.ledger.escrow(ctx.requester, offered_payment) {
        Ok(()) => {},
        Err(e) => {
            return Err(e);
        },
    }
    let event_fields = copy_fields(&fields);
    let request = AccessRequest {
        synid: ctx.synid,
        requester: ctx.requester,
        fields,
        offered_payment,
        created_at: ctx.now,
        expires_at,
        status: AccessStatus::Pending,
    };
    match slot {
        Some(i) => {
            proof {
                lemma_pending_total_update(reg.requests@, i as int, request);
                lemma_request_keys_kept(reg.requests@, reg.requests@.update(i as int, request));
            }
            reg.requests[i] = request;
            proof {
                assert(reg.requests@ =~= old(reg).requests@.update(i as int, request));
            }
        },
        None => {
            proof {
                lemma_pending_total_push(reg.requests@, request);
                lemma_request_keys_push(reg.requests@, request);
            }
            reg.requests.push(request);
        },
    }
    Ok(AccessRequested {
        synid: ctx.synid,
        requester: ctx.requester,
        fields: event_fields,
        payment: offered_payment,
        timestamp: ctx.now,
    })
}

/// The first reason, if any, for which `approve_access` is rejected.
pub open spec fn approve_access_error(reg: &Registry, ctx: &ApproveAccess) -> Option<SynidError> {
    let req = reg.request_of(ctx.synid, ctx.requester);
    let id = reg.identities@[ctx.synid];
    if ctx.owner != ctx.synid {
        Some(SynidError::Unauthorized)
    } else if !reg.identities@.contains_key(ctx.synid) {
        Some(SynidError::IdentityNotFound)
    } else if !reg.has_request(ctx.synid, ctx.requester) {
        Some(SynidError::RequestNotFound)
    } else if req.status != AccessStatus::Pending {
        Some(SynidError::InvalidStatus)
    } else if ctx.now >= req.expires_at {
        Some(SynidError::RequestExpired)
    } else if id.access_count + 1 > u64::MAX || id.total_earnings + req.offered_payment > u64::MAX
        || !reg.ledger.settle_fits(ctx.owner, reg.config.treasury, req.offered_payment as int) {
        Some(SynidError::Overflow)
    } else {
        None
    }
}

/// The identity owner approves a pending, unexpired request: the request
/// becomes approved, the identity counts one more access and earns the
/// payment, escrow pays 95% to the owner and 5% to the treasury, and an
/// active grant copying the request's fields, payment and expiry is made.
/// The new grant takes the place of an earlier grant of the same pair, if
/// any; otherwise it is added.
pub fn approve_access(reg: &mut Registry, ctx: &ApproveAccess) -> (r: Result<AccessApproved, SynidError>)
    requires
        old(reg).wf(),
    ensures
        final(reg).wf(),
        match approve_access_error(old(reg), ctx) {
            Some(e) => r == Err::<AccessApproved, SynidError>(e) && *final(reg) == *old(reg),
            None => {
                let req = old(reg).request_of(ctx.synid, ctx.requester);
                let id = old(reg).identities@[ctx.synid];
                let had_grant = old(reg).has_grant(ctx.synid, ctx.requester);
                let pos = if had_grant { old(reg).grant_index(ctx.synid, ctx.requester) } else { old(reg).grants@.len() as int };
                let g = final(reg).grants@[pos];
                &&& r is Ok
                &&& final(reg).requests@ == old(reg).requests@.update(
                    old(reg).request_index(ctx.synid, ctx.requester),
                    AccessRequest { status: AccessStatus::Approved, ..req },
                )
                &&& final(reg).identities@ == old(reg).identities@.insert(
                    ctx.synid,
                    SynidAccount {
                        access_count: (id.access_count + 1) as u64,
                        total_earnings: (id.total_earnings + req.offered_payment) as u64,
                        ..id
                    },
                )
                &&& final(reg).ledger.escrow == old(reg).ledger.escrow - req.offered_payment
                &&& old(reg).ledger.moved(
                    &final(reg).ledger,
                    |k: u64| Ledger::settle_credit(k, ctx.owner, old(reg).config.treasury, req.offered_payment as int),
                )
                &&& final(reg).config == old(reg).config
                &&& final(reg).grants@.len() == if had_grant { old(reg).grants@.len() } else { old(reg).grants@.len() + 1 }
                &&& forall|i: int| 0 <= i < old(reg).grants@.len() && i != pos ==> #[trigger] final(reg).grants@[i] == old(reg).grants@[i]
                &&& g.synid == ctx.synid && g.requester == ctx.requester
                &&& g.fields@ == req.fields@
                &&& g.payment == req.offered_payment
                &&& g.granted_at == ctx.now
                &&& g.expires_at == req.expires_at
                &&& g.active
                &&& r->Ok_0 == (AccessApproved {
                    synid: ctx.synid,
                    requester: ctx.requester,
                    payment: req.offered_payment,
                    timestamp: ctx.now,
                })
            },
        },
{
    if ctx.owner != ctx.synid {
        return Err(SynidError::Unauthorized);
    }
    let (count, earnings) = match reg.identities.get(&ctx.synid) {
        Some(id) => (id.access_count, id.total_earnings),
        None => {
            return Err(SynidError::IdentityNotFound);
        },
    };
    let idx = match reg.find_request(ctx.synid, ctx.requester) {
        Some(i) => i,
        None => {
            return Err(SynidError::RequestNotFound);
        },
    };
    if reg.requests[idx].status != AccessStatus::Pending {
        return Err(SynidError::InvalidStatus);
    }
    let expires_at = reg.requests[idx].expires_at;
    if ctx.now >= expires_at {
        return Err(SynidError::RequestExpired);
    }
    let payment = reg.requests[idx].offered_payment;
    if count == u64::MAX || earnings > u64::MAX - payment {
        return Err(SynidError::Overflow);
    }
    proof {
        lemma_pending_total_covers(reg.requests@, idx as int);
    }
    match reg.ledger.settle(payment, ctx.owner, reg.config.treasury) {
        Ok(_) => {},
        Err(e) => {
            return Err(e);
        },
    }
    let mut id = match reg.identities.remove(&ctx.synid) {
        Some(id) => id,
        None => {
            return Err(SynidError::IdentityNotFound);
        },
    };
    id.access_count = count + 1;
    id.total_earnings = earnings + payment;
    reg.identities.insert(ctx.synid, id);
    let ghost old_req = reg.requests@[idx as int];
    proof {
        lemma_pending_total_update(reg.requests@, idx as int, AccessRequest { status: AccessStatus::Approved, ..old_req });
    }
    reg.requests[idx].status = AccessStatus::Approved;
    let fields = copy_fields(&reg.requests[idx].fields);
    let grant = AccessGrant {
        synid: ctx.synid,
        requester: ctx.requester,
        fields,
        payment,
        granted_at: ctx.now,
        expires_at,
        active: true,
    };
    proof {
        lemma_request_keys_kept(old(reg).requests@, reg.requests@);
    }
    match reg.find_grant(ctx.synid, ctx.requester) {
        Some(gi) => {
            proof {
                lemma_grant_keys_kept(reg.grants@, reg.grants@.update(gi as int, grant));
            }
            reg.grants[gi] = grant;
            proof {
                assert(reg.grants@ =~= old(reg).grants@.update(gi as int, grant));
            }
        },
        None => {
            proof {
                lemma_grant_keys_push(reg.grants@, grant);
            }
            reg.grants.push(grant);
        },
    }
    proof {
        assert(reg.requests@ =~= old(reg).requests@.update(idx as int, AccessRequest { status: AccessStatus::Approved, ..old_req }));
        assert(reg.identities@ =~= old(reg).identities@.insert(ctx.synid, id));
    }
    Ok(AccessApproved { synid: ctx.synid, requester: ctx.requester, payment, timestamp: ctx.now })
}

/// The first reason, if any, for which `deny_access` is rejected.
pub open spec fn deny_access_error(reg: &Registry, ctx: &DenyAccess) -> Option<SynidError> {
    let req = reg.request_of(ctx.synid, ctx.requester);
    if ctx.owner != ctx.synid {
        Some(SynidError::Unauthorized)
    } else if !reg.identities@.contains_key(ctx.synid) {
        Some(SynidError::IdentityNotFound)
    } else if !reg.has_request(ctx.synid, ctx.requester) {
        Some(SynidError::RequestNotFound)
    } else if req.status != AccessStatus::Pending {
        Some(SynidError::InvalidStatus)
    } else if reg.ledger.balance_of(ctx.requester) + req.offered_payment > u64::MAX {
        Some(SynidError::Overflow)
    } else {
        None
    }
}

/// The identity owner denies a pending request: the request becomes denied
/// and its payment goes back from escrow to the requester in full.
pub fn deny_access(reg: &mut Registry, ctx: &DenyAccess) -> (r: Result<AccessDenied, SynidError>)
    requires
        old(reg).wf(),
    ensures
        final(reg).wf(),
        match deny_access_error(old(reg), ctx) {
            Some(e) => r == Err::<AccessDenied, SynidError>(e) && *final(reg) == *old(reg),
            None => {
                let req = old(reg).request_of(ctx.synid, ctx.requester);
                &&& r == Ok::<AccessDenied, SynidError>(
                    AccessDenied { synid: ctx.synid, requester: ctx.requester, timestamp: ctx.now },
                )
                &&& final(reg).requests@ == old(reg).requests@.update(
                    old(reg).request_index(ctx.synid, ctx.requester),
                    AccessRequest { status: AccessStatus::Denied, ..req },
                )
                &&& final(reg).ledger.escrow == old(reg).ledger.escrow - req.offered_payment
                &&& old(reg).ledger.moved(
                    &final(reg).ledger,
                    |k: u64| if k == ctx.requester { req.offered_payment as int } else { 0 },
                )
                &&& final(reg).config == old(reg).config
                &&& final(reg).identities@ == old(reg).identities@
                &&& final(reg).grants@ == old(reg).grants@
            },
        },
{
    if ctx.owner != ctx.synid {
        return Err(SynidError::Unauthorized);
    }
    if !reg.identities.contains_key(&ctx.synid) {
        return Err(SynidError::IdentityNotFound);
    }
    let idx = match reg.find_request(ctx.synid, ctx.requester) {
        Some(i) => i,
        None => {
            return Err(SynidError::RequestNotFound);
        },
    };
    if reg.requests[idx].status != AccessStatus::Pending {
        return Err(SynidError::InvalidStatus);
    }
    let payment = reg.requests[idx].offered_payment;
    proof {
        lemma_pending_total_covers(reg.requests@, idx as int);
    }
    match reg.ledger.refund(ctx.requester, payment) {
        Ok(()) => {},
        Err(e) => {
            return Err(e);
        },
    }
    let ghost old_req = reg.requests@[idx as int];
    proof {
        lemma_pending_total_update(reg.requests@, idx as int, AccessRequest { status: AccessStatus::Denied, ..old_req });
    }
    reg.requests[idx].status = AccessStatus::Denied;
    proof {
        assert(reg.requests@ =~= old(reg).requests@.update(idx as int, AccessRequest { status: AccessStatus::Denied, ..old_req }));
        lemma_request_keys_kept(old(reg).requests@, reg.requests@);
    }
    Ok(AccessDenied { synid: ctx.synid, requester: ctx.requester, timestamp: ctx.now })
}

/// The first reason, if any, for which `revoke_access` is rejected.
pub open spec fn revoke_access_error(reg: &Registry, ctx: &RevokeAccess) -> Option<SynidError> {
    if ctx.owner != ctx.synid {
        Some(SynidError::Unauthorized)
    } else if !reg.identities@.contains_key(ctx.synid) {
        Some(SynidError::IdentityNotFound)
    } else if !reg.has_grant(ctx.synid, ctx.requester) {
        Some(SynidError::GrantNotFound)
    } else if !reg.grant_of(ctx.synid, ctx.requester).active {
        Some(SynidError::AlreadyRevoked)
    } else {
        None
    }
}

/// The identity owner revokes an active grant. Only the grant's flag
/// changes: no funds move.
pub fn revoke_access(reg: &mut Registry, ctx: &RevokeAccess) -> (r: Result<AccessRevoked, SynidError>)
    requires
        old(reg).wf(),
    ensures
        final(reg).wf(),
        match revoke_access_error(old(reg), ctx) {
            Some(e) => r == Err::<AccessRevoked, SynidError>(e) && *final(reg) == *old(reg),
            None => {
                &&& r == Ok::<AccessRevoked, SynidError>(
                    AccessRevoked { synid: ctx.synid, requester: ctx.requester, timestamp: ctx.now },
                )
                &&& final(reg).grants@ == old(reg).grants@.update(
                    old(reg).grant_index(ctx.synid, ctx.requester),
                    AccessGrant { active: false, ..old(reg).grant_of(ctx.synid, ctx.requester) },
                )
                &&& final(reg).ledger == old(reg).ledger
                &&& final(reg).config == old(reg).config
                &&& final(reg).identities@ == old(reg).identities@
                &&& final(reg).requests@ == old(reg).requests@
            },
        },
{
    if ctx.owner != ctx.synid {
        return Err(SynidError::Unauthorized);
    }
    if !reg.identities.contains_key(&ctx.synid) {
        return Err(SynidError::IdentityNotFound);
    }
    let idx = match reg.find_grant(ctx.synid, ctx.requester) {
        Some(i) => i,
        None => {
            return Err(SynidError::GrantNotFound);
        },
    };
    if !reg.grants[idx].active {
        return Err(SynidError::AlreadyRevoked);
    }
    let ghost old_grant = reg.grants@[idx as int];
    reg.grants[idx].active = false;
    proof {
        assert(reg.grants@ =~= old(reg).grants@.update(idx as int, AccessGrant { active: false, ..old_grant }));
        lemma_grant_keys_kept(old(reg).grants@, reg.grants@);
    }
    Ok(AccessRevoked { synid: ctx.synid, requester: ctx.requester, timestamp: ctx.now })
}

} // verus!

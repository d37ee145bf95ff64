use vstd::prelude::*;

use crate::accounts::{ApproveAccess, DenyAccess, RequestAccess, RevokeAccess};
use crate::brokerage::{approve_access_error, deny_access_error, request_access_error, revoke_access_error};
use crate::error::SynidError;
use crate::escrow::pending_total;
use crate::identity::clamped_score;
use crate::ledger::{owner_share_of, platform_fee_of, Ledger};
use crate::registry::{grant_key_is, request_key_is, Registry};
use crate::state::{AccessGrant, AccessRequest, AccessStatus, MAX_REPUTATION};

verus! {

/// Escrow always holds exactly the sum of the payments offered by the
/// pending requests. `initialize` establishes the registry's invariant and
/// every operation preserves it, so this holds after any sequence of
/// operations.
pub proof fn lemma_escrow_equals_pending(reg: &Registry)
    requires
        reg.wf(),
    ensures
        reg.ledger.escrow == pending_total(reg.requests@),
{
}

/// Once a request has been approved or denied, a further `approve_access` or
/// `deny_access` by its owner fails with `InvalidStatus`; a failed operation
/// leaves every record and balance as it was.
pub proof fn lemma_resolution_is_single_fire(
    before: &Registry,
    after: &Registry,
    synid: u64,
    requester: u64,
    status: AccessStatus,
    now: i64,
)
    requires
        before.wf(),
        after.wf(),
        before.has_request(synid, requester),
        status != AccessStatus::Pending,
        after.requests@ == before.requests@.update(
            before.request_index(synid, requester),
            AccessRequest { status, ..before.request_of(synid, requester) },
        ),
        after.identities@.contains_key(synid),
    ensures
        after.has_request(synid, requester),
        after.request_of(synid, requester).status == status,
        approve_access_error(after, &ApproveAccess { synid, owner: synid, requester, now })
            == Some(SynidError::InvalidStatus),
        deny_access_error(after, &DenyAccess { synid, owner: synid, requester, now })
            == Some(SynidError::InvalidStatus),
{
    let i = before.request_index(synid, requester);
    assert(request_key_is(after.requests@[i], synid, requester));
    let j = after.request_index(synid, requester);
    assert(j == i) by {
        if j < i {
            assert(!request_key_is(after.requests@[j], after.requests@[i].synid, after.requests@[i].requester));
        } else if j > i {
            assert(!request_key_is(after.requests@[i], after.requests@[j].synid, after.requests@[j].requester));
        }
    }
}

/// Approving a pending, unexpired request succeeds when the owner signs and
/// neither the identity's counters nor the owner's and the treasury's
/// balances would leave the range of `u64`; the grant it makes is active.
pub proof fn lemma_first_approval_succeeds(reg: &Registry, synid: u64, requester: u64, now: i64)
    requires
        reg.wf(),
        reg.identities@.contains_key(synid),
        reg.has_request(synid, requester),
        reg.request_of(synid, requester).status == AccessStatus::Pending,
        now < reg.request_of(synid, requester).expires_at,
        reg.identities@[synid].access_count < u64::MAX,
        reg.identities@[synid].total_earnings + reg.request_of(synid, requester).offered_payment <= u64::MAX,
        reg.ledger.settle_fits(synid, reg.config.treasury, reg.request_of(synid, requester).offered_payment as int),
    ensures
        approve_access_error(reg, &ApproveAccess { synid, owner: synid, requester, now }) is None,
{
}

/// A request that has been approved or denied no longer holds its slot: a
/// new request for the same pair is not refused as a duplicate.
pub proof fn lemma_resolved_request_frees_slot(
    reg: &Registry,
    ctx: &RequestAccess,
    n_fields: int,
    offered_payment: u64,
    expires_at: i64,
)
    requires
        reg.wf(),
        reg.has_request(ctx.synid, ctx.requester),
        reg.request_of(ctx.synid, ctx.requester).status != AccessStatus::Pending,
    ensures
        request_access_error(reg, ctx, n_fields, offered_payment, expires_at) != Some(SynidError::RequestExists),
{
}

/// Denying a request gives the requester back exactly what the request
/// took: the balance returns to its value before the request, and every
/// other balance too.
pub proof fn lemma_deny_restores_balance(
    before_request: &Ledger,
    after_request: &Ledger,
    after_deny: &Ledger,
    requester: u64,
    payment: int,
)
    requires
        before_request.moved(after_request, |k: u64| if k == requester { -payment } else { 0 }),
        after_request.moved(after_deny, |k: u64| if k == requester { payment } else { 0 }),
    ensures
        forall|k: u64| #[trigger] after_deny.balance_of(k) == before_request.balance_of(k),
{
    assert forall|k: u64| #[trigger] after_deny.balance_of(k) == before_request.balance_of(k) by {
        assert(after_request.balance_of(k) == before_request.balance_of(k) + (if k == requester { -payment } else { 0 }));
    }
}

/// Settling a payment with an owner distinct from the treasury credits the
/// treasury `floor(payment * 5 / 100)` and the owner the rest, the two
/// credits summing to exactly the payment; every other balance, the
/// requester's included when it is neither, stays as it was.
pub proof fn lemma_settlement_split(before: &Ledger, after: &Ledger, owner: u64, treasury: u64, payment: int)
    requires
        owner != treasury,
        0 <= payment,
        before.moved(after, |k: u64| Ledger::settle_credit(k, owner, treasury, payment)),
    ensures
        forall|k: u64| k != owner && k != treasury ==> #[trigger] after.balance_of(k) == before.balance_of(k),
        after.balance_of(treasury) == before.balance_of(treasury) + payment * 5 / 100,
        after.balance_of(owner) == before.balance_of(owner) + payment - payment * 5 / 100,
        (after.balance_of(treasury) - before.balance_of(treasury)) + (after.balance_of(owner)
            - before.balance_of(owner)) == payment,
        0 <= platform_fee_of(payment) <= owner_share_of(payment),
{
    assert forall|k: u64| k != owner && k != treasury implies #[trigger] after.balance_of(k) == before.balance_of(k) by {
        assert(after.balance_of(k) == before.balance_of(k) + Ledger::settle_credit(k, owner, treasury, payment));
    }
    assert(after.balance_of(treasury) == before.balance_of(treasury) + Ledger::settle_credit(treasury, owner, treasury, payment));
    assert(after.balance_of(owner) == before.balance_of(owner) + Ledger::settle_credit(owner, owner, treasury, payment));
    assert(0 <= payment * 5 / 100 <= payment - payment * 5 / 100) by (nonlinear_arith)
        requires 0 <= payment;
}

/// Sequence numbers are never reused: the one a new identity takes, the
/// mint counter's current value, differs from that of every stored identity.
pub proof fn lemma_sequence_ids_fresh(reg: &Registry, owner: u64)
    requires
        reg.wf(),
        reg.identities@.contains_key(owner),
    ensures
        reg.identities@[owner].token_id != reg.config.mint_count,
{
}

/// Whatever the delta, an adjusted score stays within [0, 1000].
pub proof fn lemma_score_stays_in_range(score: int, delta: int)
    ensures
        0 <= clamped_score(score, delta) <= MAX_REPUTATION,
{
}

/// No identity in a well-formed registry has a score above 1000.
pub proof fn lemma_scores_bounded(reg: &Registry, owner: u64)
    requires
        reg.wf(),
        reg.identities@.contains_key(owner),
    ensures
        reg.identities@[owner].reputation_score <= MAX_REPUTATION,
{
}

/// Once a grant has been revoked, revoking it again fails with
/// `AlreadyRevoked` (and a failed revoke changes nothing).
pub proof fn lemma_revoke_twice_fails(before: &Registry, after: &Registry, synid: u64, requester: u64, now: i64)
    requires
        before.wf(),
        after.wf(),
        before.has_grant(synid, requester),
        after.grants@ == before.grants@.update(
            before.grant_index(synid, requester),
            AccessGrant { active: false, ..before.grant_of(synid, requester) },
        ),
        after.identities@.contains_key(synid),
    ensures
        revoke_access_error(after, &RevokeAccess { synid, owner: synid, requester, now })
            == Some(SynidError::AlreadyRevoked),
{
    let i = before.grant_index(synid, requester);
    assert(grant_key_is(after.grants@[i], synid, requester));
    let j = after.grant_index(synid, requester);
    assert(j == i) by {
        if j < i {
            assert(!grant_key_is(after.grants@[j], after.grants@[i].synid, after.grants@[i].requester));
        } else if j > i {
            assert(!grant_key_is(after.grants@[i], after.grants@[j].synid, after.grants@[j].requester));
        }
    }
}

} // verus!

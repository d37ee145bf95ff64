use std::collections::HashMap;
use vstd::prelude::*;

use crate::error::SynidError;
use crate::escrow::pending_total;
use crate::ledger::{credit_to, Ledger};
use crate::state::{AccessGrant, AccessRequest, AccessStatus, Config, SynidAccount, MAX_REPUTATION};

verus! {

broadcast use vstd::std_specs::hash::group_hash_axioms;

/// All records of the registry, keyed as follows: identities by owner,
/// requests and grants by (identity owner, requester).
pub struct Registry {
    pub config: Config,
    pub ledger: Ledger,
    pub identities: HashMap<u64, SynidAccount>,
    pub requests: Vec<AccessRequest>,
    pub grants: Vec<AccessGrant>,
}

/// Whether request `r` is the one of `requester` on the identity `synid`.
pub open spec fn request_key_is(r: AccessRequest, synid: u64, requester: u64) -> bool {
    r.synid == synid && r.requester == requester
}

/// Whether grant `g` is the one of `requester` on the identity `synid`.
pub open spec fn grant_key_is(g: AccessGrant, synid: u64, requester: u64) -> bool {
    g.synid == synid && g.requester == requester
}

/// No two requests of `rs` share a key.
pub open spec fn request_keys_unique(rs: Seq<AccessRequest>) -> bool {
    forall|i: int, j: int|
        0 <= i < j < rs.len() ==> !request_key_is(#[trigger] rs[i], rs[j].synid, #[trigger] rs[j].requester)
}

/// No two grants of `gs` share a key.
pub open spec fn grant_keys_unique(gs: Seq<AccessGrant>) -> bool {
    forall|i: int, j: int|
        0 <= i < j < gs.len() ==> !grant_key_is(#[trigger] gs[i], gs[j].synid, #[trigger] gs[j].requester)
}

/// Requests that keep their keys in place keep them unique.
pub proof fn lemma_request_keys_kept(before: Seq<AccessRequest>, after: Seq<AccessRequest>)
    requires
        request_keys_unique(before),
        after.len() == before.len(),
        forall|i: int| 0 <= i < before.len() ==> #[trigger] after[i].synid == before[i].synid
            && after[i].requester == before[i].requester,
    ensures
        request_keys_unique(after),
{
    assert forall|i: int, j: int| 0 <= i < j < after.len() implies !request_key_is(
        #[trigger] after[i],
        after[j].synid,
        #[trigger] after[j].requester,
    ) by {
        assert(after[i].synid == before[i].synid);
        assert(after[j].synid == before[j].synid);
        assert(!request_key_is(before[i], before[j].synid, before[j].requester));
    }
}

/// Grants that keep their keys in place keep them unique.
pub proof fn lemma_grant_keys_kept(before: Seq<AccessGrant>, after: Seq<AccessGrant>)
    requires
        grant_keys_unique(before),
        after.len() == before.len(),
        forall|i: int| 0 <= i < before.len() ==> #[trigger] after[i].synid == before[i].synid
            && after[i].requester == before[i].requester,
    ensures
        grant_keys_unique(after),
{
    assert forall|i: int, j: int| 0 <= i < j < after.len() implies !grant_key_is(
        #[trigger] after[i],
        after[j].synid,
        #[trigger] after[j].requester,
    ) by {
        assert(after[i].synid == before[i].synid);
        assert(after[j].synid == before[j].synid);
        assert(!grant_key_is(before[i], before[j].synid, before[j].requester));
    }
}

/// Appending a request whose key is new keeps keys unique.
pub proof fn lemma_request_keys_push(rs: Seq<AccessRequest>, r: AccessRequest)
    requires
        request_keys_unique(rs),
        forall|i: int| 0 <= i < rs.len() ==> !#[trigger] request_key_is(rs[i], r.synid, r.requester),
    ensures
        request_keys_unique(rs.push(r)),
{
    let after = rs.push(r);
    assert forall|i: int, j: int| 0 <= i < j < after.len() implies !request_key_is(
        #[trigger] after[i],
        after[j].synid,
        #[trigger] after[j].requester,
    ) by {
        assert(after[i] == rs[i]);
        if j < rs.len() {
            assert(after[j] == rs[j]);
        }
    }
}

/// Appending a grant whose key is new keeps keys unique.
pub proof fn lemma_grant_keys_push(gs: Seq<AccessGrant>, g: AccessGrant)
    requires
        grant_keys_unique(gs),
        forall|i: int| 0 <= i < gs.len() ==> !#[trigger] grant_key_is(gs[i], g.synid, g.requester),
    ensures
        grant_keys_unique(gs.push(g)),
{
    let after = gs.push(g);
    assert forall|i: int, j: int| 0 <= i < j < after.len() implies !grant_key_is(
        #[trigger] after[i],
        after[j].synid,
        #[trigger] after[j].requester,
    ) by {
        assert(after[i] == gs[i]);
        if j < gs.len() {
            assert(after[j] == gs[j]);
        }
    }
}

/// In a well-formed registry the request stored at `i` is the one that its
/// key finds.
pub proof fn lemma_request_index_at(reg: &Registry, i: int)
    requires
        reg.wf(),
        0 <= i < reg.requests@.len(),
    ensures
        reg.has_request(reg.requests@[i].synid, reg.requests@[i].requester),
        reg.request_index(reg.requests@[i].synid, reg.requests@[i].requester) == i,
{
    let r = reg.requests@[i];
    assert(request_key_is(reg.requests@[i], r.synid, r.requester));
    let c = reg.request_index(r.synid, r.requester);
    if c < i {
        assert(!request_key_is(reg.requests@[c], r.synid, r.requester));
    } else if c > i {
        assert(!request_key_is(reg.requests@[i], reg.requests@[c].synid, reg.requests@[c].requester));
    }
}

impl Registry {
    /// The registry's invariant: escrow holds exactly the payments of the
    /// pending requests, request and grant keys are unique, each identity is
    /// stored under its owner, every reputation score lies in [0, 1000], and
    /// every sequence number was taken from the mint counter before its
    /// current value, no two identities sharing one.
    pub open spec fn wf(&self) -> bool {
        &&& self.ledger.escrow == pending_total(self.requests@)
        &&& request_keys_unique(self.requests@)
        &&& grant_keys_unique(self.grants@)
        &&& forall|k: u64| #[trigger] self.identities@.contains_key(k) ==> {
            &&& self.identities@[k].owner == k
            &&& self.identities@[k].reputation_score <= MAX_REPUTATION
            &&& self.identities@[k].token_id < self.config.mint_count
        }
        &&& forall|a: u64, b: u64|
            #[trigger] self.identities@.contains_key(a) && #[trigger] self.identities@.contains_key(b) && a != b
                ==> self.identities@[a].token_id != self.identities@[b].token_id
    }

    /// Whether a request on the identity `synid` is pending.
    pub open spec fn has_pending_on(&self, synid: u64) -> bool {
        exists|i: int| 0 <= i < self.requests@.len() && (#[trigger] self.requests@[i]).synid == synid
            && self.requests@[i].status == AccessStatus::Pending
    }

    /// Whether any request or grant names the identity `synid`.
    pub open spec fn has_records_on(&self, synid: u64) -> bool {
        ||| exists|i: int| 0 <= i < self.requests@.len() && (#[trigger] self.requests@[i]).synid == synid
        ||| exists|j: int| 0 <= j < self.grants@.len() && (#[trigger] self.grants@[j]).synid == synid
    }

    /// Whether a request on the identity `synid` is pending.
    pub fn any_pending_on(&self, synid: u64) -> (r: bool)
        ensures
            r == self.has_pending_on(synid),
    {
        let mut i: usize = 0;
        while i < self.requests.len()
            invariant
                i <= self.requests@.len(),
                forall|j: int| 0 <= j < i ==> !((#[trigger] self.requests@[j]).synid == synid
                    && self.requests@[j].status == AccessStatus::Pending),
            decreases self.requests@.len() - i,
        {
            if self.requests[i].synid == synid && self.requests[i].status == AccessStatus::Pending {
                return true;
            }
            i = i + 1;
        }
        false
    }

    /// Whether any request or grant names the identity `synid`.
    pub fn any_records_on(&self, synid: u64) -> (r: bool)
        ensures
            r == self.has_records_on(synid),
    {
        let mut i: usize = 0;
        while i < self.requests.len()
            invariant
                i <= self.requests@.len(),
                forall|j: int| 0 <= j < i ==> (#[trigger] self.requests@[j]).synid != synid,
            decreases self.requests@.len() - i,
        {
            if self.requests[i].synid == synid {
                return true;
            }
            i = i + 1;
        }
        let mut k: usize = 0;
        while k < self.grants.len()
            invariant
                k <= self.grants@.len(),
                forall|j: int| 0 <= j < self.requests@.len() ==> (#[trigger] self.requests@[j]).synid != synid,
                forall|j: int| 0 <= j < k ==> (#[trigger] self.grants@[j]).synid != synid,
            decreases self.grants@.len() - k,
        {
            if self.grants[k].synid == synid {
                return true;
            }
            k = k + 1;
        }
        false
    }

    pub open spec fn has_request(&self, synid: u64, requester: u64) -> bool {
        exists|i: int| 0 <= i < self.requests@.len() && #[trigger] request_key_is(self.requests@[i], synid, requester)
    }

    /// Where the request of `requester` on `synid` stands, if it exists.
    pub open spec fn request_index(&self, synid: u64, requester: u64) -> int {
        choose|i: int| 0 <= i < self.requests@.len() && #[trigger] request_key_is(self.requests@[i], synid, requester)
    }

    pub open spec fn request_of(&self, synid: u64, requester: u64) -> AccessRequest {
        self.requests@[self.request_index(synid, requester)]
    }

    pub open spec fn has_grant(&self, synid: u64, requester: u64) -> bool {
        exists|i: int| 0 <= i < self.grants@.len() && #[trigger] grant_key_is(self.grants@[i], synid, requester)
    }

    /// Where the grant of `requester` on `synid` stands, if it exists.
    pub open spec fn grant_index(&self, synid: u64, requester: u64) -> int {
        choose|i: int| 0 <= i < self.grants@.len() && #[trigger] grant_key_is(self.grants@[i], synid, requester)
    }

    pub open spec fn grant_of(&self, synid: u64, requester: u64) -> AccessGrant {
        self.grants@[self.grant_index(synid, requester)]
    }

    /// Finds the request of `requester` on `synid`.
    pub fn find_request(&self, synid: u64, requester: u64) -> (r: Option<usize>)
        requires
            self.wf(),
        ensures
            r is None <==> !self.has_request(synid, requester),
            r is Some ==> r->Some_0 == self.request_index(synid, requester)
                && request_key_is(self.requests@[r->Some_0 as int], synid, requester),
    {
        let mut i: usize = 0;
        while i < self.requests.len()
            invariant
                self.wf(),
                i <= self.requests@.len(),
                forall|j: int| 0 <= j < i ==> !#[trigger] request_key_is(self.requests@[j], synid, requester),
            decreases self.requests@.len() - i,
        {
            if self.requests[i].synid == synid && self.requests[i].requester == requester {
                proof {
                    let c = self.request_index(synid, requester);
                    assert(request_key_is(self.requests@[i as int], synid, requester));
                    assert(c == i) by {
                        if c < i {
                            assert(!request_key_is(self.requests@[c], self.requests@[i as int].synid, self.requests@[i as int].requester));
                        } else if c > i {
                            assert(!request_key_is(self.requests@[i as int], self.requests@[c].synid, self.requests@[c].requester));
                        }
                    }
                }
                return Some(i);
            }
            i = i + 1;
        }
        None
    }

    /// Finds the grant of `requester` on `synid`.
    pub fn find_grant(&self, synid: u64, requester: u64) -> (r: Option<usize>)
        requires
            self.wf(),
        ensures
            r is None <==> !self.has_grant(synid, requester),
            r is Some ==> r->Some_0 == self.grant_index(synid, requester)
                && grant_key_is(self.grants@[r->Some_0 as int], synid, requester),
    {
        let mut i: usize = 0;
        while i < self.grants.len()
            invariant
                self.wf(),
                i <= self.grants@.len(),
                forall|j: int| 0 <= j < i ==> !#[trigger] grant_key_is(self.grants@[j], synid, requester),
            decreases self.grants@.len() - i,
        {
            if self.grants[i].synid == synid && self.grants[i].requester == requester {
                proof {
                    let c = self.grant_index(synid, requester);
                    assert(grant_key_is(self.grants@[i as int], synid, requester));
                    assert(c == i) by {
                        if c < i {
                            assert(!grant_key_is(self.grants@[c], self.grants@[i as int].synid, self.grants@[i as int].requester));
                        } else if c > i {
                            assert(!grant_key_is(self.grants@[i as int], self.grants@[c].synid, self.grants@[c].requester));
                        }
                    }
                }
                return Some(i);
            }
            i = i + 1;
        }
        None
    }

    /// The identity record of `owner`, if any.
    pub fn identity(&self, owner: u64) -> (r: Option<&SynidAccount>)
        ensures
            r is Some <==> self.identities@.contains_key(owner),
            r is Some ==> *r->Some_0 == self.identities@[owner],
    {
        self.identities.get(&owner)
    }

    /// The request of `requester` on the identity `synid`, if any.
    pub fn request(&self, synid: u64, requester: u64) -> (r: Option<&AccessRequest>)
        requires
            self.wf(),
        ensures
            r is Some <==> self.has_request(synid, requester),
            r is Some ==> *r->Some_0 == self.request_of(synid, requester),
    {
        match self.find_request(synid, requester) {
            Some(i) => Some(&self.requests[i]),
            None => None,
        }
    }

    /// The grant of `requester` on the identity `synid`, if any.
    pub fn grant(&self, synid: u64, requester: u64) -> (r: Option<&AccessGrant>)
        requires
            self.wf(),
        ensures
            r is Some <==> self.has_grant(synid, requester),
            r is Some ==> *r->Some_0 == self.grant_of(synid, requester),
    {
        match self.find_grant(synid, requester) {
            Some(i) => Some(&self.grants[i]),
            None => None,
        }
    }

    /// The spendable balance of party `k`.
    pub fn balance(&self, k: u64) -> (r: u64)
        ensures
            r == self.ledger.balance_of(k),
    {
        self.ledger.balance(k)
    }

    /// What the pooled escrow holds.
    pub fn escrow_balance(&self) -> (r: u64)
        ensures
            r == self.ledger.escrow,
    {
        self.ledger.escrow
    }

    /// Funds party `to` with `amount` from outside the registry.
    pub fn deposit(&mut self, to: u64, amount: u64) -> (r: Result<(), SynidError>)
        requires
            old(self).wf(),
        ensures
            final(self).wf(),
            r is Err <==> old(self).ledger.balance_of(to) + amount > u64::MAX,
            r is Err ==> r == Err::<(), SynidError>(SynidError::Overflow) && *final(self) == *old(self),
            r is Ok ==> final(self).ledger.escrow == old(self).ledger.escrow
                && old(self).ledger.moved(&final(self).ledger, |k: u64| credit_to(k, to, amount as int)),
            final(self).config == old(self).config,
            final(self).identities == old(self).identities,
            final(self).requests == old(self).requests,
            final(self).grants == old(self).grants,
    {
        self.ledger.deposit(to, amount)
    }
}

} // verus!

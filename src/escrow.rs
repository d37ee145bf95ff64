use vstd::prelude::*;

use crate::state::{AccessRequest, AccessStatus};

verus! {

/// What a request holds in escrow: its payment while it is pending, else nothing.
pub open spec fn held_by(r: AccessRequest) -> int {
    if r.status == AccessStatus::Pending { r.offered_payment as int } else { 0 }
}

/// The sum of what all requests in `rs` hold in escrow.
pub open spec fn pending_total(rs: Seq<AccessRequest>) -> int
    decreases rs.len(),
{
    if rs.len() == 0 {
        0
    } else {
        pending_total(rs.drop_last()) + held_by(rs.last())
    }
}

/// Appending a request adds what it holds.
pub proof fn lemma_pending_total_push(rs: Seq<AccessRequest>, r: AccessRequest)
    ensures
        pending_total(rs.push(r)) == pending_total(rs) + held_by(r),
{
    assert(rs.push(r).drop_last() =~= rs);
}

/// The total is never negative, and covers what any one request holds.
pub proof fn lemma_pending_total_covers(rs: Seq<AccessRequest>, i: int)
    requires
        0 <= i < rs.len(),
    ensures
        0 <= held_by(rs[i]) <= pending_total(rs),
    decreases rs.len(),
{
    lemma_pending_total_nonneg(rs.drop_last());
    if i < rs.len() - 1 {
        lemma_pending_total_covers(rs.drop_last(), i);
    }
}

/// The total is never negative.
pub proof fn lemma_pending_total_nonneg(rs: Seq<AccessRequest>)
    ensures
        0 <= pending_total(rs),
    decreases rs.len(),
{
    if rs.len() > 0 {
        lemma_pending_total_nonneg(rs.drop_last());
    }
}

/// Replacing one request changes the total by the difference of what the
/// old and the new request hold.
pub proof fn lemma_pending_total_update(rs: Seq<AccessRequest>, i: int, r: AccessRequest)
    requires
        0 <= i < rs.len(),
    ensures
        pending_total(rs.update(i, r)) == pending_total(rs) - held_by(rs[i]) + held_by(r),
    decreases rs.len(),
{
    let n = rs.len();
    if i == n - 1 {
        assert(rs.update(i, r).drop_last() =~= rs.drop_last());
    } else {
        assert(rs.update(i, r).drop_last() =~= rs.drop_last().update(i, r));
        lemma_pending_total_update(rs.drop_last(), i, r);
    }
}

} // verus!

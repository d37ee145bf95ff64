use std::collections::HashMap;
use vstd::prelude::*;

use crate::accounts::{Initialize, UpdateConfig, WithdrawTreasury};
use crate::error::SynidError;
use crate::ledger::{credit_to, Ledger};
use crate::registry::Registry;
use crate::state::{Config, SynidAccount};

verus! {

broadcast use vstd::std_specs::hash::group_hash_axioms;

/// Creates an empty registry with the given price and fee, not paused.
pub fn initialize(ctx: &Initialize, mint_price: u64, access_fee: u64) -> (r: Registry)
    ensures
        r.wf(),
        r.config == (Config {
            authority: ctx.authority,
            mint_count: 0,
            mint_price,
            access_fee,
            treasury: ctx.treasury,
            paused: false,
            total_revenue: 0,
        }),
        r.ledger.escrow == 0,
        forall|k: u64| #[trigger] r.ledger.balance_of(k) == 0,
        r.identities@ == Map::<u64, SynidAccount>::empty(),
        r.requests@.len() == 0,
        r.grants@.len() == 0,
{
    let r = Registry {
        config: Config {
            authority: ctx.authority,
            mint_count: 0,
            mint_price,
            access_fee,
            treasury: ctx.treasury,
            paused: false,
            total_revenue: 0,
        },
        ledger: Ledger::new(),
        identities: HashMap::new(),
        requests: Vec::new(),
        grants: Vec::new(),
    };
    proof {
        assert(r.identities@ =~= Map::<u64, SynidAccount>::empty());
    }
    r
}

/// The authority replaces the mint price, the access fee and the pause
/// flag, each where given.
pub fn update_config(
    reg: &mut Registry,
    ctx: &UpdateConfig,
    mint_price: Option<u64>,
    access_fee: Option<u64>,
    paused: Option<bool>,
) -> (r: Result<(), SynidError>)
    requires
        old(reg).wf(),
    ensures
        final(reg).wf(),
        ctx.authority != old(reg).config.authority ==> r == Err::<(), SynidError>(SynidError::Unauthorized)
            && *final(reg) == *old(reg),
        ctx.authority == old(reg).config.authority ==> {
            &&& r is Ok
            &&& final(reg).config == (Config {
                mint_price: match mint_price {
                    Some(p) => p,
                    None => old(reg).config.mint_price,
                },
                access_fee: match access_fee {
                    Some(f) => f,
                    None => old(reg).config.access_fee,
                },
                paused: match paused {
                    Some(p) => p,
                    None => old(reg).config.paused,
                },
                ..old(reg).config
            })
            &&& final(reg).ledger == old(reg).ledger
            &&& final(reg).identities == old(reg).identities
            &&& final(reg).requests == old(reg).requests
            &&& final(reg).grants == old(reg).grants
        },
{
    if ctx.authority != reg.config.authority {
        return Err(SynidError::Unauthorized);
    }
    if let Some(p) = mint_price {
        reg.config.mint_price = p;
    }
    if let Some(f) = access_fee {
        reg.config.access_fee = f;
    }
    if let Some(p) = paused {
        reg.config.paused = p;
    }
    Ok(())
}

/// The authority moves `amount` from the treasury's balance to its own.
pub fn withdraw_treasury(reg: &mut Registry, ctx: &WithdrawTreasury, amount: u64) -> (r: Result<(), SynidError>)
    requires
        old(reg).wf(),
    ensures
        final(reg).wf(),
        ctx.authority != old(reg).config.authority ==> r == Err::<(), SynidError>(SynidError::Unauthorized),
        ctx.authority == old(reg).config.authority ==> {
            let treasury = old(reg).config.treasury;
            &&& (r == Err::<(), SynidError>(SynidError::InsufficientFunds)
                <==> old(reg).ledger.balance_of(treasury) < amount)
            &&& (r == Err::<(), SynidError>(SynidError::Overflow)
                <==> old(reg).ledger.balance_of(treasury) >= amount && treasury != ctx.authority
                    && old(reg).ledger.balance_of(ctx.authority) + amount > u64::MAX)
            &&& r is Ok ==> final(reg).ledger.escrow == old(reg).ledger.escrow
                && old(reg).ledger.moved(
                    &final(reg).ledger,
                    |k: u64| credit_to(k, ctx.authority, amount as int) - credit_to(k, treasury, amount as int),
                )
        },
        r is Ok <==> ctx.authority == old(reg).config.authority
            && old(reg).ledger.balance_of(old(reg).config.treasury) >= amount
            && !(old(reg).config.treasury != ctx.authority
                && old(reg).ledger.balance_of(ctx.authority) + amount > u64::MAX),
        r is Err ==> *final(reg) == *old(reg),
        final(reg).config == old(reg).config,
        final(reg).identities == old(reg).identities,
        final(reg).requests == old(reg).requests,
        final(reg).grants == old(reg).grants,
{
    if ctx.authority != reg.config.authority {
        return Err(SynidError::Unauthorized);
    }
    let treasury = reg.config.treasury;
    reg.ledger.transfer(treasury, ctx.authority, amount)
}

} // verus!

//! Facts that relate the operations to each other, stated once and proved
//! for every input, not just the ones a test happens to pick.

use vstd::prelude::*;

use crate::ledger::Ledger;
use crate::ledger::interval_seconds;
use crate::ledger::renew_start;
use crate::ledger::status_in;
use crate::ledger::token_transfer;
use crate::ledger::token_transfer_err;
use crate::state::TokenAccount;

verus! {

/// The total balance held across a store of token accounts.
pub open spec fn total_tokens(accounts: Seq<TokenAccount>) -> int
    decreases accounts.len(),
{
    if accounts.len() == 0 {
        0
    } else {
        accounts.last().amount + total_tokens(accounts.drop_last())
    }
}

/// Replacing one account changes the total by the difference of the two
/// balances.
proof fn lemma_total_tokens_update(accounts: Seq<TokenAccount>, i: int, v: TokenAccount)
    requires
        0 <= i < accounts.len(),
    ensures
        total_tokens(accounts.update(i, v)) == total_tokens(accounts) - accounts[i].amount
            + v.amount,
    decreases accounts.len(),
{
    if i == accounts.len() - 1 {
        assert(accounts.update(i, v).drop_last() =~= accounts.drop_last());
    } else {
        lemma_total_tokens_update(accounts.drop_last(), i, v);
        assert(accounts.update(i, v).drop_last() =~= accounts.drop_last().update(i, v));
    }
}

/// A transfer the token collaborator accepts moves tokens, it never makes
/// or destroys them: the total balance across all accounts is the same
/// before and after, whether or not source and destination coincide.
pub proof fn lemma_transfer_conserves_tokens(
    accounts: Seq<TokenAccount>,
    from: int,
    to: int,
    amount: u64,
)
    requires
        0 <= from < accounts.len(),
        0 <= to < accounts.len(),
        token_transfer_err(accounts, from, to, amount) is None,
    ensures
        total_tokens(token_transfer(accounts, from, to, amount)) == total_tokens(accounts),
{
    let debit = accounts[from].with_amount((accounts[from].amount - amount) as u64);
    let debited = accounts.update(from, debit);
    lemma_total_tokens_update(accounts, from, debit);
    lemma_total_tokens_update(debited, to, debited[to].with_amount(
        (debited[to].amount + amount) as u64,
    ));
}

/// Renewing never shortens paid coverage. Whatever the old expiry, the
/// renewed expiry lies at least one full interval past `now` and never
/// before the old expiry; and while the entitlement is still active
/// (`end > now`) the renewal extends exactly one interval from the old
/// expiry, never from `now`.
pub proof fn lemma_renew_never_shortens(end: i64, now: i64, interval: u64)
    ensures
        renew_start(end, now) + interval_seconds(interval) >= now + interval_seconds(interval),
        renew_start(end, now) + interval_seconds(interval) >= end,
        end > now ==> renew_start(end, now) + interval_seconds(interval) == end + interval_seconds(
            interval,
        ),
{
    assert(interval_seconds(interval) >= 0) by (nonlinear_arith);
}

/// A service's pause state cannot change any subscriber's status. `pause`
/// and `unpause` promise to leave the entitlement records untouched, and
/// `check_status` answers from those records alone, so across any two
/// ledgers with the same records — in particular, a ledger before and after
/// a pause — it answers the same for every subscriber at every time.
pub proof fn lemma_status_unaffected_by_pause(
    pre: Ledger,
    post: Ledger,
    plan_h: usize,
    subscriber: u64,
    now: i64,
)
    requires
        post.subscribers@ == pre.subscribers@,
    ensures
        status_in(post.subscribers@, plan_h, subscriber, now) == status_in(
            pre.subscribers@,
            plan_h,
            subscriber,
            now,
        ),
{
}

} // verus!

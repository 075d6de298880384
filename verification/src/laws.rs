use vstd::prelude::*;

use crate::contract::{burn_post, mint_post, transfer_post, Event};
use crate::error::ContractError;
use crate::state::{lemma_balance_le_sum, sum_balances, Ledger};

verus! {

/// Conservation: in every well-formed ledger the circulating supply
/// equals the sum of all account balances.
pub proof fn lemma_conservation(l: Ledger)
    requires
        l.wf(),
    ensures
        sum_balances(l.balances@) == l.config.total_supply as int,
{
}

/// Cap bound: in every well-formed ledger the circulating supply never
/// exceeds the cap.
pub proof fn lemma_cap_bound(l: Ledger)
    requires
        l.wf(),
    ensures
        l.config.total_supply <= l.config.cap,
{
}

/// No negative balances: every account's balance is a non-negative
/// amount, and it never exceeds the circulating supply.
pub proof fn lemma_balance_in_range(l: Ledger, a: Seq<char>)
    requires
        l.wf(),
    ensures
        0 <= l.balance_of(a) as int <= l.config.total_supply as int,
{
    lemma_balance_le_sum(l.balances@, a);
}

/// Self-transfer idempotence: a transfer from an account to itself that
/// succeeds leaves that account's balance — and every other — unchanged,
/// and the total supply too.
pub proof fn lemma_self_transfer_identity(
    pre: Ledger,
    post: Ledger,
    account: String,
    amount: u128,
    r: Result<Event, ContractError>,
)
    requires
        transfer_post(pre, post, account, Some(account), amount, r),
        r is Ok,
    ensures
        post.balance_of(account@) == pre.balance_of(account@),
        forall|a: Seq<char>| post.balance_of(a) == pre.balance_of(a),
        post.config.total_supply == pre.config.total_supply,
{
}

/// Zero-amount rejection: transfer, burn and mint of amount zero each
/// fail with `InvalidZeroAmount` and leave the ledger exactly as it was.
pub proof fn lemma_zero_amount_rejected(
    pre: Ledger,
    sender: String,
    recipient: Option<String>,
    post_t: Ledger,
    r_t: Result<Event, ContractError>,
    post_b: Ledger,
    r_b: Result<Event, ContractError>,
    post_m: Ledger,
    r_m: Result<Event, ContractError>,
)
    requires
        transfer_post(pre, post_t, sender, recipient, 0, r_t),
        burn_post(pre, post_b, sender, 0, r_b),
        mint_post(pre, post_m, sender, recipient, 0, r_m),
    ensures
        r_t == Err::<Event, ContractError>(ContractError::InvalidZeroAmount) && post_t == pre,
        r_b == Err::<Event, ContractError>(ContractError::InvalidZeroAmount) && post_b == pre,
        r_m == Err::<Event, ContractError>(ContractError::InvalidZeroAmount) && post_m == pre,
{
}

/// Unauthorized mint rejection: a mint whose caller is not the designated
/// minter fails with `Unauthorized` and leaves the ledger exactly as it
/// was.
pub proof fn lemma_unauthorized_mint_rejected(
    pre: Ledger,
    post: Ledger,
    sender: String,
    recipient: Option<String>,
    amount: u128,
    r: Result<Event, ContractError>,
)
    requires
        mint_post(pre, post, sender, recipient, amount, r),
        amount > 0,
        sender@ != pre.minter@,
    ensures
        r == Err::<Event, ContractError>(ContractError::Unauthorized),
        post == pre,
{
}

} // verus!

use vstd::prelude::*;

use crate::error::ContractError;
use crate::msg::{ExecuteMsg, InstantiateMsg, QueryMsg};
use crate::state::{
    balance_in, contains_key, lemma_balance_absent, lemma_balance_found, lemma_balance_le_sum,
    lemma_push_entry, lemma_set_amount, Ledger, TokenConfig,
};

verus! {

/// The observable record a mutating operation emits for external
/// audit and indexing. Advisory: no invariant rests on it.
#[derive(Debug, Clone, PartialEq, Eq)]
pub enum Event {
    Instantiated { minter: String },
    Transferred { from: String, to: String, amount: u128 },
    Burned { from: String, amount: u128 },
    Minted { to: String, amount: u128 },
}

/// Index of the first balance entry keyed by `addr`, if any.
fn find_account(balances: &Vec<(String, u128)>, addr: &String) -> (r: Option<usize>)
    ensures
        match r {
            Some(i) => {
                &&& i < balances@.len()
                &&& balances@[i as int].0@ == addr@
                &&& contains_key(balances@, addr@)
                &&& balance_in(balances@, addr@) == balances@[i as int].1
                &&& forall|j: int| 0 <= j < i ==> balances@[j].0@ != addr@
            },
            None => {
                &&& !contains_key(balances@, addr@)
                &&& balance_in(balances@, addr@) == 0
            },
        },
{
    let mut i: usize = 0;
    while i < balances.len()
        invariant
            i <= balances@.len(),
            forall|j: int| 0 <= j < i ==> balances@[j].0@ != addr@,
        decreases balances@.len() - i,
    {
        if balances[i].0 == *addr {
            proof {
                lemma_balance_found(balances@, addr@, i as int);
            }
            return Some(i);
        }
        i = i + 1;
    }
    proof {
        lemma_balance_absent(balances@, addr@);
    }
    None
}

/// Creates a zero-amount balance entry for `addr` when none exists yet,
/// so that later updates find one. No balance, nor the configuration,
/// changes.
fn sync_up_new_address(ledger: &mut Ledger, addr: &String)
    requires
        old(ledger).wf(),
    ensures
        final(ledger).wf(),
        final(ledger).config == old(ledger).config,
        final(ledger).minter == old(ledger).minter,
        final(ledger).has_account(addr@),
        forall|a: Seq<char>| final(ledger).balance_of(a) == old(ledger).balance_of(a),
        forall|a: Seq<char>| old(ledger).has_account(a) ==> final(ledger).has_account(a),
{
    match find_account(&ledger.balances, addr) {
        Some(_) => {},
        None => {
            let key = addr.clone();
            proof {
                lemma_push_entry(ledger.balances@, key, 0u128);
            }
            ledger.balances.push((key, 0));
        },
    }
}

/// Creates the ledger: writes the token configuration and credits the
/// designated minter with the whole initial supply.
///
/// Fails with `SupplyExceedsCap` exactly when the requested supply is
/// greater than the cap. Runs once, from the host's instantiation flow,
/// so no authorization is checked.
pub fn instantiate(msg: InstantiateMsg, minter: String) -> (r: Result<
    (Ledger, Event),
    ContractError,
>)
    ensures
        r is Err <==> msg.total_supply > msg.cap,
        r matches Err(e) ==> e == ContractError::SupplyExceedsCap,
        r matches Ok(p) ==> {
            &&& p.0.wf()
            &&& p.0.config.name@ == msg.name@
            &&& p.0.config.symbol@ == msg.symbol@
            &&& p.0.config.total_supply == msg.total_supply
            &&& p.0.config.cap == msg.cap
            &&& p.0.minter@ == minter@
            &&& p.0.balance_of(minter@) == msg.total_supply
            &&& forall|a: Seq<char>| a != minter@ ==> p.0.balance_of(a) == 0
            &&& p.1 matches Event::Instantiated { minter: m } && m@ == minter@
        },
{
    if msg.total_supply > msg.cap {
        return Err(ContractError::SupplyExceedsCap);
    }
    let config = TokenConfig {
        name: msg.name,
        symbol: msg.symbol,
        total_supply: msg.total_supply,
        cap: msg.cap,
    };
    let event = Event::Instantiated { minter: minter.clone() };
    let key = minter.clone();
    let mut balances: Vec<(String, u128)> = Vec::new();
    proof {
        lemma_push_entry(balances@, key, msg.total_supply);
    }
    balances.push((key, msg.total_supply));
    proof {
        assert forall|a: Seq<char>| a != minter@ implies balance_in(balances@, a) == 0 by {
            assert(balance_in(Seq::<(String, u128)>::empty(), a) == 0);
        }
    }
    let ledger = Ledger { config, minter, balances };
    Ok((ledger, event))
}

/// What a transfer leaves behind, for every outcome.
///
/// `recipient` is the host's validation outcome for the requested
/// recipient address. A zero amount fails first, then a rejected address,
/// then a short sender balance; each failure leaves the ledger's state as
/// it was. A successful transfer moves `amount` from the sender to the
/// recipient, touches no other balance and no configuration field, and a
/// transfer of an account to itself leaves every balance unchanged.
pub open spec fn transfer_post(
    pre: Ledger,
    post: Ledger,
    sender: String,
    recipient: Option<String>,
    amount: u128,
    r: Result<Event, ContractError>,
) -> bool {
    &&& (amount == 0 ==> r == Err::<Event, ContractError>(ContractError::InvalidZeroAmount)
        && post == pre)
    &&& (amount > 0 && recipient is None ==> r == Err::<Event, ContractError>(
        ContractError::InvalidAddress,
    ) && post == pre)
    &&& (recipient matches Some(rec) ==> amount > 0 ==> {
        &&& (pre.balance_of(sender@) < amount ==> r == Err::<Event, ContractError>(
            ContractError::InsufficientFunds,
        ) && post.same_state(pre))
        &&& (pre.balance_of(sender@) >= amount ==> {
            &&& (r matches Ok(e) && e matches Event::Transferred { from, to, amount: amt }
                && from@ == sender@ && to@ == rec@ && amt == amount)
            &&& post.wf()
            &&& post.config.same_config(pre.config)
            &&& post.minter@ == pre.minter@
            &&& (sender@ == rec@ ==> post.balance_of(sender@) == pre.balance_of(sender@))
            &&& (sender@ != rec@ ==> post.balance_of(sender@) as int == pre.balance_of(
                sender@,
            ) - amount)
            &&& (sender@ != rec@ ==> post.balance_of(rec@) as int == pre.balance_of(
                rec@,
            ) + amount)
            &&& (forall|a: Seq<char>|
                a != sender@ && a != rec@ ==> post.balance_of(a) == pre.balance_of(a))
        })
    })
}

/// Moves `amount` from the authenticated sender to the recipient.
///
/// `recipient` is the host's validation outcome for the requested
/// recipient address string. Both accounts get a balance entry when they
/// have none yet; the total supply does not change.
pub fn execute_transfer(
    ledger: &mut Ledger,
    sender: &String,
    recipient: &Option<String>,
    amount: u128,
) -> (r: Result<Event, ContractError>)
    requires
        old(ledger).wf(),
    ensures
        final(ledger).wf(),
        transfer_post(*old(ledger), *final(ledger), *sender, *recipient, amount, r),
{
    if amount == 0 {
        return Err(ContractError::InvalidZeroAmount);
    }
    let rec = match recipient {
        None => {
            return Err(ContractError::InvalidAddress);
        },
        Some(rc) => rc,
    };
    sync_up_new_address(ledger, sender);
    sync_up_new_address(ledger, rec);
    let si = match find_account(&ledger.balances, sender) {
        Some(i) => i,
        None => {
            proof {
                assert(false);
            }
            return Err(ContractError::InsufficientFunds);
        },
    };
    let sbal = ledger.balances[si].1;
    if sbal < amount {
        return Err(ContractError::InsufficientFunds);
    }
    let skey = ledger.balances[si].0.clone();
    proof {
        lemma_set_amount(ledger.balances@, si as int, skey, (sbal - amount) as u128);
    }
    ledger.balances.set(si, (skey, sbal - amount));
    let ri = match find_account(&ledger.balances, rec) {
        Some(i) => i,
        None => {
            proof {
                assert(false);
            }
            return Err(ContractError::InsufficientFunds);
        },
    };
    let rbal = ledger.balances[ri].1;
    proof {
        lemma_balance_le_sum(ledger.balances@, rec@);
    }
    let rkey = ledger.balances[ri].0.clone();
    proof {
        lemma_set_amount(ledger.balances@, ri as int, rkey, (rbal + amount) as u128);
    }
    ledger.balances.set(ri, (rkey, rbal + amount));
    Ok(Event::Transferred { from: sender.clone(), to: rec.clone(), amount })
}

/// What a burn leaves behind, for every outcome.
///
/// A zero amount fails first, then a short sender balance; each failure
/// leaves the ledger's state as it was. A successful burn removes
/// `amount` from the sender's balance and from the total supply alike,
/// and touches nothing else.
pub open spec fn burn_post(
    pre: Ledger,
    post: Ledger,
    sender: String,
    amount: u128,
    r: Result<Event, ContractError>,
) -> bool {
    &&& (amount == 0 ==> r == Err::<Event, ContractError>(ContractError::InvalidZeroAmount)
        && post == pre)
    &&& (amount > 0 && pre.balance_of(sender@) < amount ==> r == Err::<Event, ContractError>(
        ContractError::InsufficientFunds,
    ) && post.same_state(pre))
    &&& (amount > 0 && pre.balance_of(sender@) >= amount ==> {
        &&& (r matches Ok(e) && e matches Event::Burned { from, amount: amt } && from@ == sender@
            && amt == amount)
        &&& post.wf()
        &&& post.config.name@ == pre.config.name@
        &&& post.config.symbol@ == pre.config.symbol@
        &&& post.config.cap == pre.config.cap
        &&& post.config.total_supply as int == pre.config.total_supply - amount
        &&& post.minter@ == pre.minter@
        &&& post.balance_of(sender@) as int == pre.balance_of(sender@) - amount
        &&& (forall|a: Seq<char>| a != sender@ ==> post.balance_of(a) == pre.balance_of(a))
    })
}

/// Destroys `amount` of the authenticated sender's tokens: the sender's
/// balance and the total supply both shrink by `amount`.
pub fn execute_burn(ledger: &mut Ledger, sender: &String, amount: u128) -> (r: Result<
    Event,
    ContractError,
>)
    requires
        old(ledger).wf(),
    ensures
        final(ledger).wf(),
        burn_post(*old(ledger), *final(ledger), *sender, amount, r),
{
    if amount == 0 {
        return Err(ContractError::InvalidZeroAmount);
    }
    sync_up_new_address(ledger, sender);
    let si = match find_account(&ledger.balances, sender) {
        Some(i) => i,
        None => {
            proof {
                assert(false);
            }
            return Err(ContractError::InsufficientFunds);
        },
    };
    let sbal = ledger.balances[si].1;
    if sbal < amount {
        return Err(ContractError::InsufficientFunds);
    }
    proof {
        lemma_balance_le_sum(ledger.balances@, sender@);
    }
    // The total supply is stored independently of the balance sum, so its
    // subtraction is checked on its own; conservation makes this branch
    // unreachable in a well-formed ledger.
    if ledger.config.total_supply < amount {
        return Err(ContractError::SupplyUnderflow);
    }
    let skey = ledger.balances[si].0.clone();
    proof {
        lemma_set_amount(ledger.balances@, si as int, skey, (sbal - amount) as u128);
    }
    ledger.balances.set(si, (skey, sbal - amount));
    ledger.config.total_supply = ledger.config.total_supply - amount;
    Ok(Event::Burned { from: sender.clone(), amount })
}

/// What a mint leaves behind, for every outcome.
///
/// A zero amount fails first, then a caller other than the designated
/// minter, then a supply that would pass the cap, then a rejected
/// recipient address; each failure leaves the ledger's state as it was.
/// A successful mint grows the recipient's balance and the total supply
/// by `amount` and touches nothing else.
pub open spec fn mint_post(
    pre: Ledger,
    post: Ledger,
    sender: String,
    recipient: Option<String>,
    amount: u128,
    r: Result<Event, ContractError>,
) -> bool {
    &&& (amount == 0 ==> r == Err::<Event, ContractError>(ContractError::InvalidZeroAmount)
        && post == pre)
    &&& (amount > 0 && sender@ != pre.minter@ ==> r == Err::<Event, ContractError>(
        ContractError::Unauthorized,
    ) && post == pre)
    &&& (amount > 0 && sender@ == pre.minter@ && pre.config.total_supply as int + amount
        > pre.config.cap as int ==> r == Err::<Event, ContractError>(
        ContractError::CannotExceedCap,
    ) && post == pre)
    &&& (amount > 0 && sender@ == pre.minter@ && pre.config.total_supply as int + amount
        <= pre.config.cap as int ==> {
        &&& (recipient is None ==> r == Err::<Event, ContractError>(ContractError::InvalidAddress)
            && post == pre)
        &&& (recipient matches Some(rec) ==> {
            &&& (r matches Ok(e) && e matches Event::Minted { to, amount: amt } && to@ == rec@
                && amt == amount)
            &&& post.wf()
            &&& post.config.name@ == pre.config.name@
            &&& post.config.symbol@ == pre.config.symbol@
            &&& post.config.cap == pre.config.cap
            &&& post.config.total_supply as int == pre.config.total_supply + amount
            &&& post.minter@ == pre.minter@
            &&& post.balance_of(rec@) as int == pre.balance_of(rec@) + amount
            &&& (forall|a: Seq<char>| a != rec@ ==> post.balance_of(a) == pre.balance_of(a))
        })
    })
}

/// Creates `amount` new tokens on the recipient's balance. Only the
/// designated minter may mint, and the grown supply must stay within the
/// cap. `recipient` is the host's validation outcome for the requested
/// recipient address string.
pub fn execute_mint(
    ledger: &mut Ledger,
    sender: &String,
    recipient: &Option<String>,
    amount: u128,
) -> (r: Result<Event, ContractError>)
    requires
        old(ledger).wf(),
    ensures
        final(ledger).wf(),
        mint_post(*old(ledger), *final(ledger), *sender, *recipient, amount, r),
{
    if amount == 0 {
        return Err(ContractError::InvalidZeroAmount);
    }
    if !(*sender == ledger.minter) {
        return Err(ContractError::Unauthorized);
    }
    if amount > ledger.config.cap - ledger.config.total_supply {
        return Err(ContractError::CannotExceedCap);
    }
    let rec = match recipient {
        None => {
            return Err(ContractError::InvalidAddress);
        },
        Some(rc) => rc,
    };
    sync_up_new_address(ledger, rec);
    let ri = match find_account(&ledger.balances, rec) {
        Some(i) => i,
        None => {
            proof {
                assert(false);
            }
            return Err(ContractError::InvalidAddress);
        },
    };
    let rbal = ledger.balances[ri].1;
    proof {
        lemma_balance_le_sum(ledger.balances@, rec@);
    }
    let rkey = ledger.balances[ri].0.clone();
    proof {
        lemma_set_amount(ledger.balances@, ri as int, rkey, (rbal + amount) as u128);
    }
    ledger.balances.set(ri, (rkey, rbal + amount));
    ledger.config.total_supply = ledger.config.total_supply + amount;
    Ok(Event::Minted { to: rec.clone(), amount })
}

/// Returns the stored balance of the queried account, zero when the
/// account has never been touched. `address` is the host's validation
/// outcome for the queried address string; a rejected address fails with
/// `InvalidAddress`.
pub fn query_balance(ledger: &Ledger, address: &Option<String>) -> (r: Result<
    u128,
    ContractError,
>)
    ensures
        match address {
            Some(a) => r == Ok::<u128, ContractError>(ledger.balance_of(a@)),
            None => r == Err::<u128, ContractError>(ContractError::InvalidAddress),
        },
{
    match address {
        None => Err(ContractError::InvalidAddress),
        Some(a) => {
            match find_account(&ledger.balances, a) {
                Some(i) => Ok(ledger.balances[i].1),
                None => Ok(0),
            }
        },
    }
}

/// Dispatches a mutating request to the operation it names.
///
/// `sender` is the caller the host authenticated. `recipient` is the
/// host's validation outcome for the request's recipient address; burn
/// carries no recipient, and the argument is ignored there.
pub fn execute(
    ledger: &mut Ledger,
    sender: &String,
    msg: &ExecuteMsg,
    recipient: &Option<String>,
) -> (r: Result<Event, ContractError>)
    requires
        old(ledger).wf(),
    ensures
        final(ledger).wf(),
        msg matches ExecuteMsg::Transfer { amount, .. } ==> transfer_post(
            *old(ledger),
            *final(ledger),
            *sender,
            *recipient,
            *amount,
            r,
        ),
        msg matches ExecuteMsg::Burn { amount } ==> burn_post(
            *old(ledger),
            *final(ledger),
            *sender,
            *amount,
            r,
        ),
        msg matches ExecuteMsg::Mint { amount, .. } ==> mint_post(
            *old(ledger),
            *final(ledger),
            *sender,
            *recipient,
            *amount,
            r,
        ),
{
    match msg {
        ExecuteMsg::Transfer { recipient: _, amount } => {
            execute_transfer(ledger, sender, recipient, *amount)
        },
        ExecuteMsg::Burn { amount } => execute_burn(ledger, sender, *amount),
        ExecuteMsg::Mint { recipient: _, amount } => {
            execute_mint(ledger, sender, recipient, *amount)
        },
    }
}

/// Answers a read-only query. The one query is the balance of an account;
/// `address` is the host's validation outcome for the queried address
/// string.
pub fn query(ledger: &Ledger, msg: &QueryMsg, address: &Option<String>) -> (r: Result<
    u128,
    ContractError,
>)
    ensures
        msg matches QueryMsg::Balance { .. } ==> match address {
            Some(a) => r == Ok::<u128, ContractError>(ledger.balance_of(a@)),
            None => r == Err::<u128, ContractError>(ContractError::InvalidAddress),
        },
{
    match msg {
        QueryMsg::Balance { address: _ } => query_balance(ledger, address),
    }
}

} // verus!

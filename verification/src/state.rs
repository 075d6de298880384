use vstd::prelude::*;

verus! {

/// The token's configuration: descriptive name and symbol (immutable after
/// creation), the circulating supply, and the supply cap.
#[derive(Debug, Clone, PartialEq, Eq)]
pub struct TokenConfig {
    pub name: String,
    pub symbol: String,
    pub total_supply: u128,
    pub cap: u128,
}

impl TokenConfig {
    /// The two configurations agree on every field, compared by value.
    pub open spec fn same_config(self, other: TokenConfig) -> bool {
        &&& self.name@ == other.name@
        &&& self.symbol@ == other.symbol@
        &&& self.total_supply == other.total_supply
        &&& self.cap == other.cap
    }
}

/// The whole ledger: the token configuration, the account designated to
/// mint, and the per-account balances.
///
/// A balance entry is created lazily the first time an account is touched;
/// an absent entry reads as a zero balance.
#[derive(Debug, Clone, PartialEq, Eq)]
pub struct Ledger {
    pub config: TokenConfig,
    pub minter: String,
    pub balances: Vec<(String, u128)>,
}

/// The sum of the amounts of all balance entries.
pub open spec fn sum_balances(s: Seq<(String, u128)>) -> int
    decreases s.len(),
{
    if s.len() == 0 {
        0
    } else {
        s[0].1 + sum_balances(s.drop_first())
    }
}

/// Whether some entry is keyed by the account `a`.
pub open spec fn contains_key(s: Seq<(String, u128)>, a: Seq<char>) -> bool {
    exists|i: int| 0 <= i < s.len() && s[i].0@ == a
}

/// The stored balance of the account `a`: the amount of its first entry,
/// or zero when no entry carries its key.
pub open spec fn balance_in(s: Seq<(String, u128)>, a: Seq<char>) -> u128
    decreases s.len(),
{
    if s.len() == 0 {
        0u128
    } else if s[0].0@ == a {
        s[0].1
    } else {
        balance_in(s.drop_first(), a)
    }
}

/// No two entries share an account key.
pub open spec fn unique_keys(s: Seq<(String, u128)>) -> bool {
    forall|i: int, j: int| 0 <= i < j < s.len() ==> s[i].0@ != s[j].0@
}

impl Ledger {
    /// The balance of account `a`, zero when `a` has no entry.
    pub open spec fn balance_of(self, a: Seq<char>) -> u128 {
        balance_in(self.balances@, a)
    }

    /// Whether account `a` has an explicit balance entry.
    pub open spec fn has_account(self, a: Seq<char>) -> bool {
        contains_key(self.balances@, a)
    }

    /// Well-formedness of the ledger:
    /// - every account has at most one balance entry;
    /// - conservation: the total supply equals the sum of all balances;
    /// - the total supply never exceeds the cap.
    pub open spec fn wf(self) -> bool {
        &&& unique_keys(self.balances@)
        &&& sum_balances(self.balances@) == self.config.total_supply as int
        &&& self.config.total_supply <= self.config.cap
    }

    /// The two ledgers have the same observable state: the same
    /// configuration and minter, and the same balance for every account.
    pub open spec fn same_state(self, other: Ledger) -> bool {
        &&& self.config.same_config(other.config)
        &&& self.minter@ == other.minter@
        &&& forall|a: Seq<char>| self.balance_of(a) == other.balance_of(a)
    }
}

/// The sum of balances is never negative.
pub proof fn lemma_sum_nonneg(s: Seq<(String, u128)>)
    ensures
        sum_balances(s) >= 0,
    decreases s.len(),
{
    if s.len() > 0 {
        lemma_sum_nonneg(s.drop_first());
    }
}

/// Any single balance is bounded by the sum of all balances.
pub proof fn lemma_balance_le_sum(s: Seq<(String, u128)>, a: Seq<char>)
    ensures
        balance_in(s, a) as int <= sum_balances(s),
    decreases s.len(),
{
    if s.len() == 0 {
    } else if s[0].0@ == a {
        lemma_sum_nonneg(s.drop_first());
    } else {
        lemma_balance_le_sum(s.drop_first(), a);
        lemma_sum_nonneg(s.drop_first());
    }
}

/// When the first entry keyed by `a` stands at index `i`, the balance of
/// `a` is that entry's amount.
pub proof fn lemma_balance_found(s: Seq<(String, u128)>, a: Seq<char>, i: int)
    requires
        0 <= i < s.len(),
        s[i].0@ == a,
        forall|j: int| 0 <= j < i ==> s[j].0@ != a,
    ensures
        contains_key(s, a),
        balance_in(s, a) == s[i].1,
    decreases i,
{
    if i > 0 {
        lemma_balance_found(s.drop_first(), a, i - 1);
    }
}

/// When no entry is keyed by `a`, the balance of `a` is zero.
pub proof fn lemma_balance_absent(s: Seq<(String, u128)>, a: Seq<char>)
    requires
        forall|j: int| 0 <= j < s.len() ==> s[j].0@ != a,
    ensures
        !contains_key(s, a),
        balance_in(s, a) == 0,
    decreases s.len(),
{
    if s.len() > 0 {
        assert(forall|j: int| 0 <= j < s.drop_first().len() ==> s.drop_first()[j].0@ != a);
        lemma_balance_absent(s.drop_first(), a);
    }
}

/// Replacing the entry at index `i` moves the sum by the difference of
/// the amounts.
pub proof fn lemma_sum_update(s: Seq<(String, u128)>, i: int, p: (String, u128))
    requires
        0 <= i < s.len(),
    ensures
        sum_balances(s.update(i, p)) == sum_balances(s) - s[i].1 + p.1,
    decreases i,
{
    reveal_with_fuel(sum_balances, 2);
    let s2 = s.update(i, p);
    if i == 0 {
        assert(s2.drop_first() =~= s.drop_first());
    } else {
        assert(s2.drop_first() =~= s.drop_first().update(i - 1, p));
        lemma_sum_update(s.drop_first(), i - 1, p);
        assert(s2[0] == s[0]);
    }
}

/// Appending an entry adds its amount to the sum.
pub proof fn lemma_sum_push(s: Seq<(String, u128)>, p: (String, u128))
    ensures
        sum_balances(s.push(p)) == sum_balances(s) + p.1,
    decreases s.len(),
{
    reveal_with_fuel(sum_balances, 2);
    let s2 = s.push(p);
    if s.len() == 0 {
        assert(s2.drop_first() =~= Seq::<(String, u128)>::empty());
    } else {
        assert(s2.drop_first() =~= s.drop_first().push(p));
        lemma_sum_push(s.drop_first(), p);
        assert(s2[0] == s[0]);
    }
}

/// Replacing the amount at index `i` (keeping its key) moves the sum by
/// the difference and changes only that key's balance.
pub proof fn lemma_set_amount(s: Seq<(String, u128)>, i: int, k: String, v: u128)
    requires
        unique_keys(s),
        0 <= i < s.len(),
        k@ == s[i].0@,
    ensures
        unique_keys(s.update(i, (k, v))),
        sum_balances(s.update(i, (k, v))) == sum_balances(s) - s[i].1 + v,
        balance_in(s.update(i, (k, v)), k@) == v,
        forall|a: Seq<char>| a != k@ ==> balance_in(s.update(i, (k, v)), a) == balance_in(s, a),
        forall|a: Seq<char>| contains_key(s.update(i, (k, v)), a) == contains_key(s, a),
{
    let s2 = s.update(i, (k, v));
    assert forall|w: int| 0 <= w < s2.len() implies s2[w].0@ == s[w].0@ by {}
    assert forall|i2: int, j2: int| 0 <= i2 < j2 < s2.len() implies s2[i2].0@ != s2[j2].0@ by {
        assert(s[i2].0@ != s[j2].0@);
    }
    assert forall|a: Seq<char>| contains_key(s2, a) == contains_key(s, a) by {
        if contains_key(s2, a) {
            let w = choose|w: int| 0 <= w < s2.len() && s2[w].0@ == a;
            assert(s[w].0@ == a);
        }
        if contains_key(s, a) {
            let w = choose|w: int| 0 <= w < s.len() && s[w].0@ == a;
            assert(s2[w].0@ == a);
        }
    }
    assert forall|j: int| 0 <= j < i implies s2[j].0@ != k@ by {
        assert(s[j].0@ != s[i].0@);
    }
    lemma_balance_found(s2, k@, i);
    assert forall|a: Seq<char>| a != k@ implies balance_in(s2, a) == balance_in(s, a) by {
        if contains_key(s, a) {
            let w = choose|w: int| 0 <= w < s.len() && s[w].0@ == a;
            assert forall|j: int| 0 <= j < w implies s[j].0@ != a by {
                assert(s[j].0@ != s[w].0@);
            }
            lemma_balance_found(s, a, w);
            assert(w != i);
            assert(s2[w] == s[w]);
            lemma_balance_found(s2, a, w);
        } else {
            assert forall|j: int| 0 <= j < s.len() implies s[j].0@ != a by {
                if s[j].0@ == a {
                    assert(contains_key(s, a));
                }
            }
            lemma_balance_absent(s, a);
            lemma_balance_absent(s2, a);
        }
    }
    lemma_sum_update(s, i, (k, v));
}

/// Appending an entry with a fresh key adds its amount to the sum, gives
/// that key the appended amount, and leaves every other balance unchanged.
pub proof fn lemma_push_entry(s: Seq<(String, u128)>, k: String, v: u128)
    requires
        unique_keys(s),
        !contains_key(s, k@),
    ensures
        unique_keys(s.push((k, v))),
        sum_balances(s.push((k, v))) == sum_balances(s) + v,
        balance_in(s.push((k, v)), k@) == v,
        contains_key(s.push((k, v)), k@),
        forall|a: Seq<char>| a != k@ ==> balance_in(s.push((k, v)), a) == balance_in(s, a),
        forall|a: Seq<char>| a != k@ ==> contains_key(s.push((k, v)), a) == contains_key(s, a),
{
    let s2 = s.push((k, v));
    let n = s.len() as int;
    assert forall|j: int| 0 <= j < n implies s[j].0@ != k@ by {
        if s[j].0@ == k@ {
            assert(contains_key(s, k@));
        }
    }
    assert forall|i2: int, j2: int| 0 <= i2 < j2 < s2.len() implies s2[i2].0@ != s2[j2].0@ by {
        if j2 < n {
            assert(s[i2].0@ != s[j2].0@);
        } else {
            assert(s2[j2].0@ == k@);
            assert(s[i2].0@ != k@);
        }
    }
    lemma_balance_found(s2, k@, n);
    assert forall|a: Seq<char>| a != k@ implies balance_in(s2, a) == balance_in(s, a)
        && contains_key(s2, a) == contains_key(s, a) by {
        if contains_key(s, a) {
            let w = choose|w: int| 0 <= w < s.len() && s[w].0@ == a;
            assert forall|j: int| 0 <= j < w implies s[j].0@ != a by {
                assert(s[j].0@ != s[w].0@);
            }
            lemma_balance_found(s, a, w);
            assert(s2[w] == s[w]);
            lemma_balance_found(s2, a, w);
        } else {
            assert forall|j: int| 0 <= j < s.len() implies s[j].0@ != a by {
                if s[j].0@ == a {
                    assert(contains_key(s, a));
                }
            }
            assert forall|j: int| 0 <= j < s2.len() implies s2[j].0@ != a by {
                if j < n {
                    assert(s[j].0@ != a);
                } else {
                    assert(s2[j].0@ == k@);
                }
            }
            lemma_balance_absent(s, a);
            lemma_balance_absent(s2, a);
        }
    }
    lemma_sum_push(s, (k, v));
}

} // verus!

use vstd::prelude::*;

verus! {

/// Sum of a sequence of transfer amounts.
pub open spec fn sum_amounts(s: Seq<int>) -> int
    decreases s.len(),
{
    if s.len() == 0 {
        0
    } else {
        sum_amounts(s.drop_last()) + s.last()
    }
}

/// The conservation law of one pool's custody: the vault holds exactly
/// the lifetime total donated minus everything that ever left it —
/// withdrawals, milestone releases and refunds.
pub open spec fn vault_conserved(
    vault_balance: int,
    total_donated: int,
    withdrawals: Seq<int>,
    releases: Seq<int>,
    refunds: Seq<int>,
) -> bool {
    vault_balance == total_donated - sum_amounts(withdrawals) - sum_amounts(releases)
        - sum_amounts(refunds)
}

/// Appending one amount to a history grows its sum by that amount.
pub proof fn lemma_sum_amounts_push(s: Seq<int>, a: int)
    ensures
        sum_amounts(s.push(a)) == sum_amounts(s) + a,
{
    assert(s.push(a).drop_last() =~= s);
}

/// A fresh pool conserves its vault: nothing donated, nothing held,
/// nothing ever paid out.
pub proof fn lemma_conservation_initial()
    ensures
        vault_conserved(0, 0, Seq::<int>::empty(), Seq::<int>::empty(), Seq::<int>::empty()),
{
}

/// A donation preserves conservation: the amount enters the vault and
/// the lifetime total in the same step, exactly as a successful
/// donation moves value and grows the pool counter.
pub proof fn lemma_conservation_after_donation(
    vault_balance: int,
    total_donated: int,
    withdrawals: Seq<int>,
    releases: Seq<int>,
    refunds: Seq<int>,
    amount: int,
)
    requires
        vault_conserved(vault_balance, total_donated, withdrawals, releases, refunds),
    ensures
        vault_conserved(
            vault_balance + amount,
            total_donated + amount,
            withdrawals,
            releases,
            refunds,
        ),
{
}

/// A withdrawal preserves conservation: the amount leaves the vault and
/// joins the withdrawal history, while the lifetime total stays put —
/// withdrawals drain the vault, never the counter.
pub proof fn lemma_conservation_after_withdrawal(
    vault_balance: int,
    total_donated: int,
    withdrawals: Seq<int>,
    releases: Seq<int>,
    refunds: Seq<int>,
    amount: int,
)
    requires
        vault_conserved(vault_balance, total_donated, withdrawals, releases, refunds),
    ensures
        vault_conserved(
            vault_balance - amount,
            total_donated,
            withdrawals.push(amount),
            releases,
            refunds,
        ),
{
    lemma_sum_amounts_push(withdrawals, amount);
}

/// A milestone release preserves conservation: the released share
/// leaves the vault and joins the release history.
pub proof fn lemma_conservation_after_release(
    vault_balance: int,
    total_donated: int,
    withdrawals: Seq<int>,
    releases: Seq<int>,
    refunds: Seq<int>,
    amount: int,
)
    requires
        vault_conserved(vault_balance, total_donated, withdrawals, releases, refunds),
    ensures
        vault_conserved(
            vault_balance - amount,
            total_donated,
            withdrawals,
            releases.push(amount),
            refunds,
        ),
{
    lemma_sum_amounts_push(releases, amount);
}

/// A refund preserves conservation: the refunded share leaves the vault
/// and joins the refund history.
pub proof fn lemma_conservation_after_refund(
    vault_balance: int,
    total_donated: int,
    withdrawals: Seq<int>,
    releases: Seq<int>,
    refunds: Seq<int>,
    amount: int,
)
    requires
        vault_conserved(vault_balance, total_donated, withdrawals, releases, refunds),
    ensures
        vault_conserved(
            vault_balance - amount,
            total_donated,
            withdrawals,
            releases,
            refunds.push(amount),
        ),
{
    lemma_sum_amounts_push(refunds, amount);
}

} // verus!

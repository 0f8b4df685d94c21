use vstd::prelude::*;
use crate::ledger::{can_transfer, pay, pay_all, record, register, transfer};
use crate::model::{Account, Address, PaymentInstance};

verus! {

/// A transfer that goes through leaves the sum of the sender's and the
/// receiver's balances as it was, keeps the set of registered addresses, and
/// leaves every other account untouched.
pub proof fn transfer_conserves_balances(
    m: Map<Address, Account>,
    from: Address,
    to: Address,
    amount: i64,
)
    requires
        can_transfer(m, from, to, amount as int),
    ensures
        ({
            let n = transfer(m, from, to, amount as int);
            &&& n[from].balance + n[to].balance == m[from].balance + m[to].balance
            &&& n.dom() == m.dom()
            &&& forall|a: Address| a != from && a != to && m.contains_key(a) ==> n[a] == m[a]
        }),
{
    let n = transfer(m, from, to, amount as int);
    assert(n.dom() =~= m.dom());
}

/// After a transfer that goes through, the sender's balance is not negative.
pub proof fn transfer_leaves_sender_non_negative(
    m: Map<Address, Account>,
    from: Address,
    to: Address,
    amount: i64,
)
    requires
        can_transfer(m, from, to, amount as int),
    ensures
        transfer(m, from, to, amount as int)[from].balance >= 0,
{
}

/// After a payment whose transfer goes through, the sender's balance is not negative.
pub proof fn payment_leaves_sender_non_negative(m: Map<Address, Account>, p: PaymentInstance)
    requires
        can_transfer(m, p.from, p.to, p.amount as int),
    ensures
        pay(m, p)[p.from].balance >= 0,
{
}

/// Every balance in the registry is at least zero.
pub open spec fn balances_non_negative(m: Map<Address, Account>) -> bool {
    forall|a: Address| m.contains_key(a) ==> #[trigger] m[a].balance >= 0
}

/// A payment keeps every balance non-negative.
pub proof fn pay_keeps_balances_non_negative(m: Map<Address, Account>, p: PaymentInstance)
    requires
        balances_non_negative(m),
    ensures
        balances_non_negative(pay(m, p)),
{
}

/// A batch of payments keeps every balance non-negative.
pub proof fn pay_all_keeps_balances_non_negative(m: Map<Address, Account>, ps: Seq<PaymentInstance>)
    requires
        balances_non_negative(m),
    ensures
        balances_non_negative(pay_all(m, ps)),
    decreases ps.len(),
{
    if ps.len() > 0 {
        pay_all_keeps_balances_non_negative(m, ps.drop_last());
        pay_keeps_balances_non_negative(pay_all(m, ps.drop_last()), ps.last());
    }
}

/// A transfer with an amount that is not positive, an unknown sender, an
/// unknown receiver, or an amount above the sender's balance is refused and
/// changes nothing.
pub proof fn refused_transfer_changes_nothing(
    m: Map<Address, Account>,
    from: Address,
    to: Address,
    amount: i64,
)
    requires
        amount <= 0 || !m.contains_key(from) || !m.contains_key(to) || m[from].balance
            < amount,
    ensures
        !can_transfer(m, from, to, amount as int),
        transfer(m, from, to, amount as int) == m,
{
}

/// Registering an address that is already registered leaves its account untouched.
pub proof fn registration_keeps_existing(m: Map<Address, Account>, address: Address, acc: Account)
    requires
        m.contains_key(address),
    ensures
        register(m, address, acc) == m,
        register(m, address, acc)[address] == m[address],
{
}

/// A payment is recorded exactly when its transfer goes through: then it is
/// appended to the sender's and the receiver's payments and its tag to the
/// receiver's tags, with balances as the transfer leaves them; otherwise
/// nothing changes.
pub proof fn payment_recorded_iff_transferred(m: Map<Address, Account>, p: PaymentInstance)
    ensures
        can_transfer(m, p.from, p.to, p.amount as int) ==> {
            let n = pay(m, p);
            let t = transfer(m, p.from, p.to, p.amount as int);
            &&& n.dom() == m.dom()
            &&& n[p.from].balance == t[p.from].balance
            &&& n[p.to].balance == t[p.to].balance
            &&& p.from != p.to ==> {
                &&& n[p.from].payments == m[p.from].payments.push(p)
                &&& n[p.from].messages == m[p.from].messages
                &&& n[p.to].payments == m[p.to].payments.push(p)
                &&& n[p.to].messages == m[p.to].messages.push(p.message)
            }
            &&& p.from == p.to ==> {
                &&& n[p.to].payments == m[p.to].payments.push(p).push(p)
                &&& n[p.to].messages == m[p.to].messages.push(p.message)
            }
        },
        !can_transfer(m, p.from, p.to, p.amount as int) ==> pay(m, p) == m,
{
    if can_transfer(m, p.from, p.to, p.amount as int) {
        let n = pay(m, p);
        assert(n.dom() =~= m.dom());
    }
}

/// In a batch, each payment is made on the registry that the payments before
/// it left: it is recorded when its transfer goes through there, and skipped
/// otherwise.
pub proof fn batch_entry_applied_or_skipped(
    m: Map<Address, Account>,
    ps: Seq<PaymentInstance>,
    p: PaymentInstance,
)
    ensures
        ({
            let before = pay_all(m, ps);
            &&& can_transfer(before, p.from, p.to, p.amount as int) ==> pay_all(m, ps.push(p))
                == record(transfer(before, p.from, p.to, p.amount as int), p)
            &&& !can_transfer(before, p.from, p.to, p.amount as int) ==> pay_all(m, ps.push(p))
                == before
        }),
{
    assert(ps.push(p).drop_last() =~= ps);
}

/// A batch has no overall rollback: making two batches one after the other is
/// the same as making them as one batch.
pub proof fn batch_concatenation(
    m: Map<Address, Account>,
    ps1: Seq<PaymentInstance>,
    ps2: Seq<PaymentInstance>,
)
    ensures
        pay_all(m, ps1 + ps2) == pay_all(pay_all(m, ps1), ps2),
    decreases ps2.len(),
{
    if ps2.len() == 0 {
        assert(ps1 + ps2 =~= ps1);
    } else {
        batch_concatenation(m, ps1, ps2.drop_last());
        assert((ps1 + ps2).drop_last() =~= ps1 + ps2.drop_last());
        assert((ps1 + ps2).last() == ps2.last());
    }
}

} // verus!

use vstd::prelude::*;
use crate::model::{Account, Address, PaymentInstance, PaymentUser};

verus! {

/// The accounts of a user map, each seen through its view.
pub open spec fn accounts_of(users: Map<Address, PaymentUser>) -> Map<Address, Account> {
    Map::new(|a: Address| users.contains_key(a), |a: Address| users[a]@)
}

/// Registration: an address already present keeps its account.
pub open spec fn register(m: Map<Address, Account>, address: Address, acc: Account) -> Map<
    Address,
    Account,
> {
    if m.contains_key(address) {
        m
    } else {
        m.insert(address, acc)
    }
}

/// The account's balance, or zero for an address that is not registered.
pub open spec fn balance_in(m: Map<Address, Account>, address: Address) -> int {
    if m.contains_key(address) {
        m[address].balance
    } else {
        0
    }
}

/// A transfer goes through when the amount is positive, both addresses are
/// registered, the sender holds at least the amount, and the receiver's new
/// balance stays within the range of `i64`.
pub open spec fn can_transfer(m: Map<Address, Account>, from: Address, to: Address, amount: int) -> bool {
    &&& amount > 0
    &&& m.contains_key(from)
    &&& m.contains_key(to)
    &&& m[from].balance >= amount
    &&& (from == to || m[to].balance + amount <= i64::MAX)
}

/// The same account with another balance.
pub open spec fn with_balance(acc: Account, balance: int) -> Account {
    Account { balance, payments: acc.payments, messages: acc.messages }
}

/// The registry after a transfer: the sender is debited, then the receiver is
/// credited; a refused transfer changes nothing.
pub open spec fn transfer(m: Map<Address, Account>, from: Address, to: Address, amount: int) -> Map<
    Address,
    Account,
> {
    if can_transfer(m, from, to, amount) {
        let debited = m.insert(from, with_balance(m[from], m[from].balance - amount));
        debited.insert(to, with_balance(debited[to], debited[to].balance + amount))
    } else {
        m
    }
}

/// The histories after a completed payment: the payment is appended to the
/// sender's and then to the receiver's payments, and its tag to the receiver's tags.
pub open spec fn record(m: Map<Address, Account>, p: PaymentInstance) -> Map<Address, Account> {
    let s = m[p.from];
    let m1 = m.insert(
        p.from,
        Account { balance: s.balance, payments: s.payments.push(p), messages: s.messages },
    );
    let r = m1[p.to];
    m1.insert(
        p.to,
        Account {
            balance: r.balance,
            payments: r.payments.push(p),
            messages: r.messages.push(p.message),
        },
    )
}

/// The registry after one payment: its transfer and, only when that goes
/// through, its record in the histories.
pub open spec fn pay(m: Map<Address, Account>, p: PaymentInstance) -> Map<Address, Account> {
    if can_transfer(m, p.from, p.to, p.amount as int) {
        record(transfer(m, p.from, p.to, p.amount as int), p)
    } else {
        m
    }
}

/// The registry after a batch: each payment in order, each on its own.
pub open spec fn pay_all(m: Map<Address, Account>, ps: Seq<PaymentInstance>) -> Map<
    Address,
    Account,
>
    decreases ps.len(),
{
    if ps.len() == 0 {
        m
    } else {
        pay(pay_all(m, ps.drop_last()), ps.last())
    }
}

/// Seeing a user map through its views commutes with an insertion.
pub(crate) proof fn lemma_accounts_insert(users: Map<Address, PaymentUser>, a: Address, u: PaymentUser)
    ensures
        accounts_of(users.insert(a, u)) == accounts_of(users).insert(a, u@),
{
    assert(accounts_of(users.insert(a, u)) =~= accounts_of(users).insert(a, u@));
}

} // verus!

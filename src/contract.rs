use vstd::prelude::*;
use std::collections::HashMap;
use crate::ledger::{
    accounts_of, balance_in, can_transfer, lemma_accounts_insert, pay, pay_all, register, transfer,
};
use crate::model::{Account, Address, PaymentInstance, PaymentUser};

verus! {

broadcast use vstd::std_specs::hash::group_hash_axioms;

/// The ledger: the registry of accounts by address, and a log of payments by address.
pub struct PaymentContract {
    users: HashMap<Address, PaymentUser>,
    payments: HashMap<Address, PaymentInstance>,
}

impl View for PaymentContract {
    type V = Map<Address, Account>;

    closed spec fn view(&self) -> Map<Address, Account> {
        accounts_of(self.users@)
    }
}

impl PaymentContract {
    /// An empty ledger: no accounts and no logged payments.
    pub fn new() -> (r: Self)
        ensures
            r.users_map() == Map::<Address, PaymentUser>::empty(),
            r.payments_map() == Map::<Address, PaymentInstance>::empty(),
            r@ == Map::<Address, Account>::empty(),
    {
        let r = PaymentContract { users: HashMap::new(), payments: HashMap::new() };
        assert(r@ =~= Map::<Address, Account>::empty());
        r
    }

    /// Resets the ledger to empty, discarding every account and logged payment.
    pub fn initialize(&mut self)
        ensures
            final(self).users_map() == Map::<Address, PaymentUser>::empty(),
            final(self).payments_map() == Map::<Address, PaymentInstance>::empty(),
            final(self)@ == Map::<Address, Account>::empty(),
    {
        self.users = HashMap::new();
        self.payments = HashMap::new();
        assert(self@ =~= Map::<Address, Account>::empty());
    }

    /// A copy of the registry of accounts.
    pub fn get_users(&self) -> (r: HashMap<Address, PaymentUser>)
        ensures
            r@ == self.users_map(),
    {
        self.users.clone()
    }

    /// A copy of the log of payments.
    pub fn get_payments(&self) -> (r: HashMap<Address, PaymentInstance>)
        ensures
            r@ == self.payments_map(),
    {
        self.payments.clone()
    }

    /// Replaces the whole registry of accounts.
    pub fn set_users(&mut self, users: HashMap<Address, PaymentUser>)
        ensures
            final(self).users_map() == users@,
            final(self)@ == accounts_of(users@),
            final(self).payments_map() == old(self).payments_map(),
    {
        self.users = users;
    }

    /// Replaces the whole log of payments.
    pub fn set_payments(&mut self, payments: HashMap<Address, PaymentInstance>)
        ensures
            final(self).payments_map() == payments@,
            final(self).users_map() == old(self).users_map(),
    {
        self.payments = payments;
    }

    /// A new account holding `balance`, with empty histories.
    pub fn create_user(balance: i64) -> (r: PaymentUser)
        ensures
            r@ == (Account { balance: balance as int, payments: Seq::empty(), messages: Seq::empty() }),
    {
        let r = PaymentUser { balance, past_payments: Vec::new(), received_messages: Vec::new() };
        assert(r.past_payments@ =~= Seq::<PaymentInstance>::empty());
        assert(r.received_messages@ =~= Seq::<String>::empty());
        r
    }

    /// A payment of `amount` from `from` to `to` carrying `message`; nothing is checked here.
    pub fn create_payment(from: Address, to: Address, amount: i64, message: String) -> (r: PaymentInstance)
        ensures
            r == (PaymentInstance { from, to, amount, message }),
    {
        PaymentInstance { from, to, amount, message }
    }

    /// The registry of accounts, as stored.
    pub closed spec fn users_map(&self) -> Map<Address, PaymentUser> {
        self.users@
    }

    /// The log of payments, as stored.
    pub closed spec fn payments_map(&self) -> Map<Address, PaymentInstance> {
        self.payments@
    }

    /// Moves `amount` from `from_address` to `to_address`, or refuses and changes nothing.
    pub fn make_transaction(&mut self, from_address: Address, to_address: Address, amount: i64) -> (r: bool)
        ensures
            r == can_transfer(old(self)@, from_address, to_address, amount as int),
            final(self)@ == transfer(old(self)@, from_address, to_address, amount as int),
            final(self).payments_map() == old(self).payments_map(),
    {
        if amount <= 0 {
            return false;
        }
        let mut from = match self.users.get(&from_address) {
            Some(u) => u.clone(),
            None => return false,
        };
        let to_balance = match self.users.get(&to_address) {
            Some(u) => u.balance,
            None => return false,
        };
        if from.balance < amount {
            return false;
        }
        if from_address != to_address && to_balance > i64::MAX - amount {
            return false;
        }
        from.balance = from.balance - amount;
        proof {
            lemma_accounts_insert(self.users@, from_address, from);
        }
        self.users.insert(from_address, from);
        let mut to = match self.users.get(&to_address) {
            Some(u) => u.clone(),
            None => return false,
        };
        to.balance = to.balance + amount;
        proof {
            lemma_accounts_insert(self.users@, to_address, to);
        }
        self.users.insert(to_address, to);
        true
    }

    /// Makes `payment`'s transfer and, when it goes through, records the payment
    /// in both parties' histories and its tag in the receiver's tags.
    pub fn make_payment(&mut self, payment: PaymentInstance)
        ensures
            final(self)@ == pay(old(self)@, payment),
            final(self).payments_map() == old(self).payments_map(),
    {
        if self.make_transaction(payment.from, payment.to, payment.amount) {
            let mut from = match self.users.get(&payment.from) {
                Some(u) => u.clone(),
                None => return ,
            };
            from.past_payments.push(payment.clone());
            proof {
                lemma_accounts_insert(self.users@, payment.from, from);
            }
            self.users.insert(payment.from, from);
            let mut to = match self.users.get(&payment.to) {
                Some(u) => u.clone(),
                None => return ,
            };
            to.past_payments.push(payment.clone());
            to.received_messages.push(payment.message.clone());
            proof {
                lemma_accounts_insert(self.users@, payment.to, to);
            }
            self.users.insert(payment.to, to);
        }
    }

    /// Makes each payment of `payments` in order, each on its own: a refused one
    /// is skipped and undoes none of those before it.
    pub fn make_payments(&mut self, payments: Vec<PaymentInstance>)
        ensures
            final(self)@ == pay_all(old(self)@, payments@),
            final(self).payments_map() == old(self).payments_map(),
    {
        let ghost start = self@;
        let mut i: usize = 0;
        while i < payments.len()
            invariant
                i <= payments.len(),
                self@ == pay_all(start, payments@.subrange(0, i as int)),
                self.payments_map() == old(self).payments_map(),
            decreases payments.len() - i,
        {
            let payment = payments[i].clone();
            proof {
                let done = payments@.subrange(0, i as int + 1);
                assert(done.drop_last() =~= payments@.subrange(0, i as int));
                assert(done.last() == payments@[i as int]);
            }
            self.make_payment(payment);
            i = i + 1;
        }
        assert(payments@.subrange(0, payments.len() as int) =~= payments@);
    }

    /// Registers `user` under `address`, unless the address is already registered.
    pub fn add_user(&mut self, user: PaymentUser, address: Address)
        ensures
            final(self)@ == register(old(self)@, address, user@),
            final(self).payments_map() == old(self).payments_map(),
    {
        if !self.users.contains_key(&address) {
            proof {
                lemma_accounts_insert(self.users@, address, user);
            }
            self.users.insert(address, user);
        }
    }

    /// The balance of `address`, or zero when it is not registered.
    pub fn get_balance(&self, address: Address) -> (r: i64)
        ensures
            r as int == balance_in(self@, address),
    {
        match self.users.get(&address) {
            Some(u) => u.balance,
            None => 0,
        }
    }

    /// The payments recorded for `address`, or `None` when it is not registered.
    pub fn get_past_payments(&self, address: Address) -> (r: Option<Vec<PaymentInstance>>)
        ensures
            match r {
                Some(v) => self@.contains_key(address) && v@ == self@[address].payments,
                None => !self@.contains_key(address),
            },
    {
        match self.users.get(&address) {
            Some(u) => {
                let v = u.past_payments.clone();
                assert(v@ =~= u.past_payments@);
                Some(v)
            },
            None => None,
        }
    }

    /// The tags received by `address`, or `None` when it is not registered.
    pub fn get_past_messages(&self, address: Address) -> (r: Option<Vec<String>>)
        ensures
            match r {
                Some(v) => self@.contains_key(address) && v@ == self@[address].messages,
                None => !self@.contains_key(address),
            },
    {
        match self.users.get(&address) {
            Some(u) => {
                let v = u.received_messages.clone();
                assert(v@ =~= u.received_messages@);
                Some(v)
            },
            None => None,
        }
    }
}

} // verus!

use vstd::prelude::*;

verus! {

/// An opaque account identifier: compared for equality, otherwise uninterpreted.
pub type Address = u64;

/// One payment: who pays whom, how much, and the tag delivered to the receiver.
#[derive(Debug, PartialEq, Eq)]
pub struct PaymentInstance {
    pub from: Address,
    pub to: Address,
    pub amount: i64,
    pub message: String,
}

impl Clone for PaymentInstance {
    fn clone(&self) -> (r: Self)
        ensures
            r == *self,
    {
        PaymentInstance {
            from: self.from,
            to: self.to,
            amount: self.amount,
            message: self.message.clone(),
        }
    }
}

/// A registered account: its balance and its two append-only histories.
#[derive(Debug, PartialEq, Eq)]
pub struct PaymentUser {
    pub balance: i64,
    pub past_payments: Vec<PaymentInstance>,
    pub received_messages: Vec<String>,
}

/// What an account holds, as mathematical values.
pub struct Account {
    pub balance: int,
    pub payments: Seq<PaymentInstance>,
    pub messages: Seq<String>,
}

impl View for PaymentUser {
    type V = Account;

    open spec fn view(&self) -> Account {
        Account {
            balance: self.balance as int,
            payments: self.past_payments@,
            messages: self.received_messages@,
        }
    }
}

impl Clone for PaymentUser {
    fn clone(&self) -> (r: Self)
        ensures
            r@ == self@,
    {
        let past_payments = self.past_payments.clone();
        let received_messages = self.received_messages.clone();
        assert(past_payments@ =~= self.past_payments@);
        assert(received_messages@ =~= self.received_messages@);
        PaymentUser { balance: self.balance, past_payments, received_messages }
    }
}

} // verus!

//! A single account: who holds it and how much it holds.

use vstd::prelude::*;
use vstd::string::*;
use crate::decimal::{decimal_digits, decimal_string};
use crate::error::{AccountError, NEGATIVE_DEPOSIT_MESSAGE};

verus! {

/// What an account is, as plain mathematical values.
pub struct AccountView {
    pub id: nat,
    pub holder: Seq<char>,
    pub balance: nat,
}

impl AccountView {
    /// The same account holding `balance`.
    pub open spec fn with_balance(self, balance: nat) -> AccountView {
        AccountView { balance, ..self }
    }

    /// The line that reports the account: the holder's name, the words
    /// ` has a balance $`, and the balance in base ten.
    pub open spec fn summary(self) -> Seq<char> {
        self.holder + " has a balance $"@ + decimal_digits(self.balance)
    }
}

/// A named record that holds a balance. The balance is never negative.
#[derive(Debug)]
pub struct Account {
    id: u32,
    balance: i32,
    holder: String,
}

impl View for Account {
    type V = AccountView;

    closed spec fn view(&self) -> AccountView {
        AccountView { id: self.id as nat, holder: self.holder@, balance: self.balance as nat }
    }
}

impl Account {
    #[verifier::type_invariant]
    spec fn balance_not_negative(self) -> bool {
        self.balance >= 0
    }

    /// Opens an empty account for `holder` under the identifier `id`.
    pub fn new(id: u32, holder: String) -> (account: Self)
        ensures
            account@ == (AccountView { id: id as nat, holder: holder@, balance: 0 }),
    {
        Account { id, balance: 0, holder }
    }

    /// Adds `amount` to the balance and returns the new balance. A negative
    /// amount is refused and changes nothing.
    pub fn deposit(&mut self, amount: i32) -> (result: Result<i32, AccountError>)
        requires
            amount >= 0 ==> old(self)@.balance + amount <= i32::MAX,
        ensures
            amount >= 0 ==> result == Ok::<i32, AccountError>((old(self)@.balance + amount) as i32),
            amount >= 0 ==> final(self)@ == old(self)@.with_balance(
                (old(self)@.balance + amount) as nat,
            ),
            amount < 0 ==> result is Err && result->Err_0 is InvalidAmount,
            amount < 0 ==> result->Err_0.text() == NEGATIVE_DEPOSIT_MESSAGE@,
            amount < 0 ==> final(self)@ == old(self)@,
    {
        proof {
            use_type_invariant(&*self);
        }
        if amount < 0 {
            return Err(
                AccountError::InvalidAmount { message: String::from_str(NEGATIVE_DEPOSIT_MESSAGE) },
            );
        }
        self.balance = self.balance + amount;
        Ok(self.balance)
    }

    /// Takes `amount` from the balance and returns the new balance. An amount
    /// that is negative or exceeds the balance is refused and changes nothing.
    pub fn withdraw(&mut self, amount: i32) -> (result: Result<i32, AccountError>)
        ensures
            0 <= amount <= old(self)@.balance ==> result == Ok::<i32, AccountError>(
                (old(self)@.balance - amount) as i32,
            ),
            0 <= amount <= old(self)@.balance ==> final(self)@ == old(self)@.with_balance(
                (old(self)@.balance - amount) as nat,
            ),
            amount < 0 || amount > old(self)@.balance ==> result == Err::<i32, AccountError>(
                AccountError::InsufficientFunds,
            ),
            amount < 0 || amount > old(self)@.balance ==> final(self)@ == old(self)@,
    {
        proof {
            use_type_invariant(&*self);
        }
        if amount < 0 || amount > self.balance {
            return Err(AccountError::InsufficientFunds);
        }
        self.balance = self.balance - amount;
        Ok(self.balance)
    }

    /// The line that reports the account.
    pub fn summary(&self) -> (line: String)
        ensures
            line@ == self@.summary(),
    {
        proof {
            use_type_invariant(self);
        }
        let mut line = self.holder.clone();
        line.append(" has a balance $");
        let amount = decimal_string(self.balance as u32);
        line.append(amount.as_str());
        line
    }

    /// The identifier the account was opened under.
    pub fn id(&self) -> (id: u32)
        ensures
            id == self@.id,
    {
        self.id
    }

    /// The holder's name.
    pub fn holder(&self) -> (holder: &str)
        ensures
            holder@ == self@.holder,
    {
        self.holder.as_str()
    }

    /// The current balance.
    pub fn balance(&self) -> (balance: i32)
        ensures
            balance == self@.balance,
    {
        proof {
            use_type_invariant(self);
        }
        self.balance
    }
}

} // verus!

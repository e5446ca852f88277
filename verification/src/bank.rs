//! A bank: accounts in the order in which they were registered.

use vstd::prelude::*;
use crate::account::{Account, AccountView};

verus! {

/// The sum of the balances of `accounts`.
pub open spec fn total_of(accounts: Seq<AccountView>) -> nat
    decreases accounts.len(),
{
    if accounts.len() == 0 {
        0
    } else {
        total_of(accounts.drop_last()) + accounts.last().balance
    }
}

/// The total of no accounts is zero.
pub proof fn total_of_empty()
    ensures
        total_of(Seq::<AccountView>::empty()) == 0,
{
}

/// Registering one more account raises the total by exactly the balance of
/// that account.
pub proof fn total_of_push(accounts: Seq<AccountView>, account: AccountView)
    ensures
        total_of(accounts.push(account)) == total_of(accounts) + account.balance,
{
    assert(accounts.push(account).drop_last() =~= accounts);
}

/// The first `n` accounts never hold more than all of them.
pub proof fn total_of_prefix(accounts: Seq<AccountView>, n: int)
    requires
        0 <= n <= accounts.len(),
    ensures
        total_of(accounts.take(n)) <= total_of(accounts),
    decreases accounts.len(),
{
    if n < accounts.len() {
        total_of_prefix(accounts.drop_last(), n);
        assert(accounts.drop_last().take(n) =~= accounts.take(n));
    } else {
        assert(accounts.take(n) =~= accounts);
    }
}

/// The first `n + 1` accounts hold what the first `n` hold and the balance of
/// the account after them.
proof fn total_of_next(accounts: Seq<AccountView>, n: int)
    requires
        0 <= n < accounts.len(),
    ensures
        total_of(accounts.take(n + 1)) == total_of(accounts.take(n)) + accounts[n].balance,
        total_of(accounts.take(n + 1)) <= total_of(accounts),
{
    assert(accounts.take(n + 1).drop_last() =~= accounts.take(n));
    total_of_prefix(accounts, n + 1);
}

/// The owner of a sequence of accounts.
#[derive(Debug)]
pub struct Bank {
    accounts: Vec<Account>,
}

impl View for Bank {
    type V = Seq<AccountView>;

    closed spec fn view(&self) -> Seq<AccountView> {
        self.accounts@.map_values(|account: Account| account@)
    }
}

impl Bank {
    /// A bank without accounts.
    pub fn new() -> (bank: Self)
        ensures
            bank@ == Seq::<AccountView>::empty(),
            total_of(bank@) == 0,
    {
        Bank { accounts: Vec::new() }
    }

    /// Takes `account` over and registers it after those already there.
    pub fn add_account(&mut self, account: Account)
        ensures
            final(self)@ == old(self)@.push(account@),
            total_of(final(self)@) == total_of(old(self)@) + account@.balance,
    {
        let ghost registered = account@;
        self.accounts.push(account);
        proof {
            assert(self@ =~= old(self)@.push(registered));
            total_of_push(old(self)@, registered);
        }
    }

    /// The sum of all balances, or `None` where it exceeds `i32::MAX`.
    pub fn checked_total_balance(&self) -> (total: Option<i32>)
        ensures
            total_of(self@) <= i32::MAX ==> total == Some(total_of(self@) as i32),
            total_of(self@) > i32::MAX ==> total == None::<i32>,
    {
        let mut total: i32 = 0;
        let mut i: usize = 0;
        while i < self.accounts.len()
            invariant
                i <= self.accounts.len(),
                total == total_of(self@.take(i as int)),
            decreases self.accounts.len() - i,
        {
            let balance = self.accounts[i].balance();
            proof {
                total_of_next(self@, i as int);
            }
            if balance > i32::MAX - total {
                return None;
            }
            total = total + balance;
            i = i + 1;
        }
        assert(self@.take(i as int) =~= self@);
        Some(total)
    }

    /// The sum of all balances.
    pub fn total_balance(&self) -> (total: i32)
        requires
            total_of(self@) <= i32::MAX,
        ensures
            total == total_of(self@),
    {
        let mut total: i32 = 0;
        let mut i: usize = 0;
        while i < self.accounts.len()
            invariant
                i <= self.accounts.len(),
                total == total_of(self@.take(i as int)),
                total_of(self@) <= i32::MAX,
            decreases self.accounts.len() - i,
        {
            let balance = self.accounts[i].balance();
            proof {
                total_of_next(self@, i as int);
            }
            total = total + balance;
            i = i + 1;
        }
        assert(self@.take(i as int) =~= self@);
        total
    }

    /// One line for each account, in the order of registration.
    pub fn summary(&self) -> (lines: Vec<String>)
        ensures
            lines@.len() == self@.len(),
            forall|i: int| 0 <= i < lines@.len() ==> (#[trigger] lines@[i])@ == self@[i].summary(),
    {
        let mut lines: Vec<String> = Vec::new();
        let mut i: usize = 0;
        while i < self.accounts.len()
            invariant
                i <= self.accounts.len(),
                lines@.len() == i,
                forall|j: int| 0 <= j < i ==> (#[trigger] lines@[j])@ == self@[j].summary(),
            decreases self.accounts.len() - i,
        {
            let line = self.accounts[i].summary();
            lines.push(line);
            i = i + 1;
        }
        lines
    }
}

} // verus!

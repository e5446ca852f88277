use ledger::{Account, AccountError};

fn funded(id: u32, holder: &str, balance: i32) -> Account {
    let mut account = Account::new(id, String::from(holder));
    assert_eq!(account.deposit(balance), Ok(balance));
    account
}

#[test]
fn new_account_is_empty() {
    let account = Account::new(7, String::from("Ada"));
    assert_eq!(account.id(), 7);
    assert_eq!(account.holder(), "Ada");
    assert_eq!(account.balance(), 0);
    assert_eq!(account.summary(), "Ada has a balance $0");
}

#[test]
fn deposit_then_withdraw_then_summary() {
    let mut account = Account::new(1, String::from("Account holder 1"));
    assert_eq!(account.deposit(1000), Ok(1000));
    assert_eq!(account.withdraw(10), Ok(990));
    assert_eq!(account.summary(), "Account holder 1 has a balance $990");
    assert_eq!(account.balance(), 990);
}

#[test]
fn negative_deposit_on_fresh_account_fails() {
    let mut account = Account::new(1, String::from("Account holder 1"));
    let result = account.deposit(-5);
    assert_eq!(
        result,
        Err(AccountError::InvalidAmount {
            message: String::from("Cannot deposit a negative amount"),
        })
    );
    assert_eq!(account.balance(), 0);
}

#[test]
fn withdraw_from_fresh_account_fails() {
    let mut account = Account::new(1, String::from("Account holder 1"));
    assert_eq!(account.withdraw(50), Err(AccountError::InsufficientFunds));
    assert_eq!(account.balance(), 0);
}

#[test]
fn deposit_adds_exactly_the_amount() {
    let mut account = funded(3, "Grace", 250);
    assert_eq!(account.deposit(0), Ok(250));
    assert_eq!(account.balance(), 250);
    assert_eq!(account.deposit(1), Ok(251));
    assert_eq!(account.deposit(749), Ok(1000));
    assert_eq!(account.balance(), 1000);
    assert_eq!(account.id(), 3);
    assert_eq!(account.holder(), "Grace");
}

#[test]
fn deposit_reaches_the_largest_balance() {
    let mut account = funded(3, "Grace", 1);
    assert_eq!(account.deposit(i32::MAX - 1), Ok(i32::MAX));
    assert_eq!(account.balance(), i32::MAX);
    assert_eq!(account.summary(), "Grace has a balance $2147483647");
}

#[test]
fn negative_deposit_leaves_the_balance() {
    let mut account = funded(4, "Edsger", 40);
    for amount in [-1, -40, -41, i32::MIN] {
        let result = account.deposit(amount);
        assert!(matches!(result, Err(AccountError::InvalidAmount { .. })));
        assert_eq!(account.balance(), 40);
    }
    assert_eq!(account.summary(), "Edsger has a balance $40");
}

#[test]
fn withdraw_takes_exactly_the_amount() {
    let mut account = funded(5, "Barbara", 100);
    assert_eq!(account.withdraw(0), Ok(100));
    assert_eq!(account.withdraw(30), Ok(70));
    assert_eq!(account.balance(), 70);
    assert_eq!(account.withdraw(70), Ok(0));
    assert_eq!(account.balance(), 0);
    assert_eq!(account.withdraw(0), Ok(0));
}

#[test]
fn withdraw_beyond_the_balance_fails() {
    let mut account = funded(6, "Tony", 100);
    assert_eq!(account.withdraw(101), Err(AccountError::InsufficientFunds));
    assert_eq!(account.balance(), 100);
    assert_eq!(account.withdraw(i32::MAX), Err(AccountError::InsufficientFunds));
    assert_eq!(account.balance(), 100);
}

#[test]
fn negative_withdrawal_is_insufficient_funds() {
    let mut account = funded(6, "Tony", 100);
    assert_eq!(account.withdraw(-1), Err(AccountError::InsufficientFunds));
    assert_eq!(account.withdraw(i32::MIN), Err(AccountError::InsufficientFunds));
    assert_eq!(account.balance(), 100);
}

#[test]
fn summary_keeps_the_holder_as_written() {
    let account = funded(8, "  José  $ ", 12);
    assert_eq!(account.summary(), "  José  $  has a balance $12");
    let unnamed = Account::new(9, String::new());
    assert_eq!(unnamed.summary(), " has a balance $0");
}

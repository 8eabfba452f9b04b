use okane::accounts::{
    check_if_account_active, check_if_user_account_exists, check_if_user_exists, complete_deposit,
    deposit_started, generate_account_number, my_account, record_balance, start_deposit, transfer,
    transfer_done, withdraw, withdrawal_done, AccountSummary, MyAccountResponse, NewTransaction,
    UserAccountDetails, UserProfile,
};
use okane::amount::Amount;
use okane::auth::JwtClaims;
use okane::errors::AppError;
use okane::ledger::{compute_for_balance, Transaction};

fn nf(m: &str) -> AppError {
    AppError::NotFound(m.to_string())
}

fn bad(m: &str) -> AppError {
    AppError::BadRequest(m.to_string())
}

fn profile() -> UserProfile {
    UserProfile {
        email: "juan@example.com".to_string(),
        first_name: "Juan".to_string(),
        last_name: "Cruz".to_string(),
        country: Some("PH".to_string()),
        province: None,
        city: Some("Manila".to_string()),
        street: "Rizal".to_string(),
        house_no: "12".to_string(),
        zip_code: "1000".to_string(),
        sex: None,
        nationality: Some("Filipino".to_string()),
        birth_date: Some(727000),
        contact_no: "0917".to_string(),
        user_type: "customer".to_string(),
    }
}

fn summary() -> AccountSummary {
    AccountSummary {
        account_number: "0123456789".to_string(),
        account_type: "savings".to_string(),
        currency: "PHP".to_string(),
        balance: Amount::new(12345, 2),
        status: "active".to_string(),
    }
}

fn recorded(t: NewTransaction, id: i32) -> Transaction {
    Transaction {
        id,
        from_account_number: t.from_account_number,
        to_account_number: t.to_account_number,
        amount_transferred: t.amount_transferred,
        transaction_type: t.transaction_type,
        status: t.status,
        created_at: 0,
    }
}

#[test]
fn user_lookup_outcomes() {
    assert_eq!(check_if_user_exists(Some(42)), Ok(42));
    assert_eq!(check_if_user_exists(Some(4_294_967_297)), Ok(1));
    assert_eq!(check_if_user_exists(None), Err(nf("User not found")));
}

#[test]
fn one_account_per_user() {
    assert_eq!(check_if_user_account_exists(None), Ok(()));
    assert_eq!(check_if_user_account_exists(Some(3)), Err(nf("Account already exists")));
}

#[test]
fn account_must_be_active() {
    assert_eq!(check_if_account_active(Some(3)), Ok(()));
    assert_eq!(check_if_account_active(None), Err(nf("Account not found or inactive")));
}

#[test]
fn recorded_balance_needs_a_row() {
    assert_eq!(record_balance(1), Ok(()));
    assert_eq!(record_balance(0), Err(nf("Account not found")));
}

#[test]
fn account_numbers_are_ten_digits() {
    for _ in 0..50 {
        let n = generate_account_number();
        assert_eq!(n.len(), 10);
        assert!(n.chars().all(|c| c.is_ascii_digit()));
    }
}

#[test]
fn deposit_starts_pending() {
    let t = start_deposit(Some(1), Amount::new(5000, 2), "0123456789").unwrap();
    assert_eq!(
        t,
        NewTransaction {
            amount_transferred: Amount::new(5000, 2),
            from_account_number: None,
            to_account_number: Some("0123456789".to_string()),
            transaction_type: "deposit".to_string(),
            status: "pending".to_string(),
            transaction_uuid: None,
        }
    );
}

#[test]
fn movement_checks_come_in_order() {
    assert_eq!(start_deposit(None, Amount::new(0, 0), "1"), Err(nf("Account not found or inactive")));
    assert_eq!(withdraw(Some(1), Amount::new(0, 0), "1"), Err(bad("Amount must be greater than zero")));
    assert_eq!(
        transfer(None, Amount::new(5, 0), "1", "2"),
        Err(nf("Account not found or inactive"))
    );
    assert_eq!(
        transfer(Some(1), Amount::new(-5, 0), "1", "2"),
        Err(bad("Amount must be greater than zero"))
    );
}

#[test]
fn completed_deposit_reuses_the_uuid() {
    let t = complete_deposit("0123456789", Amount::new(10000, 2), 0xabcdef);
    assert_eq!(t.status, "completed");
    assert_eq!(t.transaction_type, "deposit");
    assert_eq!(t.transaction_uuid, Some(0xabcdef));
    assert_eq!(t.from_account_number, None);
}

#[test]
fn withdrawal_and_transfer_rows() {
    let w = withdraw(Some(1), Amount::new(250, 2), "111").unwrap();
    assert_eq!(w.from_account_number.as_deref(), Some("111"));
    assert_eq!(w.to_account_number, None);
    assert_eq!((w.transaction_type.as_str(), w.status.as_str()), ("withdrawal", "completed"));
    let t = transfer(Some(1), Amount::new(250, 2), "111", "222").unwrap();
    assert_eq!(t.from_account_number.as_deref(), Some("111"));
    assert_eq!(t.to_account_number.as_deref(), Some("222"));
    assert_eq!((t.transaction_type.as_str(), t.status.as_str()), ("transfer", "completed"));
}

#[test]
fn recorded_transfer_moves_the_balance() {
    let opening = recorded(complete_deposit("111", Amount::new(10000, 2), 1), 1);
    let t = recorded(transfer(Some(1), Amount::new(2500, 2), "111", "222").unwrap(), 2);
    let sender = compute_for_balance(&vec![opening, t.clone()], "111").unwrap();
    let receiver = compute_for_balance(&vec![t], "222").unwrap();
    assert_eq!((sender.mantissa, sender.scale), (7500, 2));
    assert_eq!((receiver.mantissa, receiver.scale), (2500, 2));
}

fn claims(account_number: Option<&str>) -> JwtClaims {
    JwtClaims {
        sub: 7,
        email: "a@b.c".to_string(),
        user_type: "customer".to_string(),
        exp: 1_700_604_800,
        account_number: account_number.map(|a| a.to_string()),
    }
}

fn unauthorized(m: &str) -> AppError {
    AppError::Unauthorized(m.to_string())
}

#[test]
fn overview_outcomes() {
    let session = || Ok(claims(Some("0123456789")));
    assert_eq!(my_account(session(), 1, None), Err(nf("User not found")));
    assert_eq!(
        my_account(session(), 1, Some((profile(), None))),
        Ok(MyAccountResponse { user_account: None })
    );
    assert_eq!(
        my_account(session(), 1, Some((profile(), Some(summary())))),
        Ok(MyAccountResponse {
            user_account: Some(UserAccountDetails { user: profile(), account: summary() })
        })
    );
}

#[test]
fn overview_refusals() {
    let invalid = unauthorized("Invalid or expired session");
    assert_eq!(my_account(Err(invalid.clone()), 1, Some((profile(), None))), Err(invalid.clone()));
    assert_eq!(my_account(Ok(claims(None)), 1, Some((profile(), None))), Err(invalid));
    assert_eq!(
        my_account(Ok(claims(Some("0123456789"))), 0, Some((profile(), None))),
        Err(nf("Account not found"))
    );
}

#[test]
fn response_messages() {
    let row = recorded(withdraw(Some(1), Amount::new(1, 0), "1").unwrap(), 9);
    assert_eq!(withdrawal_done(row.clone()).message, "Withdrawal successful");
    assert_eq!(transfer_done(row.clone()).message, "Transfer successful");
    let d = deposit_started("https://checkout".to_string(), row.clone());
    assert_eq!(d.message, "Deposit initiated. Complete payment at the provided URL.");
    assert_eq!(d.checkout_url.as_deref(), Some("https://checkout"));
    assert_eq!(d.transaction, Some(row));
}

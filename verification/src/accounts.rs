use vstd::prelude::*;
use vstd::string::StringExecFns;
use crate::amount::{Amount, MAX_SCALE, amount_le, lemma_pow10_positive, pow10};
use crate::auth::{random_byte, session_account_number, JwtClaims};
use crate::errors::{AppError, bad_request, not_found, is_bad_request, is_not_found, is_unauthorized};
use crate::ledger::Transaction;

verus! {

/// The user id that the lookup by email found, or "User not found". The id is narrowed
/// to `i32` as the service does (`as i32`).
pub fn check_if_user_exists(found_user_id: Option<i64>) -> (r: Result<i32, AppError>)
    ensures
        match found_user_id {
            Some(id) => r == Ok::<i32, AppError>(id as i32),
            None => is_not_found(r, "User not found"@),
        },
{
    match found_user_id {
        Some(id) => Ok(id as i32),
        None => Err(not_found("User not found")),
    }
}

/// A user may open one account only: an account already found for the user is refused.
pub fn check_if_user_account_exists(existing_account_id: Option<i64>) -> (r: Result<(), AppError>)
    ensures
        existing_account_id is Some ==> is_not_found(r, "Account already exists"@),
        existing_account_id is None ==> r is Ok,
{
    if existing_account_id.is_some() {
        return Err(not_found("Account already exists"));
    }
    Ok(())
}

/// Money moves only for a user with an active account.
pub fn check_if_account_active(active_account_id: Option<i64>) -> (r: Result<(), AppError>)
    ensures
        active_account_id is None ==> is_not_found(r, "Account not found or inactive"@),
        active_account_id is Some ==> r is Ok,
{
    if active_account_id.is_none() {
        return Err(not_found("Account not found or inactive"));
    }
    Ok(())
}

/// Only positive amounts move (an amount is positive exactly when its mantissa is).
pub fn check_amount_being_transferred(amount: Amount) -> (r: Result<(), AppError>)
    requires
        amount.wf(),
    ensures
        amount.mantissa <= 0 ==> is_bad_request(r, "Amount must be greater than zero"@),
        amount.mantissa > 0 ==> r is Ok,
{
    proof {
        lemma_pow10_positive((MAX_SCALE - amount.scale) as nat);
        assert((amount.units() <= 0) == (amount.mantissa <= 0)) by (nonlinear_arith)
            requires
                amount.units() == amount.mantissa * pow10((MAX_SCALE - amount.scale) as nat),
                pow10((MAX_SCALE - amount.scale) as nat) >= 1,
        ;
    }
    if amount_le(amount, Amount::zero()) {
        return Err(bad_request("Amount must be greater than zero"));
    }
    Ok(())
}

/// Storing a computed balance must have updated the account's row.
pub fn record_balance(rows_affected: u64) -> (r: Result<(), AppError>)
    ensures
        rows_affected == 0 ==> is_not_found(r, "Account not found"@),
        rows_affected != 0 ==> r is Ok,
{
    if rows_affected == 0 {
        return Err(not_found("Account not found"));
    }
    Ok(())
}

pub open spec fn decimal_digits() -> Seq<char> {
    seq!['0', '1', '2', '3', '4', '5', '6', '7', '8', '9']
}

/// Ten decimal digits.
pub open spec fn is_account_number(s: Seq<char>) -> bool {
    s.len() == 10 && forall|i: int| 0 <= i < 10 ==> decimal_digits().contains(#[trigger] s[i])
}

/// The decimal digit that a drawn byte gives: the byte modulo 10.
pub open spec fn digit_of_draw(draw: u8) -> char {
    decimal_digits()[draw as int % 10]
}

/// The account number that ten drawn bytes give: digit `k` is the `k`th byte modulo 10,
/// as the service's `rand::random::<u8>() % 10` per digit.
pub fn account_number_from_draws(draws: &[u8]) -> (number: String)
    requires
        draws@.len() == 10,
    ensures
        number@.len() == 10,
        forall|k: int| 0 <= k < 10 ==> number@[k] == decimal_digits()[draws@[k] as int % 10],
        is_account_number(number@),
{
    let digits = "0123456789";
    proof {
        reveal_strlit("0123456789");
        assert(digits@ =~= decimal_digits());
    }
    let mut number = String::new();
    let mut k: usize = 0;
    while k < 10
        invariant
            k <= 10,
            draws@.len() == 10,
            digits@ == decimal_digits(),
            number@.len() == k,
            forall|i: int| 0 <= i < k ==> #[trigger] number@[i] == decimal_digits()[draws@[i] as int % 10],
        decreases 10 - k,
    {
        let d = (draws[k] % 10) as usize;
        let digit = digits.substring_char(d, d + 1);
        proof {
            assert(digit@.len() == 1);
            assert(digit@[0] == decimal_digits()[d as int]);
        }
        let ghost before = number@;
        number.append(digit);
        proof {
            assert forall|i: int| 0 <= i < k + 1 implies #[trigger] number@[i] == decimal_digits()[draws@[i] as int % 10] by {
                if i < k {
                    assert(number@[i] == before[i]);
                } else {
                    assert(number@[i] == digit@[0]);
                }
            }
        }
        k = k + 1;
    }
    proof {
        assert forall|i: int| 0 <= i < 10 implies decimal_digits().contains(#[trigger] number@[i]) by {
            let v = draws@[i] as int % 10;
            assert(0 <= v < 10);
            assert(number@[i] == decimal_digits()[v]);
        }
    }
    number
}

/// A new account number: ten random bytes drawn with `rand::random::<u8>()`, each
/// giving one decimal digit (the byte modulo 10). Which bytes are drawn is chance; the
/// number is the one those ten bytes give.
pub fn generate_account_number() -> (number: String)
    ensures
        is_account_number(number@),
        exists|draws: Seq<u8>|
            draws.len() == 10 && forall|k: int|
                0 <= k < 10 ==> number@[k] == #[trigger] digit_of_draw(draws[k]),
{
    let mut draws: Vec<u8> = Vec::new();
    while draws.len() < 10
        invariant
            draws@.len() <= 10,
        decreases 10 - draws@.len(),
    {
        draws.push(random_byte());
    }
    let number = account_number_from_draws(draws.as_slice());
    proof {
        assert(forall|k: int| 0 <= k < 10 ==> number@[k] == #[trigger] digit_of_draw(draws@[k]));
    }
    number
}

/// A transaction about to be recorded: the columns the service inserts (the database
/// adds the id and the creation time, and a UUID where none is given).
#[derive(Debug, Clone, PartialEq, Eq)]
pub struct NewTransaction {
    pub amount_transferred: Amount,
    pub from_account_number: Option<String>,
    pub to_account_number: Option<String>,
    pub transaction_type: String,
    pub status: String,
    pub transaction_uuid: Option<u128>,
}

/// The checks of a money movement, in the service's order: an active account first,
/// then a positive amount.
pub open spec fn movement_refusal(active_account_id: Option<i64>, amount: Amount) -> Option<
    (bool, Seq<char>),
> {
    if active_account_id is None {
        Some((true, "Account not found or inactive"@))
    } else if amount.mantissa <= 0 {
        Some((false, "Amount must be greater than zero"@))
    } else {
        None
    }
}

pub open spec fn refused_as<T>(r: Result<T, AppError>, refusal: (bool, Seq<char>)) -> bool {
    if refusal.0 {
        is_not_found(r, refusal.1)
    } else {
        is_bad_request(r, refusal.1)
    }
}

fn check_movement(active_account_id: Option<i64>, amount: Amount) -> (r: Result<(), AppError>)
    requires
        amount.wf(),
    ensures
        match movement_refusal(active_account_id, amount) {
            Some(why) => refused_as(r, why),
            None => r is Ok,
        },
{
    check_if_account_active(active_account_id)?;
    check_amount_being_transferred(amount)
}

/// Starting a deposit into the user's account: the pending deposit row to record before
/// the PayMongo checkout session is opened.
pub fn start_deposit(active_account_id: Option<i64>, amount: Amount, account_number: &str) -> (r:
    Result<NewTransaction, AppError>)
    requires
        amount.wf(),
    ensures
        match movement_refusal(active_account_id, amount) {
            Some(why) => refused_as(r, why),
            None => r matches Ok(t) && t.amount_transferred == amount && t.from_account_number
                is None && (t.to_account_number matches Some(to) && to@ == account_number@)
                && t.transaction_type@ == "deposit"@ && t.status@ == "pending"@
                && t.transaction_uuid is None,
        },
{
    check_movement(active_account_id, amount)?;
    Ok(
        NewTransaction {
            amount_transferred: amount,
            from_account_number: None,
            to_account_number: Some(account_number.to_owned()),
            transaction_type: "deposit".to_owned(),
            status: "pending".to_owned(),
            transaction_uuid: None,
        },
    )
}

/// Completing a paid deposit: the completed row, linked to the pending one by its UUID.
pub fn complete_deposit(account_number: &str, amount: Amount, transaction_uuid: u128) -> (t:
    NewTransaction)
    ensures
        t.amount_transferred == amount,
        t.from_account_number is None,
        t.to_account_number matches Some(to) && to@ == account_number@,
        t.transaction_type@ == "deposit"@,
        t.status@ == "completed"@,
        t.transaction_uuid == Some(transaction_uuid),
{
    NewTransaction {
        amount_transferred: amount,
        from_account_number: None,
        to_account_number: Some(account_number.to_owned()),
        transaction_type: "deposit".to_owned(),
        status: "completed".to_owned(),
        transaction_uuid: Some(transaction_uuid),
    }
}

/// A withdrawal from the user's account: the completed row to record.
pub fn withdraw(active_account_id: Option<i64>, amount: Amount, account_number: &str) -> (r: Result<
    NewTransaction,
    AppError,
>)
    requires
        amount.wf(),
    ensures
        match movement_refusal(active_account_id, amount) {
            Some(why) => refused_as(r, why),
            None => r matches Ok(t) && t.amount_transferred == amount && (t.from_account_number
                matches Some(from) && from@ == account_number@) && t.to_account_number is None
                && t.transaction_type@ == "withdrawal"@ && t.status@ == "completed"@
                && t.transaction_uuid is None,
        },
{
    check_movement(active_account_id, amount)?;
    Ok(
        NewTransaction {
            amount_transferred: amount,
            from_account_number: Some(account_number.to_owned()),
            to_account_number: None,
            transaction_type: "withdrawal".to_owned(),
            status: "completed".to_owned(),
            transaction_uuid: None,
        },
    )
}

/// A transfer from the user's account (the one in the session token) to a target
/// account: the completed row to record.
pub fn transfer(
    active_account_id: Option<i64>,
    amount: Amount,
    user_account_number: &str,
    target_account_number: &str,
) -> (r: Result<NewTransaction, AppError>)
    requires
        amount.wf(),
    ensures
        match movement_refusal(active_account_id, amount) {
            Some(why) => refused_as(r, why),
            None => r matches Ok(t) && t.amount_transferred == amount && (t.from_account_number
                matches Some(from) && from@ == user_account_number@) && (t.to_account_number
                matches Some(to) && to@ == target_account_number@) && t.transaction_type@
                == "transfer"@ && t.status@ == "completed"@ && t.transaction_uuid is None,
        },
{
    check_movement(active_account_id, amount)?;
    Ok(
        NewTransaction {
            amount_transferred: amount,
            from_account_number: Some(user_account_number.to_owned()),
            to_account_number: Some(target_account_number.to_owned()),
            transaction_type: "transfer".to_owned(),
            status: "completed".to_owned(),
            transaction_uuid: None,
        },
    )
}

/// The profile fields of a user that the account overview shows.
#[derive(Debug, Clone, PartialEq, Eq)]
pub struct UserProfile {
    pub email: String,
    pub first_name: String,
    pub last_name: String,
    pub country: Option<String>,
    pub province: Option<String>,
    pub city: Option<String>,
    pub street: String,
    pub house_no: String,
    pub zip_code: String,
    pub sex: Option<String>,
    pub nationality: Option<String>,
    /// Day number counted from the common era (chrono's `num_days_from_ce`).
    pub birth_date: Option<i32>,
    pub contact_no: String,
    pub user_type: String,
}

/// The account fields that the account overview shows.
#[derive(Debug, Clone, PartialEq, Eq)]
pub struct AccountSummary {
    pub account_number: String,
    /// "checking" or "savings".
    pub account_type: String,
    pub currency: String,
    pub balance: Amount,
    /// "active", "closed" or "frozen".
    pub status: String,
}

/// A user's profile together with their account.
#[derive(Debug, Clone, PartialEq, Eq)]
pub struct UserAccountDetails {
    pub user: UserProfile,
    pub account: AccountSummary,
}

/// The account overview: empty for a user without an account.
#[derive(Debug, Clone, PartialEq, Eq)]
pub struct MyAccountResponse {
    pub user_account: Option<UserAccountDetails>,
}

/// The account overview, from the session (as `decode_session` read it), the number of
/// account rows that storing the recomputed balance updated, and the row that joins the
/// session's user with their account (`None` when no user has the session's id). A session
/// that does not decode or carries no account number is answered "Invalid or expired
/// session"; a balance that updated no row, "Account not found"; a missing user, "User not
/// found".
pub fn my_account(
    session: Result<JwtClaims, AppError>,
    balance_rows_updated: u64,
    record: Option<(UserProfile, Option<AccountSummary>)>,
) -> (r: Result<MyAccountResponse, AppError>)
    ensures
        match session {
            Err(e) => r == Err::<MyAccountResponse, AppError>(e),
            Ok(claims) => if claims.account_number is None {
                is_unauthorized(r, "Invalid or expired session"@)
            } else if balance_rows_updated == 0 {
                is_not_found(r, "Account not found"@)
            } else {
                match record {
                    None => is_not_found(r, "User not found"@),
                    Some((user, None)) => r == Ok::<MyAccountResponse, AppError>(
                        MyAccountResponse { user_account: None },
                    ),
                    Some((user, Some(account))) => r == Ok::<MyAccountResponse, AppError>(
                        MyAccountResponse {
                            user_account: Some(UserAccountDetails { user, account }),
                        },
                    ),
                }
            },
        },
{
    let claims = match session {
        Ok(c) => c,
        Err(e) => return Err(e),
    };
    if let Err(e) = session_account_number(&claims) {
        return Err(e);
    }
    if let Err(e) = record_balance(balance_rows_updated) {
        return Err(e);
    }
    match record {
        None => Err(not_found("User not found")),
        Some((user, None)) => Ok(MyAccountResponse { user_account: None }),
        Some((user, Some(account))) => Ok(
            MyAccountResponse { user_account: Some(UserAccountDetails { user, account }) },
        ),
    }
}

/// The answer to a started deposit.
#[derive(Debug, Clone, PartialEq, Eq)]
pub struct DepositResponse {
    pub message: String,
    pub checkout_url: Option<String>,
    pub transaction: Option<Transaction>,
}

/// The answer to a withdrawal.
#[derive(Debug, Clone, PartialEq, Eq)]
pub struct WithdrawalResponse {
    pub message: String,
    pub transaction: Option<Transaction>,
}

/// The answer to a transfer.
#[derive(Debug, Clone, PartialEq, Eq)]
pub struct TransferResponse {
    pub message: String,
    pub transaction: Option<Transaction>,
}

/// A deposit whose pending row is recorded and whose checkout session is open.
pub fn deposit_started(checkout_url: String, transaction: Transaction) -> (r: DepositResponse)
    ensures
        r.message@ == "Deposit initiated. Complete payment at the provided URL."@,
        r.checkout_url == Some(checkout_url),
        r.transaction == Some(transaction),
{
    DepositResponse {
        message: "Deposit initiated. Complete payment at the provided URL.".to_owned(),
        checkout_url: Some(checkout_url),
        transaction: Some(transaction),
    }
}

/// A recorded withdrawal.
pub fn withdrawal_done(transaction: Transaction) -> (r: WithdrawalResponse)
    ensures
        r.message@ == "Withdrawal successful"@,
        r.transaction == Some(transaction),
{
    WithdrawalResponse { message: "Withdrawal successful".to_owned(), transaction: Some(transaction) }
}

/// A recorded transfer.
pub fn transfer_done(transaction: Transaction) -> (r: TransferResponse)
    ensures
        r.message@ == "Transfer successful"@,
        r.transaction == Some(transaction),
{
    TransferResponse { message: "Transfer successful".to_owned(), transaction: Some(transaction) }
}

} // verus!

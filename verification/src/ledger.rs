use vstd::prelude::*;
use crate::amount::{
    Amount, MAX_MANTISSA, MAX_SCALE, decimal_sum, decimal_difference, fits_at, max_scale, pow10,
    lemma_pow10_monotonic, add_amounts, subtract_amounts,
};

verus! {

/// A row of the transactions table.
#[derive(Debug, Clone, PartialEq, Eq)]
pub struct Transaction {
    pub id: i32,
    pub from_account_number: Option<String>,
    pub to_account_number: Option<String>,
    pub amount_transferred: Amount,
    /// "transfer", "deposit" or "withdrawal".
    pub transaction_type: String,
    /// "pending", "completed" or "failed".
    pub status: String,
    /// Creation time, in microseconds since the Unix epoch (UTC).
    pub created_at: i64,
}

/// The transaction takes money out of `account`: it is recorded as sent from it.
pub open spec fn debits(t: Transaction, account: Seq<char>) -> bool {
    t.from_account_number matches Some(f) && f@ == account
}

pub open spec fn amounts_wf(txs: Seq<Transaction>) -> bool {
    forall|i: int| 0 <= i < txs.len() ==> (#[trigger] txs[i]).amount_transferred.wf()
}

/// The balance that the given rows make for `account`, taken in order: starting from
/// zero, each row sent from the account is subtracted and every other row added, each
/// step with Decimal's checked arithmetic; `None` once a step leaves Decimal's range.
pub open spec fn balance_of(txs: Seq<Transaction>, account: Seq<char>) -> Option<Amount>
    decreases txs.len(),
{
    if txs.len() == 0 {
        Some(Amount { mantissa: 0, scale: 0 })
    } else {
        match balance_of(txs.drop_last(), account) {
            None => None,
            Some(b) => {
                let t = txs.last();
                let step = if debits(t, account) {
                    decimal_difference(b.parts(), t.amount_transferred.parts())
                } else {
                    decimal_sum(b.parts(), t.amount_transferred.parts())
                };
                match step {
                    Some(p) => Some(Amount::from_pair(p)),
                    None => None,
                }
            },
        }
    }
}

/// The signed effect of one row on the balance of `account`, in units of 10^-28.
pub open spec fn signed_units(t: Transaction, account: Seq<char>) -> int {
    if debits(t, account) {
        -t.amount_transferred.units()
    } else {
        t.amount_transferred.units()
    }
}

/// The exact net amount of the rows for `account`, in units of 10^-28.
pub open spec fn net_units(txs: Seq<Transaction>, account: Seq<char>) -> int
    decreases txs.len(),
{
    if txs.len() == 0 {
        0
    } else {
        net_units(txs.drop_last(), account) + signed_units(txs.last(), account)
    }
}

/// The largest scale among the amounts of the rows (0 for no rows).
pub open spec fn max_amount_scale(txs: Seq<Transaction>) -> u32
    decreases txs.len(),
{
    if txs.len() == 0 {
        0
    } else {
        max_scale(max_amount_scale(txs.drop_last()), txs.last().amount_transferred.scale)
    }
}

/// Every running total of the rows fits a Decimal at the largest scale among them, so no
/// step of the balance rounds or overflows.
pub open spec fn running_totals_fit(txs: Seq<Transaction>, account: Seq<char>) -> bool {
    forall|k: int|
        0 <= k <= txs.len() ==> fits_at(
            #[trigger] net_units(txs.take(k), account),
            max_amount_scale(txs),
        )
}

proof fn lemma_scale_le_max(txs: Seq<Transaction>, i: int)
    requires
        0 <= i < txs.len(),
    ensures
        txs[i].amount_transferred.scale <= max_amount_scale(txs),
        max_amount_scale(txs.take(i)) <= max_amount_scale(txs),
    decreases txs.len(),
{
    if i < txs.len() - 1 {
        lemma_scale_le_max(txs.drop_last(), i);
        assert(txs.drop_last().take(i) =~= txs.take(i));
        assert(txs.drop_last()[i] == txs[i]);
    } else {
        assert(txs.take(i) =~= txs.drop_last());
    }
}

proof fn lemma_max_scale_bounded(txs: Seq<Transaction>)
    requires
        amounts_wf(txs),
    ensures
        max_amount_scale(txs) <= MAX_SCALE,
    decreases txs.len(),
{
    if txs.len() > 0 {
        assert(amounts_wf(txs.drop_last()));
        lemma_max_scale_bounded(txs.drop_last());
        assert(txs.last() == txs[txs.len() - 1]);
    }
}

/// Once a prefix of the rows leaves Decimal's range, so do all longer ones.
proof fn lemma_balance_none_persists(txs: Seq<Transaction>, account: Seq<char>, k: int)
    requires
        0 <= k <= txs.len(),
        balance_of(txs.take(k), account) is None,
    ensures
        balance_of(txs, account) is None,
    decreases txs.len() - k,
{
    if k == txs.len() {
        assert(txs.take(k) =~= txs);
    } else {
        assert(txs.take(k + 1).drop_last() =~= txs.take(k));
        lemma_balance_none_persists(txs, account, k + 1);
    }
}

/// A value that fits at some scale fits at every smaller one.
proof fn lemma_fits_at_smaller_scale(u: int, small: u32, large: u32)
    requires
        small <= large <= MAX_SCALE,
        fits_at(u, large),
    ensures
        fits_at(u, small),
{
    lemma_pow10_monotonic((MAX_SCALE - large) as nat, (MAX_SCALE - small) as nat);
    let p = pow10((MAX_SCALE - large) as nat);
    let q = pow10((MAX_SCALE - small) as nat);
    assert(MAX_MANTISSA * p <= MAX_MANTISSA * q) by (nonlinear_arith)
        requires
            p <= q,
            MAX_MANTISSA > 0,
    ;
}

/// The row belongs to the account's balance: it is completed and was sent from or to the
/// account (the selection of the service's balance query).
pub open spec fn counts_toward(t: Transaction, account: Seq<char>) -> bool {
    &&& t.status@ == "completed"@
    &&& (debits(t, account) || (t.to_account_number matches Some(g) && g@ == account))
}

/// The rows of a ledger that count toward the account's balance, in ledger order.
pub open spec fn account_rows(ledger: Seq<Transaction>, account: Seq<char>) -> Seq<Transaction>
    decreases ledger.len(),
{
    if ledger.len() == 0 {
        Seq::<Transaction>::empty()
    } else {
        let init = account_rows(ledger.drop_last(), account);
        if counts_toward(ledger.last(), account) {
            init.push(ledger.last())
        } else {
            init
        }
    }
}

/// Selecting the rows of two batches selects from each.
pub proof fn lemma_account_rows_additive(a: Seq<Transaction>, b: Seq<Transaction>, account: Seq<char>)
    ensures
        account_rows(a + b, account) == account_rows(a, account) + account_rows(b, account),
    decreases b.len(),
{
    if b.len() == 0 {
        assert(a + b =~= a);
        assert(account_rows(a, account) + account_rows(b, account) =~= account_rows(a, account));
    } else {
        assert((a + b).drop_last() =~= a + b.drop_last());
        assert((a + b).last() == b.last());
        lemma_account_rows_additive(a, b.drop_last(), account);
        if counts_toward(b.last(), account) {
            assert(account_rows(a + b, account) =~= account_rows(a, account) + account_rows(b, account));
        }
    }
}

proof fn lemma_account_rows_prefix(ledger: Seq<Transaction>, i: int, account: Seq<char>)
    requires
        0 <= i <= ledger.len(),
    ensures
        account_rows(ledger.take(i), account).len() <= account_rows(ledger, account).len(),
        account_rows(ledger.take(i), account) == account_rows(ledger, account).take(
            account_rows(ledger.take(i), account).len() as int,
        ),
{
    lemma_account_rows_additive(ledger.take(i), ledger.skip(i), account);
    assert(ledger.take(i) + ledger.skip(i) =~= ledger);
    let a = account_rows(ledger.take(i), account);
    let b = account_rows(ledger.skip(i), account);
    assert((a + b).take(a.len() as int) =~= a);
}

proof fn lemma_account_rows_wf(ledger: Seq<Transaction>, account: Seq<char>)
    requires
        amounts_wf(ledger),
    ensures
        amounts_wf(account_rows(ledger, account)),
    decreases ledger.len(),
{
    if ledger.len() > 0 {
        assert(amounts_wf(ledger.drop_last()));
        lemma_account_rows_wf(ledger.drop_last(), account);
        assert(ledger.last() == ledger[ledger.len() - 1]);
    }
}

/// The balance of an account, as the service computes it: over the rows of the ledger
/// that count toward the account (completed, sent from or to it), in order, starting from
/// zero, each row sent from the account subtracted and each other one added, with
/// Decimal's checked arithmetic. `None` where a step leaves Decimal's range: there the
/// service panics ("Addition overflowed" / "Subtraction overflowed").
///
/// Where every running total fits a Decimal at the largest scale among the amounts, the
/// result is exact: the sum of the completed rows received minus the sum of those sent.
pub fn compute_for_balance(transactions: &Vec<Transaction>, account_number: &str) -> (r: Option<
    Amount,
>)
    requires
        amounts_wf(transactions@),
    ensures
        r == balance_of(account_rows(transactions@, account_number@), account_number@),
        r matches Some(b) ==> b.wf(),
        running_totals_fit(account_rows(transactions@, account_number@), account_number@) ==> (r matches Some(b)
            && b.units() == net_units(account_rows(transactions@, account_number@), account_number@)),
{
    let ghost txs = transactions@;
    let ghost acct = account_number@;
    let ghost rows = account_rows(txs, acct);
    let ghost exact: bool = running_totals_fit(rows, acct);
    proof {
        lemma_account_rows_wf(txs, acct);
        lemma_max_scale_bounded(rows);
    }
    let account: String = account_number.to_owned();
    let completed: String = "completed".to_owned();
    let mut balance = Amount::zero();
    let mut i: usize = 0;
    proof {
        assert(txs.take(0) =~= Seq::<Transaction>::empty());
    }
    while i < transactions.len()
        invariant
            i <= transactions.len(),
            txs == transactions@,
            acct == account_number@,
            rows == account_rows(txs, acct),
            account@ == acct,
            completed@ == "completed"@,
            amounts_wf(txs),
            amounts_wf(rows),
            max_amount_scale(rows) <= MAX_SCALE,
            exact == running_totals_fit(rows, acct),
            balance.wf(),
            balance_of(account_rows(txs.take(i as int), acct), acct) == Some(balance),
            balance.scale <= max_amount_scale(account_rows(txs.take(i as int), acct)),
            exact ==> balance.units() == net_units(account_rows(txs.take(i as int), acct), acct),
        decreases transactions.len() - i,
    {
        let t = &transactions[i];
        let ghost before = account_rows(txs.take(i as int), acct);
        let ghost after = account_rows(txs.take(i + 1), acct);
        proof {
            assert(txs.take(i + 1).drop_last() =~= txs.take(i as int));
            assert(txs.take(i + 1).last() == txs[i as int]);
            assert(txs[i as int].amount_transferred.wf());
            lemma_account_rows_prefix(txs, i as int, acct);
            lemma_account_rows_prefix(txs, i + 1, acct);
        }
        let sent = match &t.from_account_number {
            Some(f) => *f == account,
            None => false,
        };
        let received = match &t.to_account_number {
            Some(g) => *g == account,
            None => false,
        };
        if t.status == completed && (sent || received) {
            proof {
                let k = after.len() as int;
                assert(after == before.push(*t));
                assert(after =~= rows.take(k));
                assert(before =~= rows.take(k - 1));
                assert(after[k - 1] == *t);
                assert(rows.take(k)[k - 1] == rows[k - 1]);
                assert(rows[k - 1] == *t);
                lemma_scale_le_max(rows, k - 1);
                if k < rows.len() {
                    lemma_scale_le_max(rows, k);
                } else {
                    assert(rows.take(k) =~= rows);
                }
                assert(after.drop_last() =~= before);
                if exact {
                    assert(fits_at(net_units(rows.take(k), acct), max_amount_scale(rows)));
                    lemma_fits_at_smaller_scale(
                        net_units(after, acct),
                        max_scale(balance.scale, t.amount_transferred.scale),
                        max_amount_scale(rows),
                    );
                }
            }
            let step = if sent {
                subtract_amounts(balance, t.amount_transferred)
            } else {
                add_amounts(balance, t.amount_transferred)
            };
            match step {
                Some(b) => {
                    balance = b;
                },
                None => {
                    proof {
                        lemma_balance_none_persists(rows, acct, after.len() as int);
                    }
                    return None;
                },
            }
        } else {
            proof {
                assert(after == before);
            }
        }
        i = i + 1;
    }
    proof {
        assert(txs.take(i as int) =~= txs);
    }
    Some(balance)
}

/// The net amount of two batches of rows is the sum of their nets.
pub proof fn law_net_units_additive(a: Seq<Transaction>, b: Seq<Transaction>, account: Seq<char>)
    ensures
        net_units(a + b, account) == net_units(a, account) + net_units(b, account),
    decreases b.len(),
{
    if b.len() == 0 {
        assert(a + b =~= a);
    } else {
        assert((a + b).drop_last() =~= a + b.drop_last());
        assert((a + b).last() == b.last());
        law_net_units_additive(a, b.drop_last(), account);
    }
}

/// The exact balance does not depend on the order in which the rows come: moving a batch
/// of rows in front of another leaves the net amount unchanged.
pub proof fn law_net_units_order_independent(
    a: Seq<Transaction>,
    b: Seq<Transaction>,
    account: Seq<char>,
)
    ensures
        net_units(a + b, account) == net_units(b + a, account),
{
    law_net_units_additive(a, b, account);
    law_net_units_additive(b, a, account);
}

/// Adding a row to the ledger changes an account's balance only where the row counts
/// toward it (completed, sent from or to the account); a counting row steps the balance
/// once, subtracted if sent from the account and added otherwise.
pub proof fn law_balance_step(ledger: Seq<Transaction>, t: Transaction, account: Seq<char>)
    ensures
        !counts_toward(t, account) ==> balance_of(account_rows(ledger.push(t), account), account)
            == balance_of(account_rows(ledger, account), account),
        counts_toward(t, account) ==> balance_of(account_rows(ledger.push(t), account), account)
            == (match balance_of(account_rows(ledger, account), account) {
            None => None,
            Some(b) => match (if debits(t, account) {
                decimal_difference(b.parts(), t.amount_transferred.parts())
            } else {
                decimal_sum(b.parts(), t.amount_transferred.parts())
            }) {
                Some(p) => Some(Amount::from_pair(p)),
                None => None,
            },
        }),
{
    assert(ledger.push(t).drop_last() =~= ledger);
    if counts_toward(t, account) {
        assert(account_rows(ledger.push(t), account).drop_last() =~= account_rows(ledger, account));
    }
}

/// A deposit that is still pending (or any row not completed) moves no balance.
pub proof fn law_pending_rows_do_not_count(ledger: Seq<Transaction>, t: Transaction, account: Seq<char>)
    requires
        t.status@ != "completed"@,
    ensures
        account_rows(ledger.push(t), account) == account_rows(ledger, account),
{
    assert(ledger.push(t).drop_last() =~= ledger);
}

/// A completed transfer between two different accounts moves its amount: recorded in the
/// ledger, it lowers the sender's exact balance by the amount, raises the receiver's by
/// the same, leaves their sum unchanged, and leaves every other account's rows as they
/// were.
pub proof fn law_transfer_moves_amount(
    ledger: Seq<Transaction>,
    t: Transaction,
    sender: Seq<char>,
    receiver: Seq<char>,
    other: Seq<char>,
)
    requires
        t.status@ == "completed"@,
        t.from_account_number matches Some(f) && f@ == sender,
        t.to_account_number matches Some(g) && g@ == receiver,
        sender != receiver,
        other != sender,
        other != receiver,
    ensures
        net_units(account_rows(ledger.push(t), sender), sender) == net_units(
            account_rows(ledger, sender),
            sender,
        ) - t.amount_transferred.units(),
        net_units(account_rows(ledger.push(t), receiver), receiver) == net_units(
            account_rows(ledger, receiver),
            receiver,
        ) + t.amount_transferred.units(),
        net_units(account_rows(ledger.push(t), sender), sender) + net_units(
            account_rows(ledger.push(t), receiver),
            receiver,
        ) == net_units(account_rows(ledger, sender), sender) + net_units(
            account_rows(ledger, receiver),
            receiver,
        ),
        account_rows(ledger.push(t), other) == account_rows(ledger, other),
{
    assert(ledger.push(t).drop_last() =~= ledger);
    let rs = account_rows(ledger.push(t), sender);
    let rr = account_rows(ledger.push(t), receiver);
    assert(rs.drop_last() =~= account_rows(ledger, sender));
    assert(rr.drop_last() =~= account_rows(ledger, receiver));
}

/// Every completed row sent from an account lowers that account's exact balance by its
/// amount, whatever its type and whether or not it has a receiver (a withdrawal has
/// none); where the row is not also received by the account, the balance steps by
/// Decimal's checked subtraction of the amount.
pub proof fn law_sent_rows_lower_balance(ledger: Seq<Transaction>, t: Transaction, account: Seq<char>)
    requires
        t.status@ == "completed"@,
        t.from_account_number matches Some(f) && f@ == account,
    ensures
        net_units(account_rows(ledger.push(t), account), account) == net_units(
            account_rows(ledger, account),
            account,
        ) - t.amount_transferred.units(),
        account_rows(ledger.push(t), account) == account_rows(ledger, account).push(t),
        balance_of(account_rows(ledger.push(t), account), account) == (match balance_of(
            account_rows(ledger, account),
            account,
        ) {
            None => None,
            Some(b) => match decimal_difference(b.parts(), t.amount_transferred.parts()) {
                Some(p) => Some(Amount::from_pair(p)),
                None => None,
            },
        }),
{
    assert(ledger.push(t).drop_last() =~= ledger);
    let rows = account_rows(ledger.push(t), account);
    assert(rows.drop_last() =~= account_rows(ledger, account));
}

/// Every completed row received by an account and not sent from it raises that account's
/// exact balance by its amount, whatever its type and whether or not it has a sender (a
/// deposit has none); the balance steps by Decimal's checked addition of the amount.
pub proof fn law_received_rows_raise_balance(
    ledger: Seq<Transaction>,
    t: Transaction,
    account: Seq<char>,
)
    requires
        t.status@ == "completed"@,
        t.to_account_number matches Some(g) && g@ == account,
        !(t.from_account_number matches Some(f) && f@ == account),
    ensures
        net_units(account_rows(ledger.push(t), account), account) == net_units(
            account_rows(ledger, account),
            account,
        ) + t.amount_transferred.units(),
        account_rows(ledger.push(t), account) == account_rows(ledger, account).push(t),
        balance_of(account_rows(ledger.push(t), account), account) == (match balance_of(
            account_rows(ledger, account),
            account,
        ) {
            None => None,
            Some(b) => match decimal_sum(b.parts(), t.amount_transferred.parts()) {
                Some(p) => Some(Amount::from_pair(p)),
                None => None,
            },
        }),
{
    assert(ledger.push(t).drop_last() =~= ledger);
    let rows = account_rows(ledger.push(t), account);
    assert(rows.drop_last() =~= account_rows(ledger, account));
}

/// A row that is neither sent from nor received by an account leaves its rows, and so
/// its balance, as they were.
pub proof fn law_unrelated_rows_do_not_count(ledger: Seq<Transaction>, t: Transaction, account: Seq<char>)
    requires
        !(t.from_account_number matches Some(f) && f@ == account),
        !(t.to_account_number matches Some(g) && g@ == account),
    ensures
        account_rows(ledger.push(t), account) == account_rows(ledger, account),
{
    assert(ledger.push(t).drop_last() =~= ledger);
}

} // verus!

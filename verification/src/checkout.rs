use vstd::prelude::*;
use vstd::string::StringExecFns;
use crate::amount::{
    Amount, MAX_MANTISSA, MAX_SCALE, pow10, truncated, decimal_product, multiply_amounts,
    amount_to_i64, lemma_pow10_positive, lemma_pow10_add, exact_after_dropping,
};
use crate::errors::{AppError, bad_request, internal_error, is_bad_request, is_internal};

verus! {

/// The centavo count of an amount (the amount times 100, truncated toward zero), as
/// `(amount * Decimal::new(100, 0)).to_i64()` computes it: `Some(None)` where it does not
/// fit an `i64`, `None` where the multiplication itself overflows.
pub open spec fn centavos_of(amount: Amount) -> Option<Option<i64>> {
    match decimal_product(amount.parts(), (100i128, 0u32)) {
        None => None,
        Some(p) => {
            let t = truncated(Amount::from_pair(p));
            if i64::MIN <= t <= i64::MAX {
                Some(Some(t as i64))
            } else {
                Some(None)
            }
        },
    }
}

proof fn lemma_exact_centavos(m: int, s: nat, xm: int, xs: nat)
    requires
        s <= 2,
        xm * pow10(s) == m * 100 * pow10(xs),
    ensures
        (if xm >= 0 {
            xm / pow10(xs)
        } else {
            -((-xm) / pow10(xs))
        }) == m * pow10((2 - s) as nat),
{
    lemma_pow10_positive(xs);
    let p = pow10(xs);
    let k = m * pow10((2 - s) as nat);
    assert(pow10(0) == 1);
    assert(pow10(1) == 10);
    assert(pow10(2) == 100);
    if s == 0 {
        assert(xm == m * 100 * p);
    } else if s == 1 {
        assert(xm * 10 == m * 100 * p);
        assert(xm == m * 10 * p) by (nonlinear_arith)
            requires
                xm * 10 == m * 100 * p,
        ;
    } else {
        assert(xm == m * p) by (nonlinear_arith)
            requires
                xm * 100 == m * 100 * p,
        ;
    }
    assert(xm == k * p) by (nonlinear_arith)
        requires
            s == 0 ==> xm == m * 100 * p && k == m * 100,
            s == 1 ==> xm == m * 10 * p && k == m * 10,
            s == 2 ==> xm == m * p && k == m,
            s <= 2,
    ;
    if xm >= 0 {
        assert(k >= 0) by (nonlinear_arith)
            requires
                xm == k * p,
                xm >= 0,
                p >= 1,
        ;
        assert(xm / p == k) by (nonlinear_arith)
            requires
                xm == k * p,
                p >= 1,
        ;
    } else {
        assert((-xm) == (-k) * p) by (nonlinear_arith)
            requires
                xm == k * p,
        ;
        assert((-xm) / p == -k) by (nonlinear_arith)
            requires
                (-xm) == (-k) * p,
                p >= 1,
        ;
    }
}

/// Converts an amount in pesos to the integer centavos PayMongo expects. `None` where the
/// multiplication by 100 overflows a Decimal (the service panics there); a bad request
/// where the centavo count does not fit an `i64`. An amount with at most two decimals
/// converts exactly.
pub fn convert_amount_to_centavos(amount: Amount) -> (r: Option<Result<i64, AppError>>)
    requires
        amount.wf(),
    ensures
        centavos_of(amount) is None <==> r is None,
        centavos_of(amount) matches Some(Some(c)) ==> r == Some(Ok::<i64, AppError>(c)),
        centavos_of(amount) matches Some(None) ==> (r matches Some(e) && is_bad_request(
            e,
            "Invalid amount: could not convert to centavos"@,
        )),
        (amount.scale <= 2 && i64::MIN <= exact_centavos(amount) <= i64::MAX) ==> r == Some(
            Ok::<i64, AppError>(exact_centavos(amount) as i64),
        ),
        amount.scale <= 2 ==> (r matches Some(Ok(c)) ==> c == exact_centavos(amount)
            && (Amount { mantissa: c as i128, scale: 2 }).units() == amount.units()),
{
    let hundred = Amount::new(100, 0);
    let product = multiply_amounts(amount, hundred);
    proof {
        if amount.scale <= 2 {
            lemma_centavos_exact(amount);
            let s = amount.scale as nat;
            let p = amount.mantissa * 100;
            if -MAX_MANTISSA <= exact_centavos(amount) <= MAX_MANTISSA {
                assert(exact_after_dropping(p, s, s));
                let x = product->0;
                lemma_exact_centavos(
                    amount.mantissa as int,
                    amount.scale as nat,
                    x.mantissa as int,
                    x.scale as nat,
                );
            } else {
                assert((MAX_MANTISSA + 1) * pow10(s) <= vstd::math::abs(p));
            }
        }
    }
    centavos_from_product(product)
}

/// The centavo count of an amount with at most two decimals: its mantissa scaled up to
/// two decimals.
pub open spec fn exact_centavos(amount: Amount) -> int {
    amount.mantissa * pow10((2 - amount.scale) as nat)
}

/// For an amount with at most two decimals, the product of its mantissa and 100 is its
/// centavo count followed by `scale` zeros; its value is that count over 100.
proof fn lemma_centavos_exact(amount: Amount)
    requires
        amount.wf(),
        amount.scale <= 2,
    ensures
        (amount.mantissa * 100) % pow10(amount.scale as nat) == 0,
        (amount.mantissa * 100) / pow10(amount.scale as nat) == exact_centavos(amount),
        (amount.mantissa * 100) == exact_centavos(amount) * pow10(amount.scale as nat),
        vstd::math::abs(exact_centavos(amount)) > MAX_MANTISSA ==> (MAX_MANTISSA + 1) * pow10(
            amount.scale as nat,
        ) <= vstd::math::abs(amount.mantissa * 100),
        exact_centavos(amount) * pow10(26) == amount.units(),
{
    let m = amount.mantissa as int;
    let c = exact_centavos(amount);
    assert(pow10(0) == 1);
    assert(pow10(1) == 10);
    assert(pow10(2) == 100);
    lemma_pow10_add(26, (2 - amount.scale) as nat);
    assert((26 + (2 - amount.scale)) as nat == (MAX_SCALE - amount.scale) as nat);
    if amount.scale == 0 {
        assert(c == m * 100);
    } else if amount.scale == 1 {
        assert(c == m * 10);
        assert((m * 100) % 10 == 0) by (nonlinear_arith)
            requires
                c == m * 10,
        ;
        assert((m * 100) / 10 == m * 10) by (nonlinear_arith);
    } else {
        assert(c == m);
        assert((m * 100) % 100 == 0) by (nonlinear_arith);
        assert((m * 100) / 100 == m) by (nonlinear_arith);
    }
    assert(c * pow10(26) == m * pow10((MAX_SCALE - amount.scale) as nat)) by (nonlinear_arith)
        requires
            c == m * pow10((2 - amount.scale) as nat),
            pow10((MAX_SCALE - amount.scale) as nat) == pow10(26) * pow10(
                (2 - amount.scale) as nat,
            ),
    ;
}

/// The centavo count from the product of an amount and 100 (`None` where that
/// multiplication overflowed): its integer part, where it fits an `i64`.
pub fn centavos_from_product(product: Option<Amount>) -> (r: Option<Result<i64, AppError>>)
    requires
        product matches Some(p) ==> p.wf(),
    ensures
        match product {
            None => r is None,
            Some(p) => if i64::MIN <= truncated(p) <= i64::MAX {
                r == Some(Ok::<i64, AppError>(truncated(p) as i64))
            } else {
                r matches Some(e) && is_bad_request(e, "Invalid amount: could not convert to centavos"@)
            },
        },
{
    let product = match product {
        Some(p) => p,
        None => return None,
    };
    match amount_to_i64(product) {
        Some(c) => Some(Ok(c)),
        None => Some(Err(bad_request("Invalid amount: could not convert to centavos"))),
    }
}

/// The amount part of creating a PayMongo checkout session: the amount in centavos, which
/// must be positive. `None` where the conversion overflows (the service panics there).
pub fn checkout_centavos(amount: Amount) -> (r: Option<Result<i64, AppError>>)
    requires
        amount.wf(),
    ensures
        centavos_of(amount) is None <==> r is None,
        centavos_of(amount) matches Some(Some(c)) ==> (if c > 0 {
            r == Some(Ok::<i64, AppError>(c))
        } else {
            r matches Some(e) && is_bad_request(e, "Amount must be greater than zero"@)
        }),
        centavos_of(amount) matches Some(None) ==> (r matches Some(e) && is_bad_request(
            e,
            "Invalid amount: could not convert to centavos"@,
        )),
        amount.scale <= 2 ==> (r matches Some(Ok(c)) ==> c > 0 && crate::handlers::centavos_amount(
            c as u64).units() == amount.units()),
{
    match convert_amount_to_centavos(amount) {
        None => None,
        Some(Err(e)) => Some(Err(e)),
        Some(Ok(c)) => {
            if c <= 0 {
                Some(Err(bad_request("Amount must be greater than zero")))
            } else {
                Some(Ok(c))
            }
        },
    }
}

/// How the checkout-session request to PayMongo went, as the HTTP layer observed it.
#[derive(Debug, Clone, PartialEq, Eq)]
pub enum CheckoutReply {
    /// The request could not be sent; the transport's error text.
    RequestFailed(String),
    /// PayMongo answered with a non-success status; the response body.
    Rejected(String),
    /// A success status whose body is not JSON; the parser's error text.
    Unreadable(String),
    /// A success status with a JSON body; its `data.attributes.checkout_url`, if a string.
    Accepted(Option<String>),
}

/// The hosted payment URL of a checkout session, or the error the service reports.
pub fn checkout_url_from_reply(reply: CheckoutReply) -> (r: Result<String, AppError>)
    ensures
        match reply {
            CheckoutReply::RequestFailed(e) => is_internal(r, "PayMongo request failed: "@ + e@),
            CheckoutReply::Rejected(body) => is_internal(r, "PayMongo error: "@ + body@),
            CheckoutReply::Unreadable(e) => is_internal(
                r,
                "Failed to parse PayMongo response: "@ + e@,
            ),
            CheckoutReply::Accepted(None) => is_internal(
                r,
                "PayMongo did not return a checkout_url"@,
            ),
            CheckoutReply::Accepted(Some(url)) => r matches Ok(u) && u@ == url@,
        },
{
    match reply {
        CheckoutReply::RequestFailed(e) => Err(
            AppError::InternalServerError("PayMongo request failed: ".to_owned().concat(e.as_str())),
        ),
        CheckoutReply::Rejected(body) => Err(
            AppError::InternalServerError("PayMongo error: ".to_owned().concat(body.as_str())),
        ),
        CheckoutReply::Unreadable(e) => Err(
            AppError::InternalServerError(
                "Failed to parse PayMongo response: ".to_owned().concat(e.as_str()),
            ),
        ),
        CheckoutReply::Accepted(None) => Err(internal_error("PayMongo did not return a checkout_url")),
        CheckoutReply::Accepted(Some(url)) => Ok(url),
    }
}

/// The amount part of creating a Stripe checkout session: the amount in cents, which must
/// be positive. `None` where the multiplication by 100 overflows (the service panics
/// there).
pub fn stripe_amount_cents(amount: Amount) -> (r: Option<Result<i64, AppError>>)
    requires
        amount.wf(),
    ensures
        centavos_of(amount) is None <==> r is None,
        centavos_of(amount) matches Some(Some(c)) ==> (if c > 0 {
            r == Some(Ok::<i64, AppError>(c))
        } else {
            r matches Some(e) && is_bad_request(e, "Amount must be greater than zero"@)
        }),
        centavos_of(amount) matches Some(None) ==> (r matches Some(e) && is_bad_request(
            e,
            "Invalid amount"@,
        )),
{
    let hundred = Amount::new(100, 0);
    let product = match multiply_amounts(amount, hundred) {
        Some(p) => p,
        None => return None,
    };
    let cents = match amount_to_i64(product) {
        Some(c) => c,
        None => return Some(Err(bad_request("Invalid amount"))),
    };
    if cents <= 0 {
        return Some(Err(bad_request("Amount must be greater than zero")));
    }
    Some(Ok(cents))
}

/// The metadata of a Stripe checkout session: the source and the target account numbers,
/// each under its own key where given.
pub fn stripe_checkout_metadata(
    source_account_number: Option<String>,
    target_account_number: Option<String>,
) -> (m: Vec<(String, String)>)
    ensures
        m@.len() == (if source_account_number is Some { 1int } else { 0 }) + (
        if target_account_number is Some {
            1int
        } else {
            0
        }),
        source_account_number matches Some(s) ==> m@[0].0@ == "source_account_number"@
            && m@[0].1 == s,
        target_account_number matches Some(t) ==> m@[m@.len() - 1].0@
            == "target_account_number"@ && m@[m@.len() - 1].1 == t,
{
    let mut metadata: Vec<(String, String)> = Vec::new();
    if let Some(source) = source_account_number {
        metadata.push(("source_account_number".to_owned(), source));
    }
    if let Some(target) = target_account_number {
        metadata.push(("target_account_number".to_owned(), target));
    }
    metadata
}

/// A deposit of whole centavos comes back whole: an amount with at most two decimals,
/// sent to PayMongo as its centavo count, returns through the webhook (as that count
/// over 100) with the same value.
pub proof fn law_deposit_amount_roundtrip(amount: Amount)
    requires
        amount.wf(),
        amount.scale <= 2,
        amount.mantissa > 0,
        amount.mantissa * pow10((2 - amount.scale) as nat) <= i64::MAX,
    ensures
        crate::handlers::centavos_amount(
            (amount.mantissa * pow10((2 - amount.scale) as nat)) as u64,
        ).units() == amount.units(),
{
    let s = amount.scale as nat;
    let m = amount.mantissa as int;
    assert(pow10(0) == 1);
    assert(pow10(1) == 10);
    assert(pow10(2) == 100);
    lemma_pow10_positive((2 - s) as nat);
    let c = m * pow10((2 - s) as nat);
    assert(c > 0) by (nonlinear_arith)
        requires
            m > 0,
            pow10((2 - s) as nat) >= 1,
            c == m * pow10((2 - s) as nat),
    ;
    lemma_pow10_add(26, (2 - s) as nat);
    assert((26 + (2 - s)) as nat == (28 - s) as nat);
    assert(c * pow10(26) == m * pow10((28 - s) as nat)) by (nonlinear_arith)
        requires
            c == m * pow10((2 - s) as nat),
            pow10((28 - s) as nat) == pow10(26) * pow10((2 - s) as nat),
    ;
}

} // verus!

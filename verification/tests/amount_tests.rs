use okane::checkout::centavos_from_product;
use okane::accounts::check_amount_being_transferred;
use okane::amount::{add_amounts, amount_le, amount_to_i64, multiply_amounts, subtract_amounts, Amount};
use okane::checkout::{
    checkout_centavos, checkout_url_from_reply, convert_amount_to_centavos, stripe_amount_cents,
    stripe_checkout_metadata, CheckoutReply,
};
use okane::errors::AppError;

#[test]
fn from_parts_checks_range() {
    assert!(Amount::from_parts(79228162514264337593543950335, 28).is_some());
    assert!(Amount::from_parts(79228162514264337593543950336, 0).is_none());
    assert!(Amount::from_parts(-79228162514264337593543950336, 0).is_none());
    assert!(Amount::from_parts(1, 29).is_none());
}

#[test]
fn addition_aligns_scales() {
    let r = add_amounts(Amount::new(150, 2), Amount::new(2, 1)).unwrap();
    assert_eq!(r.mantissa * 10i128.pow(2 - r.scale), 170);
    let r = subtract_amounts(Amount::new(1, 0), Amount::new(25, 2)).unwrap();
    assert_eq!(r.mantissa * 10i128.pow(2 - r.scale), 75);
}

#[test]
fn multiplication_and_truncation() {
    let p = multiply_amounts(Amount::new(1999, 3), Amount::new(100, 0)).unwrap();
    assert_eq!(amount_to_i64(p), Some(199));
    assert_eq!(amount_to_i64(Amount::new(-15, 1)), Some(-1));
}

#[test]
fn comparison_is_by_value() {
    assert!(amount_le(Amount::new(10, 1), Amount::new(1, 0)));
    assert!(amount_le(Amount::new(1, 0), Amount::new(10, 1)));
    assert!(!amount_le(Amount::new(11, 1), Amount::new(1, 0)));
}

#[test]
fn amount_must_be_positive() {
    assert_eq!(check_amount_being_transferred(Amount::new(1, 2)), Ok(()));
    assert_eq!(
        check_amount_being_transferred(Amount::new(0, 2)),
        Err(AppError::BadRequest("Amount must be greater than zero".to_string()))
    );
    assert_eq!(
        check_amount_being_transferred(Amount::new(-5, 0)),
        Err(AppError::BadRequest("Amount must be greater than zero".to_string()))
    );
}

#[test]
fn centavos_of_two_decimal_amount_is_exact() {
    assert_eq!(convert_amount_to_centavos(Amount::new(10050, 2)), Some(Ok(10050)));
    assert_eq!(convert_amount_to_centavos(Amount::new(7, 0)), Some(Ok(700)));
    assert_eq!(convert_amount_to_centavos(Amount::new(12345, 3)), Some(Ok(1234)));
}

#[test]
fn centavos_out_of_i64_range() {
    let huge = Amount::from_parts(100_000_000_000_000_000_000, 0).unwrap();
    assert_eq!(
        convert_amount_to_centavos(huge),
        Some(Err(AppError::BadRequest(
            "Invalid amount: could not convert to centavos".to_string()
        )))
    );
    let max = Amount::from_parts(79228162514264337593543950335, 0).unwrap();
    assert_eq!(convert_amount_to_centavos(max), None);
}

#[test]
fn checkout_needs_positive_centavos() {
    assert_eq!(checkout_centavos(Amount::new(500, 2)), Some(Ok(500)));
    assert_eq!(
        checkout_centavos(Amount::new(4, 3)),
        Some(Err(AppError::BadRequest("Amount must be greater than zero".to_string())))
    );
    assert_eq!(
        stripe_amount_cents(Amount::new(-1, 0)),
        Some(Err(AppError::BadRequest("Amount must be greater than zero".to_string())))
    );
    assert_eq!(stripe_amount_cents(Amount::new(5000, 2)), Some(Ok(5000)));
    let huge = Amount::from_parts(100_000_000_000_000_000_000, 0).unwrap();
    assert_eq!(
        stripe_amount_cents(huge),
        Some(Err(AppError::BadRequest("Invalid amount".to_string())))
    );
}

#[test]
fn checkout_reply_outcomes() {
    assert_eq!(
        checkout_url_from_reply(CheckoutReply::Accepted(Some("https://pay/x".to_string()))),
        Ok("https://pay/x".to_string())
    );
    assert_eq!(
        checkout_url_from_reply(CheckoutReply::Accepted(None)),
        Err(AppError::InternalServerError("PayMongo did not return a checkout_url".to_string()))
    );
    assert_eq!(
        checkout_url_from_reply(CheckoutReply::Rejected("bad key".to_string())),
        Err(AppError::InternalServerError("PayMongo error: bad key".to_string()))
    );
    assert_eq!(
        checkout_url_from_reply(CheckoutReply::RequestFailed("timeout".to_string())),
        Err(AppError::InternalServerError("PayMongo request failed: timeout".to_string()))
    );
    assert_eq!(
        checkout_url_from_reply(CheckoutReply::Unreadable("eof".to_string())),
        Err(AppError::InternalServerError("Failed to parse PayMongo response: eof".to_string()))
    );
}

#[test]
fn stripe_metadata_holds_given_accounts() {
    let m = stripe_checkout_metadata(Some("111".to_string()), None);
    assert_eq!(m, vec![("source_account_number".to_string(), "111".to_string())]);
    let m = stripe_checkout_metadata(Some("111".to_string()), Some("222".to_string()));
    assert_eq!(m.len(), 2);
    assert_eq!(m[1], ("target_account_number".to_string(), "222".to_string()));
    assert!(stripe_checkout_metadata(None, None).is_empty());
}

#[test]
fn centavos_from_product_outcomes() {
    assert_eq!(centavos_from_product(None), None);
    assert_eq!(centavos_from_product(Some(Amount::new(-12399, 2))), Some(Ok(-123)));
    let big = Amount::from_parts(10_000_000_000_000_000_000, 0).unwrap();
    assert_eq!(
        centavos_from_product(Some(big)),
        Some(Err(AppError::BadRequest("Invalid amount: could not convert to centavos".to_string())))
    );
}

#[test]
fn hundred_pesos_are_ten_thousand_centavos() {
    assert_eq!(convert_amount_to_centavos(Amount::new(10000, 2)), Some(Ok(10000)));
    assert_eq!(stripe_amount_cents(Amount::new(5000, 2)), Some(Ok(5000)));
}

#[test]
fn negative_amounts_convert_exactly() {
    assert_eq!(convert_amount_to_centavos(Amount::new(-1234, 2)), Some(Ok(-1234)));
    assert_eq!(convert_amount_to_centavos(Amount::new(-5, 1)), Some(Ok(-50)));
}

#[test]
fn large_mantissa_converts_exactly() {
    // 5 * 10^28 at scale 2: times 100 overflows 96 bits unless trailing zeros are dropped.
    let m: i128 = 50_000_000_000_000_000_000_000_000_000;
    let a = Amount::from_parts(m, 2).unwrap();
    assert_eq!(
        convert_amount_to_centavos(a),
        Some(Err(okane::errors::AppError::BadRequest(
            "Invalid amount: could not convert to centavos".to_string()
        )))
    );
    let b = Amount::from_parts(900_000_000_000_000_000, 2).unwrap();
    assert_eq!(convert_amount_to_centavos(b), Some(Ok(900_000_000_000_000_000)));
}

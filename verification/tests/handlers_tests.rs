use okane::handlers::transaction_reference;
use okane::checkout::checkout_centavos;
use okane::handlers::paid_checkout_action;
use hmac::{Hmac, Mac};
use okane::amount::Amount;
use okane::cookies::{build_auth_cookie, clear_auth_cookie, eq_ignore_ascii_case, AUTH_COOKIE_NAME};
use okane::errors::AppError;
use okane::handlers::{
    invalid_session, paymongo_webhook, require_auth_token, require_signed_in, WebhookAction,
};
use serde_json::Value;
use sha2::Sha256;

const SECRET: &str = "whsk_live";

fn header_for(body: &[u8]) -> String {
    let mut mac = <Hmac<Sha256> as Mac>::new_from_slice(SECRET.as_bytes()).unwrap();
    mac.update(b"1716000000.");
    mac.update(body);
    format!("t=1716000000,te={},li=", hex::encode(mac.finalize().into_bytes()))
}

fn obj(pairs: Vec<(&str, Value)>) -> Value {
    let mut m = serde_json::Map::new();
    for (k, v) in pairs {
        m.insert(k.to_string(), v);
    }
    Value::Object(m)
}

fn text(s: Option<&str>) -> Value {
    match s {
        Some(s) => Value::from(s),
        None => Value::Null,
    }
}

/// A PayMongo event body; `None` leaves a field out (as JSON null).
fn event_body(event: Option<&str>, account: Option<&str>, uuid: Option<&str>, amount: Value) -> Vec<u8> {
    let checkout = obj(vec![
        ("metadata", obj(vec![("account_number", text(account)), ("transaction_uuid", text(uuid))])),
        ("line_items", Value::Array(vec![obj(vec![("amount", amount)])])),
    ]);
    let attributes = obj(vec![("type", text(event)), ("data", obj(vec![("attributes", checkout)]))]);
    serde_json::to_vec(&obj(vec![("data", obj(vec![("attributes", attributes)]))])).unwrap()
}

const PAID: &str = "checkout_session.payment.paid";
const ACCOUNT: &str = "0123456789";
const UUID: &str = "67e55044-10b1-426f-9247-bb680e5fe0c8";

fn paid_body() -> Vec<u8> {
    event_body(Some(PAID), Some(ACCOUNT), Some(UUID), Value::from(150050u64))
}

fn answer(body: &[u8]) -> Result<WebhookAction, AppError> {
    let h = header_for(body);
    paymongo_webhook(Some(&h), body, SECRET)
}

fn internal(m: &str) -> AppError {
    AppError::InternalServerError(m.to_string())
}

#[test]
fn webhook_needs_a_signature_header() {
    assert_eq!(
        paymongo_webhook(None, &paid_body(), SECRET),
        Err(AppError::Unauthorized("Missing paymongo-signature header".to_string()))
    );
}

#[test]
fn webhook_rejects_a_bad_signature() {
    assert_eq!(
        paymongo_webhook(Some("t=1,te=00"), &paid_body(), SECRET),
        Err(AppError::Unauthorized("Invalid webhook signature".to_string()))
    );
}

#[test]
fn webhook_signature_covers_the_body() {
    let h = header_for(&paid_body());
    let forged = event_body(Some(PAID), Some("9999999999"), Some(UUID), Value::from(150050u64));
    assert_eq!(
        paymongo_webhook(Some(&h), &forged, SECRET),
        Err(AppError::Unauthorized("Invalid webhook signature".to_string()))
    );
}

#[test]
fn webhook_rejects_invalid_json() {
    assert_eq!(answer(b"not json"), Err(AppError::BadRequest("Invalid JSON payload".to_string())));
}

#[test]
fn webhook_acknowledges_other_events() {
    let body = event_body(Some("payment.failed"), Some(ACCOUNT), Some(UUID), Value::from(1u64));
    assert_eq!(answer(&body), Ok(WebhookAction::Acknowledge("payment.failed".to_string())));
    let body = event_body(None, Some(ACCOUNT), Some(UUID), Value::from(1u64));
    assert_eq!(answer(&body), Ok(WebhookAction::Acknowledge(String::new())));
    assert_eq!(answer(b"{}"), Ok(WebhookAction::Acknowledge(String::new())));
}

#[test]
fn webhook_completes_a_paid_deposit() {
    assert_eq!(
        answer(&paid_body()),
        Ok(WebhookAction::CompleteDeposit {
            account_number: ACCOUNT.to_string(),
            amount: Amount::new(150050, 2),
            transaction_uuid: 0x67e5504410b1426f9247bb680e5fe0c8,
        })
    );
}

#[test]
fn webhook_reports_missing_metadata() {
    let body = event_body(Some(PAID), None, Some(UUID), Value::from(1u64));
    assert_eq!(answer(&body), Err(internal("Missing account_number in checkout metadata")));
    let body = event_body(Some(PAID), Some(ACCOUNT), None, Value::from(1u64));
    assert_eq!(answer(&body), Err(internal("Missing transaction_uuid in checkout metadata")));
    let body = event_body(Some(PAID), Some(ACCOUNT), Some("not-a-uuid"), Value::from(1u64));
    assert_eq!(answer(&body), Err(internal("Invalid transaction_uuid in checkout metadata")));
    let body = event_body(Some(PAID), Some(ACCOUNT), Some(UUID), Value::Null);
    assert_eq!(answer(&body), Err(internal("Missing amount in checkout line_items")));
    let body = event_body(Some(PAID), Some(ACCOUNT), Some(UUID), Value::from(-5i64));
    assert_eq!(answer(&body), Err(internal("Missing amount in checkout line_items")));
}

#[test]
fn webhook_amount_wraps_like_the_cast() {
    let body = event_body(Some(PAID), Some(ACCOUNT), Some(UUID), Value::from(u64::MAX));
    match answer(&body) {
        Ok(WebhookAction::CompleteDeposit { amount, .. }) => assert_eq!(amount, Amount::new(-1, 2)),
        other => panic!("unexpected {:?}", other),
    }
}

#[test]
fn auth_token_from_cookie() {
    assert_eq!(require_auth_token(Some("tok".to_string())), Ok("tok".to_string()));
    assert_eq!(
        require_auth_token(None),
        Err(AppError::Unauthorized("Missing auth token".to_string()))
    );
    assert_eq!(
        require_signed_in(None),
        Err(AppError::Unauthorized("Not authenticated".to_string()))
    );
    assert_eq!(invalid_session(), AppError::Unauthorized("Invalid or expired session".to_string()));
}

#[test]
fn session_cookie_attributes() {
    let c = build_auth_cookie("tok", None);
    assert_eq!(c.name, AUTH_COOKIE_NAME);
    assert_eq!(c.value, "tok");
    assert!(c.http_only && c.same_site_none && !c.secure && !c.removal);
    assert_eq!(c.path, "/");
    assert!(build_auth_cookie("tok", Some("TRUE")).secure);
    assert!(!build_auth_cookie("tok", Some("yes")).secure);
    let gone = clear_auth_cookie();
    assert_eq!(gone.value, "");
    assert!(gone.removal && !gone.secure);
}

#[test]
fn ascii_case_insensitive_comparison() {
    assert!(eq_ignore_ascii_case("TrUe", "true"));
    assert!(!eq_ignore_ascii_case("true ", "true"));
    assert!(eq_ignore_ascii_case("É", "É"));
    assert!(!eq_ignore_ascii_case("É", "é"));
}

#[test]
fn paid_checkout_action_outcomes() {
    assert_eq!(
        paid_checkout_action("1".to_string(), Some(5), Some(250)),
        Ok(WebhookAction::CompleteDeposit {
            account_number: "1".to_string(),
            amount: Amount::new(250, 2),
            transaction_uuid: 5
        })
    );
    assert_eq!(
        paid_checkout_action("1".to_string(), None, Some(250)),
        Err(internal("Invalid transaction_uuid in checkout metadata"))
    );
    assert_eq!(
        paid_checkout_action("1".to_string(), Some(5), None),
        Err(internal("Missing amount in checkout line_items"))
    );
}

#[test]
fn pending_reference_round_trips_through_the_webhook() {
    let uuid: u128 = 0x67e5504410b1426f9247bb680e5fe0c8;
    let reference = transaction_reference(uuid);
    assert_eq!(reference, "67e55044-10b1-426f-9247-bb680e5fe0c8");
    let body = event_body(Some(PAID), Some(ACCOUNT), Some(&reference), Value::from(100u64));
    match answer(&body) {
        Ok(WebhookAction::CompleteDeposit { transaction_uuid, .. }) => assert_eq!(transaction_uuid, uuid),
        other => panic!("unexpected {:?}", other),
    }
    assert_eq!(transaction_reference(0), "00000000-0000-0000-0000-000000000000");
    assert_eq!(transaction_reference(u128::MAX), "ffffffff-ffff-ffff-ffff-ffffffffffff");
}

#[test]
fn deposited_amount_comes_back_through_the_webhook() {
    for (m, s) in [(150050i64, 2u32), (7, 0), (25, 1)] {
        let amount = Amount::new(m, s);
        let centavos = checkout_centavos(amount).unwrap().unwrap();
        let body = event_body(Some(PAID), Some(ACCOUNT), Some(UUID), Value::from(centavos as u64));
        match answer(&body) {
            Ok(WebhookAction::CompleteDeposit { amount: back, .. }) => {
                assert_eq!(back.scale, 2);
                assert_eq!(back.mantissa, (m as i128) * 10i128.pow(2 - s));
            }
            other => panic!("unexpected {:?}", other),
        }
    }
}

#[test]
fn clearing_cookie_matches_session_cookie() {
    let session = build_auth_cookie("tok", Some("true"));
    let cleared = clear_auth_cookie();
    assert_eq!((session.name.as_str(), session.path.as_str()), (cleared.name.as_str(), cleared.path.as_str()));
    assert!(cleared.value.is_empty() && cleared.removal);
}

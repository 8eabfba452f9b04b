use vstd::prelude::*;
use crate::amount::Amount;
use crate::errors::{
    AppError, bad_request, internal_error, unauthorized, is_bad_request, is_internal,
    is_unauthorized,
};
use crate::paymongo::{hex_digit, verify_webhook_signature, webhook_signature_valid};
use serde_json::Value;

verus! {

/// The session token carried by the auth cookie, which every account route needs.
pub fn require_auth_token(cookie_value: Option<String>) -> (r: Result<String, AppError>)
    ensures
        match cookie_value {
            Some(v) => r == Ok::<String, AppError>(v),
            None => is_unauthorized(r, "Missing auth token"@),
        },
{
    match cookie_value {
        Some(v) => Ok(v),
        None => Err(unauthorized("Missing auth token")),
    }
}

/// The session token carried by the auth cookie, for the profile route.
pub fn require_signed_in(cookie_value: Option<String>) -> (r: Result<String, AppError>)
    ensures
        match cookie_value {
            Some(v) => r == Ok::<String, AppError>(v),
            None => is_unauthorized(r, "Not authenticated"@),
        },
{
    match cookie_value {
        Some(v) => Ok(v),
        None => Err(unauthorized("Not authenticated")),
    }
}

/// What a session token that does not decode (bad signature, expired) is answered.
pub fn invalid_session() -> (e: AppError)
    ensures
        e matches AppError::Unauthorized(m) && m@ == "Invalid or expired session"@,
{
    unauthorized("Invalid or expired session")
}

/// The fields of a PayMongo webhook event that the service reads; each is `None` where
/// the JSON lacks it or holds another kind of value there.
#[derive(Debug, Clone, PartialEq, Eq)]
pub struct WebhookPayload {
    /// `data.attributes.type`
    pub event_type: Option<String>,
    /// `data.attributes.data.attributes.metadata.account_number`
    pub account_number: Option<String>,
    /// `data.attributes.data.attributes.metadata.transaction_uuid`
    pub transaction_uuid: Option<String>,
    /// `data.attributes.data.attributes.line_items[0].amount`, in centavos
    pub amount_centavos: Option<u64>,
}

/// What the service does with an authentic webhook event.
#[derive(Debug, Clone, PartialEq, Eq)]
pub enum WebhookAction {
    /// Not a paid checkout: acknowledge it, echoing its type.
    Acknowledge(String),
    /// A paid checkout: record the completed deposit.
    CompleteDeposit { account_number: String, amount: Amount, transaction_uuid: u128 },
}

/// The value of the UUID text, as `uuid::Uuid::parse_str` reads it (`None` where it is not
/// a UUID).
pub uninterp spec fn uuid_value(text: Seq<char>) -> Option<u128>;

/// Calls `uuid::Uuid::parse_str` and takes the UUID's 128-bit value.
#[verifier::external_body]
fn parse_uuid(text: &str) -> (r: Option<u128>)
    ensures
        r == uuid_value(text@),
{
    match uuid::Uuid::parse_str(text) {
        Ok(u) => Some(u.as_u128()),
        Err(_) => None,
    }
}

/// The fields of a webhook event as plain values: event type, account number, transaction
/// UUID text, amount in centavos.
pub type WebhookFields = (Option<Seq<char>>, Option<Seq<char>>, Option<Seq<char>>, Option<u64>);

/// The fields that the service reads from a raw webhook body parsed by
/// `serde_json::from_slice` into a `serde_json::Value`: `data.attributes.type`, and under
/// `data.attributes.data.attributes` the `metadata.account_number`,
/// `metadata.transaction_uuid` (each where it is a string) and `line_items[0].amount`
/// (where it is a u64). `None` where the body is not JSON.
pub uninterp spec fn webhook_json_fields(body: Seq<u8>) -> Option<WebhookFields>;

pub open spec fn text_view(o: Option<String>) -> Option<Seq<char>> {
    match o {
        Some(s) => Some(s@),
        None => None,
    }
}

/// The payload's fields as plain values.
pub open spec fn payload_fields(p: WebhookPayload) -> WebhookFields {
    (text_view(p.event_type), text_view(p.account_number), text_view(p.transaction_uuid), p.amount_centavos)
}

/// Calls `serde_json::from_slice` on the raw body and picks the fields that the service
/// reads. Claimed of it: they are the fields that `webhook_json_fields` names.
#[verifier::external_body]
fn parse_webhook_fields(body: &[u8]) -> (p: Option<WebhookPayload>)
    ensures
        match p {
            Some(q) => webhook_json_fields(body@) == Some(payload_fields(q)),
            None => webhook_json_fields(body@) is None,
        },
{
    let payload: Value = serde_json::from_slice(body).ok()?;
    let checkout = &payload["data"]["attributes"]["data"]["attributes"];
    Some(WebhookPayload {
        event_type: payload["data"]["attributes"]["type"].as_str().map(|s| s.to_string()),
        account_number: checkout["metadata"]["account_number"].as_str().map(|s| s.to_string()),
        transaction_uuid: checkout["metadata"]["transaction_uuid"].as_str().map(|s| s.to_string()),
        amount_centavos: checkout["line_items"][0]["amount"].as_u64(),
    })
}

/// The event type, or the empty text where the event carries none.
pub open spec fn event_type_text(f: WebhookFields) -> Seq<char> {
    match f.0 {
        Some(e) => e,
        None => Seq::<char>::empty(),
    }
}

/// An amount in centavos as a peso amount: the count (reinterpreted as `i64`, as the
/// service's `as i64` does) over 100.
pub open spec fn centavos_amount(c: u64) -> Amount {
    Amount { mantissa: (c as i64) as i128, scale: 2 }
}

/// What the service answers for an authentic event with the given fields.
pub open spec fn webhook_event_outcome(f: WebhookFields, r: Result<WebhookAction, AppError>) -> bool {
    if event_type_text(f) != "checkout_session.payment.paid"@ {
        r matches Ok(WebhookAction::Acknowledge(e)) && e@ == event_type_text(f)
    } else {
        match f.1 {
            None => is_internal(r, "Missing account_number in checkout metadata"@),
            Some(account) => match f.2 {
                None => is_internal(r, "Missing transaction_uuid in checkout metadata"@),
                Some(u) => match uuid_value(u) {
                    None => is_internal(r, "Invalid transaction_uuid in checkout metadata"@),
                    Some(id) => match f.3 {
                        None => is_internal(r, "Missing amount in checkout line_items"@),
                        Some(c) => r matches Ok(
                            WebhookAction::CompleteDeposit { account_number, amount, transaction_uuid },
                        ) && account_number@ == account && amount == centavos_amount(c)
                            && transaction_uuid == id,
                    },
                },
            },
        }
    }
}

/// What the service answers a webhook request with the given signature header, raw body
/// and webhook secret, the body's JSON fields being `fields` (`None` where it is not JSON).
pub open spec fn webhook_response(
    sig_header: Option<Seq<char>>,
    body: Seq<u8>,
    secret: Seq<char>,
    fields: Option<WebhookFields>,
    r: Result<WebhookAction, AppError>,
) -> bool {
    match sig_header {
        None => is_unauthorized(r, "Missing paymongo-signature header"@),
        Some(h) => if !webhook_signature_valid(body, h, secret) {
            is_unauthorized(r, "Invalid webhook signature"@)
        } else {
            match fields {
                None => is_bad_request(r, "Invalid JSON payload"@),
                Some(f) => webhook_event_outcome(f, r),
            }
        },
    }
}

/// Decides a PayMongo webhook request: it must carry a signature header that verifies
/// against the raw body; then the body must parse as JSON; then a paid checkout becomes a
/// completed deposit, with the account, UUID and amount that the signed body carries, and
/// any other event is acknowledged.
pub fn paymongo_webhook(sig_header: Option<&str>, body: &[u8], secret: &str) -> (r: Result<
    WebhookAction,
    AppError,
>)
    ensures
        webhook_response(
            match sig_header {
                Some(h) => Some(h@),
                None => None,
            },
            body@,
            secret@,
            webhook_json_fields(body@),
            r,
        ),
{
    let header = match sig_header {
        Some(h) => h,
        None => return Err(unauthorized("Missing paymongo-signature header")),
    };
    if !verify_webhook_signature(body, header, secret) {
        return Err(unauthorized("Invalid webhook signature"));
    }
    let p = match parse_webhook_fields(body) {
        Some(p) => p,
        None => return Err(bad_request("Invalid JSON payload")),
    };
    let event_type = match p.event_type {
        Some(e) => e,
        None => String::new(),
    };
    if event_type != "checkout_session.payment.paid".to_owned() {
        return Ok(WebhookAction::Acknowledge(event_type));
    }
    let account_number = match p.account_number {
        Some(a) => a,
        None => return Err(internal_error("Missing account_number in checkout metadata")),
    };
    let uuid_text = match p.transaction_uuid {
        Some(u) => u,
        None => return Err(internal_error("Missing transaction_uuid in checkout metadata")),
    };
    paid_checkout_action(account_number, parse_uuid(uuid_text.as_str()), p.amount_centavos)
}

/// The deposit that a paid checkout completes, from its account number, the value of its
/// transaction UUID (`None` where the text is no UUID) and its amount in centavos.
pub fn paid_checkout_action(
    account_number: String,
    transaction_uuid: Option<u128>,
    amount_centavos: Option<u64>,
) -> (r: Result<WebhookAction, AppError>)
    ensures
        match transaction_uuid {
            None => is_internal(r, "Invalid transaction_uuid in checkout metadata"@),
            Some(id) => match amount_centavos {
                None => is_internal(r, "Missing amount in checkout line_items"@),
                Some(c) => r == Ok::<WebhookAction, AppError>(
                    WebhookAction::CompleteDeposit {
                        account_number,
                        amount: centavos_amount(c),
                        transaction_uuid: id,
                    },
                ),
            },
        },
{
    let transaction_uuid = match transaction_uuid {
        Some(id) => id,
        None => return Err(internal_error("Invalid transaction_uuid in checkout metadata")),
    };
    let centavos = match amount_centavos {
        Some(c) => c,
        None => return Err(internal_error("Missing amount in checkout line_items")),
    };
    let amount = Amount::new(centavos as i64, 2);
    Ok(WebhookAction::CompleteDeposit { account_number, amount, transaction_uuid })
}

/// The `i`th of the 32 hexadecimal digits of a 128-bit value, most significant first.
pub open spec fn uuid_nibble(value: u128, i: int) -> int {
    (value as int / vstd::arithmetic::power::pow(16, (31 - i) as nat)) % 16
}

/// The hexadecimal digits `from..to` of a 128-bit value, lowercase.
pub open spec fn uuid_digits(value: u128, from: int, to: int) -> Seq<char> {
    Seq::new((to - from) as nat, |k: int| hex_digit(uuid_nibble(value, from + k)))
}

/// The UUID as `uuid::Uuid`'s `Display` writes it: its 32 lowercase hexadecimal digits,
/// most significant first, in groups of 8, 4, 4, 4 and 12 joined by hyphens.
pub open spec fn uuid_hyphenated(value: u128) -> Seq<char> {
    uuid_digits(value, 0, 8) + seq!['-'] + uuid_digits(value, 8, 12) + seq!['-'] + uuid_digits(
        value,
        12,
        16,
    ) + seq!['-'] + uuid_digits(value, 16, 20) + seq!['-'] + uuid_digits(value, 20, 32)
}

/// Calls `Uuid::from_u128(value).to_string()`. Claimed of it: the text is
/// `uuid_hyphenated` of the value, and `Uuid::parse_str` reads it back as the same UUID (the
/// hyphenated form is one that `parse_str` accepts).
#[verifier::external_body]
fn uuid_text(value: u128) -> (text: String)
    ensures
        text@ == uuid_hyphenated(value),
        uuid_value(text@) == Some(value),
{
    uuid::Uuid::from_u128(value).to_string()
}

/// The reference to a pending deposit that travels in the checkout session's metadata:
/// the text of the pending row's transaction UUID.
pub fn transaction_reference(transaction_uuid: u128) -> (text: String)
    ensures
        text@ == uuid_hyphenated(transaction_uuid),
        uuid_value(text@) == Some(transaction_uuid),
{
    uuid_text(transaction_uuid)
}

/// The event is a paid checkout and `r` is the deposit that its fields describe.
pub open spec fn deposit_from_fields(f: WebhookFields, r: Result<WebhookAction, AppError>) -> bool {
    &&& event_type_text(f) == "checkout_session.payment.paid"@
    &&& match r {
        Ok(WebhookAction::CompleteDeposit { account_number, amount, transaction_uuid }) => {
            &&& f.1 == Some(account_number@)
            &&& match f.2 {
                Some(u) => uuid_value(u) == Some(transaction_uuid),
                None => false,
            }
            &&& match f.3 {
                Some(c) => amount == centavos_amount(c),
                None => false,
            }
        },
        _ => false,
    }
}

/// Only an authentic, paid checkout event completes a deposit, and it completes the one
/// that the signed body describes: a request that the service answers with a deposit to
/// record carried a signature header that verifies against its body, and that body's JSON
/// reports a paid checkout whose account number, transaction UUID and centavos are the
/// deposit's.
pub proof fn law_only_authentic_paid_events_complete_deposits(
    sig_header: Option<Seq<char>>,
    body: Seq<u8>,
    secret: Seq<char>,
    r: Result<WebhookAction, AppError>,
)
    requires
        webhook_response(sig_header, body, secret, webhook_json_fields(body), r),
        r matches Ok(WebhookAction::CompleteDeposit { .. }),
    ensures
        sig_header matches Some(h) && webhook_signature_valid(body, h, secret),
        webhook_json_fields(body) matches Some(f) && deposit_from_fields(f, r),
{
}

/// The completed deposit is linked to its pending row: when the checkout metadata carries
/// the pending row's reference, the deposit to record carries the pending row's UUID, the
/// metadata's account number, and the centavos paid.
pub proof fn law_paid_checkout_links_pending_deposit(
    f: WebhookFields,
    r: Result<WebhookAction, AppError>,
    pending_uuid: u128,
)
    requires
        event_type_text(f) == "checkout_session.payment.paid"@,
        f.1 is Some,
        f.3 is Some,
        f.2 matches Some(u) && u == uuid_hyphenated(pending_uuid) && uuid_value(u) == Some(
            pending_uuid,
        ),
        webhook_event_outcome(f, r),
    ensures
        r matches Ok(WebhookAction::CompleteDeposit { account_number, amount, transaction_uuid })
            && transaction_uuid == pending_uuid && account_number@ == f.1->0 && amount
            == centavos_amount(f.3->0),
{
}

} // verus!

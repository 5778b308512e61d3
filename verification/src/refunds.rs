//! Refunds of payments.
use vstd::prelude::*;
use crate::consts::{DEFAULT_UNIFIED_ERROR_CODE, DEFAULT_UNIFIED_ERROR_MESSAGE};
use crate::enums::{Currency, IntentStatus, MinorUnit, RefundStatus};
use crate::errors::ApiErrorResponse;
use crate::router_data::{ErrorResponse, RefundsResponseData};
use crate::text::{clone_optional, concat3, render_u128, same_text};

verus! {

/// A payment that a refund is asked for.
pub struct PaymentIntent {
    pub status: IntentStatus,
    /// The status as it is shown in messages.
    pub status_name: String,
    pub amount_captured: Option<MinorUnit>,
    pub currency: Currency,
    pub profile_id: String,
}

/// The attempt that made a payment.
pub struct PaymentAttempt {
    pub id: String,
    pub connector: Option<String>,
    pub connector_payment_id: Option<String>,
    pub merchant_connector_id: Option<String>,
    pub total_amount: MinorUnit,
}

/// The merchant who asks for a refund.
pub struct MerchantAccount {
    pub id: String,
    pub organization_id: String,
}

/// When the money goes back.
#[derive(Clone, Copy, Debug, PartialEq, Eq, Structural)]
pub enum RefundType {
    Scheduled,
    Instant,
}

/// A request for a refund.
pub struct RefundsCreateRequest {
    pub payment_id: String,
    pub merchant_reference_id: String,
    pub merchant_id: Option<String>,
    pub global_refund_id: Option<String>,
    pub amount: Option<MinorUnit>,
    pub reason: Option<String>,
    pub refund_type: Option<RefundType>,
    pub metadata: Option<serde_json::Value>,
}

/// Whether a payment took money that can go back.
pub open spec fn refundable(status: IntentStatus) -> bool {
    status is Succeeded || status is PartiallyCaptured
}

/// The amount to refund: the one asked for, or else all that was captured.
pub open spec fn wanted_amount(
    asked: Option<MinorUnit>,
    captured: Option<MinorUnit>,
) -> Option<MinorUnit> {
    match asked {
        Some(amount) => Some(amount),
        None => captured,
    }
}

/// Whether an error tells of a payment in a state that cannot be refunded.
pub open spec fn is_unexpected_state(error: ApiErrorResponse, status_name: Seq<char>) -> bool {
    &&& error matches ApiErrorResponse::PaymentUnexpectedState {
        current_flow,
        field_name,
        current_value,
        states,
    }
    &&& current_flow@ == "refund"@
    &&& field_name@ == "status"@
    &&& current_value@ == status_name
    &&& states@ == "succeeded, partially_captured"@
}

/// Whether an error tells of a field that is not as it should be.
pub open spec fn is_wrong_format(
    error: ApiErrorResponse,
    field: Seq<char>,
    expected: Seq<char>,
) -> bool {
    &&& error matches ApiErrorResponse::InvalidDataFormat { field_name, expected_format }
    &&& field_name@ == field
    &&& expected_format@ == expected
}

/// Whether a payment can be refunded, and with how much.
pub fn refund_create_core(payment_intent: &PaymentIntent, asked: Option<MinorUnit>) -> (res: Result<
    MinorUnit,
    ApiErrorResponse,
>)
    ensures
        match res {
            Ok(amount) => {
                &&& refundable(payment_intent.status)
                &&& wanted_amount(asked, payment_intent.amount_captured) == Some(amount)
                &&& amount.0 > 0
            },
            Err(error) => if !refundable(payment_intent.status) {
                is_unexpected_state(error, payment_intent.status_name@)
            } else {
                match wanted_amount(asked, payment_intent.amount_captured) {
                    None => error == ApiErrorResponse::InternalServerError,
                    Some(amount) => amount.0 <= 0 && is_wrong_format(
                        error,
                        "amount"@,
                        "positive integer"@,
                    ),
                }
            },
        },
{
    let refundable = match payment_intent.status {
        IntentStatus::Succeeded | IntentStatus::PartiallyCaptured => true,
        _ => false,
    };
    if !refundable {
        return Err(
            ApiErrorResponse::PaymentUnexpectedState {
                current_flow: "refund".to_string(),
                field_name: "status".to_string(),
                current_value: payment_intent.status_name.clone(),
                states: "succeeded, partially_captured".to_string(),
            },
        );
    }
    let wanted = match asked {
        Some(amount) => Some(amount),
        None => payment_intent.amount_captured,
    };
    match wanted {
        None => Err(ApiErrorResponse::InternalServerError),
        Some(amount) => {
            if amount.0 <= 0 {
                Err(
                    ApiErrorResponse::InvalidDataFormat {
                        field_name: "amount".to_string(),
                        expected_format: "positive integer".to_string(),
                    },
                )
            } else {
                Ok(amount)
            }
        },
    }
}

// ---------------------------------------------------------------------------
// The record of a refund
// ---------------------------------------------------------------------------

/// An id as it is stored: a short form, and the whole id where the short form is not it.
#[derive(Debug, PartialEq, Eq)]
pub struct StoredId {
    pub id: String,
    pub data: Option<String>,
}

/// The record of a new refund.
pub struct RefundNew {
    pub id: String,
    pub merchant_reference_id: String,
    pub external_reference_id: Option<String>,
    pub payment_id: String,
    pub merchant_id: String,
    pub connector_transaction_id: String,
    pub connector: String,
    pub refund_type: RefundType,
    pub total_amount: MinorUnit,
    pub refund_amount: MinorUnit,
    pub currency: Currency,
    pub created_at: time::PrimitiveDateTime,
    pub modified_at: time::PrimitiveDateTime,
    pub refund_status: RefundStatus,
    pub metadata: Option<serde_json::Value>,
    pub description: Option<String>,
    pub attempt_id: String,
    pub refund_reason: Option<String>,
    pub profile_id: Option<String>,
    pub connector_id: Option<String>,
    pub charges: Option<serde_json::Value>,
    pub split_refunds: Option<serde_json::Value>,
    pub connector_refund_id: Option<String>,
    pub sent_to_gateway: bool,
    pub refund_arn: Option<String>,
    pub updated_by: String,
    pub organization_id: String,
    pub processor_transaction_data: Option<String>,
    pub processor_refund_data: Option<String>,
}

/// The ids that a request for a refund rests on.
pub struct RefundIds {
    pub id: String,
    pub connector_payment_id: String,
}

/// Whether a request for a refund names another merchant than the one who asks.
pub open spec fn names_other_merchant(
    request: RefundsCreateRequest,
    merchant_account: MerchantAccount,
) -> bool {
    request.merchant_id matches Some(merchant_id) && merchant_id@ != merchant_account.id@
}

/// Finds the ids that a request for a refund rests on. A request that names another
/// merchant is refused.
pub fn check_refund_request(
    request: &RefundsCreateRequest,
    merchant_account: &MerchantAccount,
    payment_attempt: &PaymentAttempt,
) -> (res: Result<RefundIds, ApiErrorResponse>)
    ensures
        match res {
            Ok(ids) => {
                &&& request.global_refund_id == Some(ids.id)
                &&& !names_other_merchant(*request, *merchant_account)
                &&& payment_attempt.connector_payment_id == Some(ids.connector_payment_id)
            },
            Err(error) => if request.global_refund_id is None {
                error == ApiErrorResponse::InternalServerError
            } else if names_other_merchant(*request, *merchant_account) {
                is_wrong_format(error, "merchant_id"@, "merchant_id from merchant account"@)
            } else {
                payment_attempt.connector_payment_id is None && error
                    == ApiErrorResponse::InternalServerError
            },
        },
{
    let id = match &request.global_refund_id {
        Some(id) => id.clone(),
        None => return Err(ApiErrorResponse::InternalServerError),
    };
    let other_merchant = match &request.merchant_id {
        Some(merchant_id) => !same_text(merchant_id.as_str(), merchant_account.id.as_str()),
        None => false,
    };
    if other_merchant {
        return Err(
            ApiErrorResponse::InvalidDataFormat {
                field_name: "merchant_id".to_string(),
                expected_format: "merchant_id from merchant account".to_string(),
            },
        );
    }
    match &payment_attempt.connector_payment_id {
        Some(connector_payment_id) => Ok(
            RefundIds { id, connector_payment_id: connector_payment_id.clone() },
        ),
        None => Err(ApiErrorResponse::InternalServerError),
    }
}

/// The amount that a payment took: all that was captured, or else the whole amount.
pub fn total_amount_captured(payment_intent: &PaymentIntent, payment_attempt: &PaymentAttempt) -> (res:
    MinorUnit)
    ensures
        res == (match payment_intent.amount_captured {
            Some(amount) => amount,
            None => payment_attempt.total_amount,
        }),
{
    match payment_intent.amount_captured {
        Some(amount) => amount,
        None => payment_attempt.total_amount,
    }
}

/// What was found of a refund before it is made.
#[derive(Clone, Copy, Debug, PartialEq, Eq, Structural)]
pub struct RefundChecks {
    /// The payment is recent enough.
    pub recent_enough: bool,
    /// The amounts refunded, with this one, do not exceed what the payment took.
    pub amount_fits: bool,
    /// The payment may be refunded once more.
    pub attempts_left: bool,
}

/// Whether an error is the one that a refund meets first. `max_age` is the number of days for
/// which a payment can be refunded.
pub open spec fn is_refusal(error: ApiErrorResponse, checks: RefundChecks, max_age: u64) -> bool {
    if !checks.recent_enough {
        is_wrong_format(
            error,
            "created_at"@,
            "created_at not older than "@ + crate::text::number_text(max_age as nat) + " days"@,
        )
    } else if !checks.amount_fits {
        error == ApiErrorResponse::RefundAmountExceedsPaymentAmount
    } else {
        !checks.attempts_left && error == ApiErrorResponse::MaximumRefundCount
    }
}

/// The error that a refund meets first, if any.
fn refund_refusal(checks: RefundChecks, max_age: u64) -> (res: Option<ApiErrorResponse>)
    ensures
        match res {
            None => checks.recent_enough && checks.amount_fits && checks.attempts_left,
            Some(error) => is_refusal(error, checks, max_age),
        },
{
    if !checks.recent_enough {
        let days = render_u128(max_age as u128);
        Some(
            ApiErrorResponse::InvalidDataFormat {
                field_name: "created_at".to_string(),
                expected_format: concat3("created_at not older than ", days.as_str(), " days"),
            },
        )
    } else if !checks.amount_fits {
        Some(ApiErrorResponse::RefundAmountExceedsPaymentAmount)
    } else if !checks.attempts_left {
        Some(ApiErrorResponse::MaximumRefundCount)
    } else {
        None
    }
}

/// What a new refund is made from.
pub struct RefundDraft {
    pub refund_amount: MinorUnit,
    /// The refund type that stands where the request names none.
    pub default_refund_type: RefundType,
    pub created_at: time::PrimitiveDateTime,
    pub modified_at: time::PrimitiveDateTime,
}

/// Whether a record is the one of a new refund. `stored` is the payment's id at the connector,
/// as it is stored.
pub open spec fn is_new_refund(
    refund: RefundNew,
    request: RefundsCreateRequest,
    merchant_account: MerchantAccount,
    payment_intent: PaymentIntent,
    payment_attempt: PaymentAttempt,
    draft: RefundDraft,
    stored: StoredId,
) -> bool {
    &&& request.global_refund_id == Some(refund.id)
    &&& payment_attempt.connector == Some(refund.connector)
    &&& refund.updated_by@ == Seq::<char>::empty()
    &&& refund == (RefundNew {
        id: refund.id,
        merchant_reference_id: request.merchant_reference_id,
        external_reference_id: Some(request.merchant_reference_id),
        payment_id: request.payment_id,
        merchant_id: merchant_account.id,
        connector_transaction_id: stored.id,
        connector: refund.connector,
        refund_type: match request.refund_type {
            Some(refund_type) => refund_type,
            None => draft.default_refund_type,
        },
        total_amount: payment_attempt.total_amount,
        refund_amount: draft.refund_amount,
        currency: payment_intent.currency,
        created_at: draft.created_at,
        modified_at: draft.modified_at,
        refund_status: RefundStatus::Pending,
        metadata: request.metadata,
        description: request.reason,
        attempt_id: payment_attempt.id,
        refund_reason: request.reason,
        profile_id: Some(payment_intent.profile_id),
        connector_id: payment_attempt.merchant_connector_id,
        charges: None,
        split_refunds: None,
        connector_refund_id: None,
        sent_to_gateway: false,
        refund_arn: None,
        updated_by: refund.updated_by,
        organization_id: merchant_account.organization_id,
        processor_transaction_data: stored.data,
        processor_refund_data: None,
    })
}

/// The record of a new refund. A request without an id, a request that names another merchant,
/// an attempt without an id at the connector, a refund that fails a check and an attempt that
/// names no connector are refused, in this order. `form_id_and_data` gives an id as it is
/// stored.
pub fn validate_and_create_refund<F: FnOnce(String) -> StoredId>(
    request: RefundsCreateRequest,
    merchant_account: &MerchantAccount,
    payment_intent: &PaymentIntent,
    payment_attempt: &PaymentAttempt,
    checks: RefundChecks,
    max_age: u64,
    draft: RefundDraft,
    form_id_and_data: F,
) -> (res: Result<RefundNew, ApiErrorResponse>)
    requires
        payment_attempt.connector_payment_id matches Some(id) ==> call_requires(
            form_id_and_data,
            (id,),
        ),
    ensures
        if request.global_refund_id is None {
            res == Err::<RefundNew, ApiErrorResponse>(ApiErrorResponse::InternalServerError)
        } else if names_other_merchant(request, *merchant_account) {
            res matches Err(error) && is_wrong_format(
                error,
                "merchant_id"@,
                "merchant_id from merchant account"@,
            )
        } else if payment_attempt.connector_payment_id is None {
            res == Err::<RefundNew, ApiErrorResponse>(ApiErrorResponse::InternalServerError)
        } else if !(checks.recent_enough && checks.amount_fits && checks.attempts_left) {
            res matches Err(error) && is_refusal(error, checks, max_age)
        } else if payment_attempt.connector is None {
            res == Err::<RefundNew, ApiErrorResponse>(ApiErrorResponse::InternalServerError)
        } else {
            &&& res matches Ok(refund)
            &&& exists|stored: StoredId|
                #![trigger call_ensures(
                    form_id_and_data,
                    (payment_attempt.connector_payment_id->0,),
                    stored,
                )]
                call_ensures(
                    form_id_and_data,
                    (payment_attempt.connector_payment_id->0,),
                    stored,
                ) && is_new_refund(
                    refund,
                    request,
                    *merchant_account,
                    *payment_intent,
                    *payment_attempt,
                    draft,
                    stored,
                )
        },
{
    let ids = match check_refund_request(&request, merchant_account, payment_attempt) {
        Ok(ids) => ids,
        Err(error) => return Err(error),
    };
    match refund_refusal(checks, max_age) {
        Some(error) => return Err(error),
        None => {},
    }
    let connector = match &payment_attempt.connector {
        Some(connector) => connector.clone(),
        None => return Err(ApiErrorResponse::InternalServerError),
    };
    let stored = form_id_and_data(ids.connector_payment_id);
    let refund_type = match request.refund_type {
        Some(refund_type) => refund_type,
        None => draft.default_refund_type,
    };
    let refund = RefundNew {
        id: ids.id,
        external_reference_id: Some(request.merchant_reference_id.clone()),
        merchant_reference_id: request.merchant_reference_id,
        payment_id: request.payment_id,
        merchant_id: merchant_account.id.clone(),
        connector_transaction_id: stored.id,
        connector,
        refund_type,
        total_amount: payment_attempt.total_amount,
        refund_amount: draft.refund_amount,
        currency: payment_intent.currency.clone(),
        created_at: draft.created_at,
        modified_at: draft.modified_at,
        refund_status: RefundStatus::Pending,
        metadata: request.metadata,
        description: clone_optional(&request.reason),
        attempt_id: payment_attempt.id.clone(),
        refund_reason: request.reason,
        profile_id: Some(payment_intent.profile_id.clone()),
        connector_id: clone_optional(&payment_attempt.merchant_connector_id),
        charges: None,
        split_refunds: None,
        connector_refund_id: None,
        sent_to_gateway: false,
        refund_arn: None,
        updated_by: String::new(),
        organization_id: merchant_account.organization_id.clone(),
        processor_transaction_data: stored.data,
        processor_refund_data: None,
    };
    Ok(refund)
}

/// The error for a refund that could not be stored. `already_there` tells whether there is
/// one under its ids.
pub fn refund_not_stored(already_there: bool) -> (res: ApiErrorResponse)
    ensures
        res == (if already_there {
            ApiErrorResponse::DuplicateRefundRequest
        } else {
            ApiErrorResponse::RefundNotFound
        }),
{
    if already_there {
        ApiErrorResponse::DuplicateRefundRequest
    } else {
        ApiErrorResponse::RefundNotFound
    }
}

/// The record of a refund.
pub struct Refund {
    pub id: String,
    pub merchant_reference_id: String,
    pub payment_id: String,
    pub merchant_id: String,
    pub connector_transaction_id: String,
    pub connector: String,
    pub refund_amount: MinorUnit,
    pub currency: Currency,
    pub refund_status: RefundStatus,
    pub sent_to_gateway: bool,
    pub refund_error_message: Option<String>,
    pub refund_error_code: Option<String>,
    pub metadata: Option<serde_json::Value>,
    pub refund_reason: Option<String>,
    pub profile_id: Option<String>,
    pub connector_id: Option<String>,
    pub created_at: time::PrimitiveDateTime,
    pub modified_at: time::PrimitiveDateTime,
    pub processor_transaction_data: Option<String>,
    pub unified_code: Option<String>,
    pub unified_message: Option<String>,
}

impl Refund {
    /// The code and the message to be put into the language of the reader, where there are
    /// both.
    pub fn to_translate(&self) -> (res: Option<(String, String)>)
        ensures
            res == (match (self.unified_code, self.unified_message) {
                (Some(code), Some(message)) => Some((code, message)),
                _ => None,
            }),
    {
        match (&self.unified_code, &self.unified_message) {
            (Some(code), Some(message)) => Some((code.clone(), message.clone())),
            _ => None,
        }
    }

    /// The refund with its message in the language of the reader. Without a translation, or
    /// where there was nothing to translate, the message stays.
    pub fn with_translation(self, translated: Option<String>) -> (res: Refund)
        ensures
            res == (Refund {
                unified_message: match (self.unified_code, self.unified_message, translated) {
                    (Some(_), Some(_), Some(text)) => Some(text),
                    _ => self.unified_message,
                },
                ..self
            }),
    {
        let unified_message = match (&self.unified_code, self.unified_message) {
            (Some(_), Some(message)) => match translated {
                Some(text) => Some(text),
                None => Some(message),
            },
            (_, message) => message,
        };
        Refund { unified_message, ..self }
    }
}

/// Why a refund failed.
#[derive(Debug, PartialEq, Eq)]
pub struct RefundErrorDetails {
    pub code: String,
    pub message: String,
}

/// What a merchant is told of a refund. `S` is the status as merchants see it.
pub struct RefundResponse<S> {
    pub id: String,
    pub payment_id: String,
    pub merchant_reference_id: Option<String>,
    pub amount: MinorUnit,
    pub currency: Currency,
    pub status: S,
    pub reason: Option<String>,
    pub metadata: Option<serde_json::Value>,
    pub error_details: Option<RefundErrorDetails>,
    pub created_at: time::PrimitiveDateTime,
    pub updated_at: time::PrimitiveDateTime,
    pub connector: String,
    pub profile_id: String,
    pub merchant_connector_id: String,
    pub connector_refund_reference_id: Option<String>,
}

fn text_or_empty(value: Option<String>) -> (res: String)
    ensures
        res@ == crate::text::view_or(value, Seq::<char>::empty()),
{
    match value {
        Some(text) => text,
        None => String::new(),
    }
}

impl<S> RefundResponse<S> {
    /// What a merchant is told of a refund. `status` is the refund's status as merchants see
    /// it.
    pub fn foreign_try_from(refund: Refund, status: S) -> (res: Result<Self, ApiErrorResponse>)
        ensures
            match (refund.profile_id, refund.connector_id) {
                (Some(profile_id), Some(merchant_connector_id)) => {
                    &&& res matches Ok(response)
                    &&& response.error_details matches Some(details)
                    &&& details.code@ == crate::text::view_or(
                        refund.refund_error_code,
                        Seq::<char>::empty(),
                    )
                    &&& details.message@ == crate::text::view_or(
                        refund.refund_error_message,
                        Seq::<char>::empty(),
                    )
                    &&& response == (RefundResponse {
                        id: refund.id,
                        payment_id: refund.payment_id,
                        merchant_reference_id: Some(refund.merchant_reference_id),
                        amount: refund.refund_amount,
                        currency: refund.currency,
                        status,
                        reason: refund.refund_reason,
                        metadata: refund.metadata,
                        error_details: Some(details),
                        created_at: refund.created_at,
                        updated_at: refund.modified_at,
                        connector: refund.connector,
                        profile_id,
                        merchant_connector_id,
                        connector_refund_reference_id: Some(refund.id),
                    })
                },
                _ => res == Err::<Self, ApiErrorResponse>(ApiErrorResponse::InternalServerError),
            },
    {
        let profile_id = match refund.profile_id {
            Some(profile_id) => profile_id,
            None => return Err(ApiErrorResponse::InternalServerError),
        };
        let merchant_connector_id = match refund.connector_id {
            Some(connector_id) => connector_id,
            None => return Err(ApiErrorResponse::InternalServerError),
        };
        Ok(
            RefundResponse {
                payment_id: refund.payment_id,
                connector_refund_reference_id: Some(refund.id.clone()),
                id: refund.id,
                amount: refund.refund_amount,
                currency: refund.currency,
                reason: refund.refund_reason,
                status,
                profile_id,
                metadata: refund.metadata,
                created_at: refund.created_at,
                updated_at: refund.modified_at,
                connector: refund.connector,
                merchant_connector_id,
                merchant_reference_id: Some(refund.merchant_reference_id),
                error_details: Some(
                    RefundErrorDetails {
                        code: text_or_empty(refund.refund_error_code),
                        message: text_or_empty(refund.refund_error_message),
                    },
                ),
            },
        )
    }
}

// ---------------------------------------------------------------------------
// Sending a refund to the connector
// ---------------------------------------------------------------------------

/// What changes in the record of a refund.
#[allow(inconsistent_fields)]
pub enum RefundUpdate {
    Update {
        connector_refund_id: String,
        refund_status: RefundStatus,
        sent_to_gateway: bool,
        refund_error_message: Option<String>,
        refund_arn: String,
        updated_by: String,
        processor_refund_data: Option<String>,
    },
    ErrorUpdate {
        refund_status: Option<RefundStatus>,
        refund_error_message: Option<String>,
        refund_error_code: Option<String>,
        updated_by: String,
        connector_refund_id: Option<String>,
        processor_refund_data: Option<String>,
        unified_code: Option<String>,
        unified_message: Option<String>,
    },
}

/// The account at the connector that took the payment.
pub fn merchant_connector_id(payment_attempt: &PaymentAttempt) -> (res: Result<
    String,
    ApiErrorResponse,
>)
    ensures
        match payment_attempt.merchant_connector_id {
            Some(id) => res == Ok::<String, ApiErrorResponse>(id),
            None => res == Err::<String, ApiErrorResponse>(ApiErrorResponse::InternalServerError),
        },
{
    match &payment_attempt.merchant_connector_id {
        Some(id) => Ok(id.clone()),
        None => Err(ApiErrorResponse::InternalServerError),
    }
}

/// Why a call of the connector could not be made.
pub enum RefundCallFailure {
    /// The connector's code does not do refunds. The text is the error as it is shown.
    NotImplemented { text: String },
    NotSupported { message: String, connector: String },
    Other,
}

/// Whether an update marks a refund as failed at the connector's code.
pub open spec fn is_call_failure(
    update: RefundUpdate,
    message: Seq<char>,
    code: Seq<char>,
    storage_scheme: String,
) -> bool {
    &&& update matches RefundUpdate::ErrorUpdate {
        refund_status,
        refund_error_message,
        refund_error_code,
        updated_by,
        connector_refund_id,
        processor_refund_data,
        unified_code,
        unified_message,
    }
    &&& refund_status == Some(RefundStatus::Failure)
    &&& crate::text::opt_view(refund_error_message) == Some(message)
    &&& crate::text::opt_view(refund_error_code) == Some(code)
    &&& updated_by == storage_scheme
    &&& connector_refund_id is None
    &&& processor_refund_data is None
    &&& unified_code is None
    &&& unified_message is None
}

/// What changes in the record of a refund whose call could not be made, if anything.
fn call_failure_update(failure: RefundCallFailure, storage_scheme: String) -> (res: Option<
    RefundUpdate,
>)
    ensures
        match failure {
            RefundCallFailure::NotImplemented { text } => res matches Some(update)
                && is_call_failure(update, text@, "NOT_IMPLEMENTED"@, storage_scheme),
            RefundCallFailure::NotSupported { message, connector } => res matches Some(update)
                && is_call_failure(
                update,
                message@ + " is not supported by "@ + connector@,
                "NOT_SUPPORTED"@,
                storage_scheme,
            ),
            RefundCallFailure::Other => res is None,
        },
{
    let (message, code) = match failure {
        RefundCallFailure::NotImplemented { text } => (text, "NOT_IMPLEMENTED".to_string()),
        RefundCallFailure::NotSupported { message, connector } => (
            concat3(message.as_str(), " is not supported by ", connector.as_str()),
            "NOT_SUPPORTED".to_string(),
        ),
        RefundCallFailure::Other => return None,
    };
    Some(
        RefundUpdate::ErrorUpdate {
            refund_status: Some(RefundStatus::Failure),
            refund_error_message: Some(message),
            refund_error_code: Some(code),
            updated_by: storage_scheme,
            connector_refund_id: None,
            processor_refund_data: None,
            unified_code: None,
            unified_message: None,
        },
    )
}

/// The data of a refund and of its answer that do not agree.
pub struct IntegrityCheckError {
    pub field_names: String,
    pub connector_transaction_id: Option<StoredId>,
}

/// A request whose answer can be held against it.
pub trait CheckIntegrity {
    /// Holds the answer against the request. The id is the refund's at the connector.
    fn check_integrity(&self, connector_refund_id: Option<String>) -> Result<
        (),
        IntegrityCheckError,
    >;
}

/// The refund's id that an answer gives.
pub open spec fn answered_id(
    refund_response_data: Result<RefundsResponseData, ErrorResponse>,
) -> Option<String> {
    match refund_response_data {
        Ok(data) => Some(data.connector_refund_id),
        Err(_) => None,
    }
}

/// Holds an answer against its request.
pub fn check_refund_integrity<Request: CheckIntegrity>(
    request: &Request,
    refund_response_data: &Result<RefundsResponseData, ErrorResponse>,
) -> (res: Result<(), IntegrityCheckError>)
    ensures
        call_ensures(
            Request::check_integrity,
            (request, answered_id(*refund_response_data)),
            res,
        ),
{
    let connector_refund_id = match refund_response_data {
        Ok(data) => Some(data.connector_refund_id.clone()),
        Err(_) => None,
    };
    request.check_integrity(connector_refund_id)
}

/// What is known of an error of a connector.
pub struct GatewayStatusMap {
    pub unified_code: Option<String>,
    pub unified_message: Option<String>,
}

/// The code and the message under which an error is told: those that are known of it where
/// both are, and otherwise those of an error that nothing is known of.
pub open spec fn unified(known: Option<GatewayStatusMap>) -> (Seq<char>, Seq<char>) {
    match known {
        Some(GatewayStatusMap { unified_code: Some(code), unified_message: Some(message) }) => (
            code@,
            message@,
        ),
        _ => (DEFAULT_UNIFIED_ERROR_CODE@, DEFAULT_UNIFIED_ERROR_MESSAGE@),
    }
}

/// What a connector answered: the refund's status, and its id as it is stored.
pub struct RefundAnswer {
    pub connector_refund_id: StoredId,
    pub refund_status: RefundStatus,
}

/// Whether an update is the one for a refund that the connector refused.
pub open spec fn is_refusal_update(
    update: RefundUpdate,
    error: ErrorResponse,
    known: Option<GatewayStatusMap>,
    storage_scheme: String,
) -> bool {
    &&& update matches RefundUpdate::ErrorUpdate {
        refund_status,
        refund_error_message,
        refund_error_code,
        updated_by,
        connector_refund_id,
        processor_refund_data,
        unified_code,
        unified_message,
    }
    &&& refund_status == Some(RefundStatus::Failure)
    &&& refund_error_message == (match error.reason {
        Some(reason) => Some(reason),
        None => Some(error.message),
    })
    &&& refund_error_code == Some(error.code)
    &&& updated_by == storage_scheme
    &&& connector_refund_id is None
    &&& processor_refund_data is None
    &&& crate::text::opt_view(unified_code) == Some(unified(known).0)
    &&& crate::text::opt_view(unified_message) == Some(unified(known).1)
}

/// Whether an update is the one for a refund whose answer does not agree with its request.
pub open spec fn is_mismatch_update(
    update: RefundUpdate,
    error: IntegrityCheckError,
    storage_scheme: String,
) -> bool {
    &&& update matches RefundUpdate::ErrorUpdate {
        refund_status,
        refund_error_message,
        refund_error_code,
        updated_by,
        connector_refund_id,
        processor_refund_data,
        unified_code,
        unified_message,
    }
    &&& refund_status == Some(RefundStatus::ManualReview)
    &&& crate::text::opt_view(refund_error_message) == Some(
        "Integrity Check Failed! as data mismatched for fields "@ + error.field_names@,
    )
    &&& crate::text::opt_view(refund_error_code) == Some("IE"@)
    &&& updated_by == storage_scheme
    &&& connector_refund_id == (match error.connector_transaction_id {
        Some(stored) => Some(stored.id),
        None => None,
    })
    &&& processor_refund_data == (match error.connector_transaction_id {
        Some(stored) => stored.data,
        None => None,
    })
    &&& unified_code is None
    &&& unified_message is None
}

/// Whether an update is the one for a refund that the connector took.
pub open spec fn is_answer_update(
    update: RefundUpdate,
    answer: RefundAnswer,
    storage_scheme: String,
) -> bool {
    &&& update matches RefundUpdate::Update {
        connector_refund_id,
        refund_status,
        sent_to_gateway,
        refund_error_message,
        refund_arn,
        updated_by,
        processor_refund_data,
    }
    &&& connector_refund_id == answer.connector_refund_id.id
    &&& refund_status == answer.refund_status
    &&& sent_to_gateway
    &&& refund_error_message is None
    &&& refund_arn@ == Seq::<char>::empty()
    &&& updated_by == storage_scheme
    &&& processor_refund_data == answer.connector_refund_id.data
}

/// Whether an update is the one that an answer leads to.
pub open spec fn is_gateway_update(
    update: RefundUpdate,
    response: Result<RefundAnswer, ErrorResponse>,
    integrity: Result<(), IntegrityCheckError>,
    known: Option<GatewayStatusMap>,
    storage_scheme: String,
) -> bool {
    match (response, integrity) {
        (Err(error), _) => is_refusal_update(update, error, known, storage_scheme),
        (Ok(_), Err(error)) => is_mismatch_update(update, error, storage_scheme),
        (Ok(answer), Ok(_)) => is_answer_update(update, answer, storage_scheme),
    }
}

/// What changes in the record of a refund that the connector refused.
fn refusal_update(
    error: ErrorResponse,
    known: Option<GatewayStatusMap>,
    storage_scheme: String,
) -> (res: RefundUpdate)
    ensures
        is_refusal_update(res, error, known, storage_scheme),
{
    let (unified_code, unified_message) = match known {
        Some(GatewayStatusMap { unified_code: Some(code), unified_message: Some(message) }) => (
            code,
            message,
        ),
        _ => (
            DEFAULT_UNIFIED_ERROR_CODE.to_string(),
            DEFAULT_UNIFIED_ERROR_MESSAGE.to_string(),
        ),
    };
    let refund_error_message = match error.reason {
        Some(reason) => Some(reason),
        None => Some(error.message),
    };
    RefundUpdate::ErrorUpdate {
        refund_status: Some(RefundStatus::Failure),
        refund_error_message,
        refund_error_code: Some(error.code),
        updated_by: storage_scheme,
        connector_refund_id: None,
        processor_refund_data: None,
        unified_code: Some(unified_code),
        unified_message: Some(unified_message),
    }
}

/// What changes in the record of a refund that the connector took.
fn answer_update(
    answer: RefundAnswer,
    integrity: Result<(), IntegrityCheckError>,
    storage_scheme: String,
) -> (res: RefundUpdate)
    ensures
        match integrity {
            Err(error) => is_mismatch_update(res, error, storage_scheme),
            Ok(_) => is_answer_update(res, answer, storage_scheme),
        },
{
    match integrity {
        Err(error) => {
            let (connector_refund_id, processor_refund_data) = match error.connector_transaction_id {
                Some(stored) => (Some(stored.id), stored.data),
                None => (None, None),
            };
            let mut message = "Integrity Check Failed! as data mismatched for fields ".to_string();
            message.append(error.field_names.as_str());
            RefundUpdate::ErrorUpdate {
                refund_status: Some(RefundStatus::ManualReview),
                refund_error_message: Some(message),
                refund_error_code: Some("IE".to_string()),
                updated_by: storage_scheme,
                connector_refund_id,
                processor_refund_data,
                unified_code: None,
                unified_message: None,
            }
        },
        Ok(()) => RefundUpdate::Update {
            connector_refund_id: answer.connector_refund_id.id,
            refund_status: answer.refund_status,
            sent_to_gateway: true,
            refund_error_message: None,
            refund_arn: String::new(),
            updated_by: storage_scheme,
            processor_refund_data: answer.connector_refund_id.data,
        },
    }
}

/// What a refund holds after the connector was called, or was not called for want of a token:
/// the answer, and how it agrees with the request.
pub struct RefundOutcome {
    pub response: Result<RefundAnswer, ErrorResponse>,
    pub integrity: Result<(), IntegrityCheckError>,
}

/// What to do next to send a refund to the connector.
pub enum Sending {
    /// Prepare the call of the connector with the merchant's account there, and ask for a token
    /// if the connector wants one.
    AskToken(String),
    /// End with this error. Nothing was sent or stored.
    EndWithError(ApiErrorResponse),
    /// Call the connector.
    CallConnector,
    /// Store this change, then end with the error of the call.
    RecordCallFailure(RefundUpdate),
    /// End with the error of the call.
    EndWithCallFailure,
    /// Look up what is known of this error for refunds.
    LookUpRefundError(ErrorResponse),
    /// Look up what is known of this error for payments. Some connectors do not keep the
    /// errors of refunds apart.
    LookUpPaymentError(ErrorResponse),
    /// Store this change; the refund as stored is the outcome.
    StoreUpdate(RefundUpdate),
}

/// What happened on the way.
pub enum SendingEvent<'a> {
    /// A refund of what this attempt took is to be sent.
    Asked(&'a PaymentAttempt),
    /// A token was asked for. The outcome is what the refund holds without a call.
    TokenAsked {
        supports_access_token: bool,
        has_access_token: bool,
        uncalled: RefundOutcome,
    },
    /// The connector was called.
    Called(RefundOutcome),
    /// The connector could not be called.
    CallFailed(RefundCallFailure),
    /// What is known of an error for refunds was looked up.
    RefundErrorLookedUp(ErrorResponse, Option<GatewayStatusMap>),
    /// What is known of an error for payments was looked up.
    PaymentErrorLookedUp(ErrorResponse, Option<GatewayStatusMap>),
}

/// Whether a step is the one after the outcome of a refund is known.
pub open spec fn is_outcome_step(
    step: Sending,
    outcome: RefundOutcome,
    storage_scheme: String,
) -> bool {
    match outcome.response {
        Err(error) => step == Sending::LookUpRefundError(error),
        Ok(_) => step matches Sending::StoreUpdate(update) && is_gateway_update(
            update,
            outcome.response,
            outcome.integrity,
            None,
            storage_scheme,
        ),
    }
}

/// Whether a step is the one that an event leads to.
pub open spec fn is_next_step(step: Sending, event: SendingEvent, storage_scheme: String) -> bool {
    match event {
        SendingEvent::Asked(payment_attempt) => match payment_attempt.merchant_connector_id {
            Some(account) => step == Sending::AskToken(account),
            None => step == Sending::EndWithError(ApiErrorResponse::InternalServerError),
        },
        SendingEvent::TokenAsked { supports_access_token, has_access_token, uncalled } => {
            if supports_access_token && !has_access_token {
                is_outcome_step(step, uncalled, storage_scheme)
            } else {
                step is CallConnector
            }
        },
        SendingEvent::Called(outcome) => is_outcome_step(step, outcome, storage_scheme),
        SendingEvent::CallFailed(RefundCallFailure::NotImplemented { text }) => {
            step matches Sending::RecordCallFailure(update) && is_call_failure(
                update,
                text@,
                "NOT_IMPLEMENTED"@,
                storage_scheme,
            )
        },
        SendingEvent::CallFailed(RefundCallFailure::NotSupported { message, connector }) => {
            step matches Sending::RecordCallFailure(update) && is_call_failure(
                update,
                message@ + " is not supported by "@ + connector@,
                "NOT_SUPPORTED"@,
                storage_scheme,
            )
        },
        SendingEvent::CallFailed(RefundCallFailure::Other) => step is EndWithCallFailure,
        SendingEvent::RefundErrorLookedUp(error, Some(known)) => {
            step matches Sending::StoreUpdate(update) && is_refusal_update(
                update,
                error,
                Some(known),
                storage_scheme,
            )
        },
        SendingEvent::RefundErrorLookedUp(error, None) => step == Sending::LookUpPaymentError(
            error,
        ),
        SendingEvent::PaymentErrorLookedUp(error, known) => {
            step matches Sending::StoreUpdate(update) && is_refusal_update(
                update,
                error,
                known,
                storage_scheme,
            )
        },
    }
}

fn outcome_step(outcome: RefundOutcome, storage_scheme: String) -> (res: Sending)
    ensures
        is_outcome_step(res, outcome, storage_scheme),
{
    match outcome.response {
        Err(error) => Sending::LookUpRefundError(error),
        Ok(answer) => Sending::StoreUpdate(
            answer_update(answer, outcome.integrity, storage_scheme),
        ),
    }
}

/// What to do next to send a refund to the connector.
pub fn trigger_refund_to_gateway(event: SendingEvent, storage_scheme: String) -> (res: Sending)
    ensures
        is_next_step(res, event, storage_scheme),
{
    match event {
        SendingEvent::Asked(payment_attempt) => match merchant_connector_id(payment_attempt) {
            Ok(account) => Sending::AskToken(account),
            Err(error) => Sending::EndWithError(error),
        },
        SendingEvent::TokenAsked { supports_access_token, has_access_token, uncalled } => {
            if supports_access_token && !has_access_token {
                outcome_step(uncalled, storage_scheme)
            } else {
                Sending::CallConnector
            }
        },
        SendingEvent::Called(outcome) => outcome_step(outcome, storage_scheme),
        SendingEvent::CallFailed(failure) => match call_failure_update(failure, storage_scheme) {
            Some(update) => Sending::RecordCallFailure(update),
            None => Sending::EndWithCallFailure,
        },
        SendingEvent::RefundErrorLookedUp(error, known) => match known {
            Some(known) => Sending::StoreUpdate(
                refusal_update(error, Some(known), storage_scheme),
            ),
            None => Sending::LookUpPaymentError(error),
        },
        SendingEvent::PaymentErrorLookedUp(error, known) => Sending::StoreUpdate(
            refusal_update(error, known, storage_scheme),
        ),
    }
}

/// The connector is called only right after a token was asked for, and that is asked for only
/// where the attempt names the merchant's account at the connector. Without one, sending ends
/// in an error.
pub proof fn law_no_call_without_account(
    step: Sending,
    event: SendingEvent,
    storage_scheme: String,
)
    requires
        is_next_step(step, event, storage_scheme),
    ensures
        step is CallConnector ==> event is TokenAsked,
        step is AskToken <==> (event matches SendingEvent::Asked(payment_attempt)
            && payment_attempt.merchant_connector_id is Some),
        step is EndWithError <==> (event matches SendingEvent::Asked(payment_attempt)
            && payment_attempt.merchant_connector_id is None),
{
}

/// The status that an update sets.
pub open spec fn status_set(update: RefundUpdate) -> Option<RefundStatus> {
    match update {
        RefundUpdate::Update { refund_status, .. } => Some(refund_status),
        RefundUpdate::ErrorUpdate { refund_status, .. } => refund_status,
    }
}

/// A refund is stored as a success exactly where the connector answered so and its answer
/// agrees with the request.
pub proof fn law_success_only_as_answered(step: Sending, event: SendingEvent, storage_scheme: String)
    requires
        is_next_step(step, event, storage_scheme),
        step is StoreUpdate,
    ensures
        status_set(step->StoreUpdate_0) == Some(RefundStatus::Success) <==> (match event {
            SendingEvent::TokenAsked { uncalled: outcome, .. } | SendingEvent::Called(outcome) =>
            outcome.integrity is Ok && (outcome.response matches Ok(answer)
                && answer.refund_status is Success),
            _ => false,
        }),
{
}

// ---------------------------------------------------------------------------
// The tasks of a refund
// ---------------------------------------------------------------------------

/// What to do about a refund that was stored.
#[derive(Clone, Copy, Debug, PartialEq, Eq, Structural)]
pub enum RefundExecution {
    /// Nothing.
    Keep,
    /// Add the task that sends the refund to the connector.
    AddExecuteTask,
    /// Send the refund to the connector, then add the task that asks for its state.
    TriggerThenAddSyncTask,
    /// Add the task that asks for the refund's state.
    AddSyncTask,
}

/// What to do about a refund that was stored.
pub open spec fn refund_execution(
    refund_status: RefundStatus,
    sent_to_gateway: bool,
    has_process: bool,
    refund_type: RefundType,
) -> RefundExecution {
    if !(refund_status is Pending || refund_status is ManualReview) {
        RefundExecution::Keep
    } else if !sent_to_gateway && !has_process {
        match refund_type {
            RefundType::Scheduled => RefundExecution::AddExecuteTask,
            RefundType::Instant => RefundExecution::TriggerThenAddSyncTask,
        }
    } else {
        match refund_type {
            RefundType::Scheduled => RefundExecution::AddSyncTask,
            RefundType::Instant => RefundExecution::Keep,
        }
    }
}

/// What to do about a refund that was stored. `has_process` tells whether there is a task
/// that sends it to the connector.
pub fn schedule_refund_execution(refund: &Refund, has_process: bool, refund_type: RefundType) -> (res:
    RefundExecution)
    ensures
        res == refund_execution(
            refund.refund_status,
            refund.sent_to_gateway,
            has_process,
            refund_type,
        ),
{
    match refund.refund_status {
        RefundStatus::Pending | RefundStatus::ManualReview => {
            match (refund.sent_to_gateway, has_process) {
                (false, false) => match refund_type {
                    RefundType::Scheduled => RefundExecution::AddExecuteTask,
                    RefundType::Instant => RefundExecution::TriggerThenAddSyncTask,
                },
                _ => match refund_type {
                    RefundType::Scheduled => RefundExecution::AddSyncTask,
                    RefundType::Instant => RefundExecution::Keep,
                },
            }
        },
        _ => RefundExecution::Keep,
    }
}

/// A refund goes to the connector, now or by a task, only where it did not go before, no
/// task is to send it, and its outcome is open.
pub proof fn law_refund_is_sent_once(
    refund_status: RefundStatus,
    sent_to_gateway: bool,
    has_process: bool,
    refund_type: RefundType,
)
    ensures
        refund_execution(refund_status, sent_to_gateway, has_process, refund_type)
            is TriggerThenAddSyncTask || refund_execution(
            refund_status,
            sent_to_gateway,
            has_process,
            refund_type,
        ) is AddExecuteTask <==> !sent_to_gateway && !has_process && (refund_status is Pending
            || refund_status is ManualReview),
{
}

/// A refund whose outcome is known is left alone.
pub proof fn law_finished_refunds_are_kept(
    refund_status: RefundStatus,
    sent_to_gateway: bool,
    has_process: bool,
    refund_type: RefundType,
)
    requires
        refund_status is Success || crate::enums::refund_failed(refund_status),
    ensures
        refund_execution(refund_status, sent_to_gateway, has_process, refund_type) is Keep,
{
}

/// The id of a task for a refund, under the name of the workflow's runner.
pub open spec fn refund_task_id(
    runner: Seq<char>,
    task: Seq<char>,
    refund_id: Seq<char>,
) -> Seq<char> {
    runner + "_"@ + task + "_"@ + refund_id
}

fn make_task_id(runner: &str, task: &str, refund_id: &str) -> (res: String)
    ensures
        res@ == refund_task_id(runner@, task@, refund_id@),
{
    let mut text = concat3(runner, "_", task);
    text.append("_");
    text.append(refund_id);
    text
}

/// The id of the task that sends a refund to the connector.
pub fn execute_task_id(runner: &str, refund: &Refund) -> (res: String)
    ensures
        res@ == refund_task_id(runner@, "EXECUTE_REFUND"@, refund.id@),
{
    make_task_id(runner, "EXECUTE_REFUND", refund.id.as_str())
}

/// What the tasks of a refund are told.
#[derive(Debug, PartialEq, Eq)]
pub struct RefundCoreWorkflow {
    pub refund_id: String,
    pub connector_transaction_id: String,
    pub merchant_id: String,
    pub payment_id: String,
    pub processor_transaction_data: Option<String>,
}

/// What the tasks of a refund are told.
pub open spec fn workflow_of(refund: Refund) -> RefundCoreWorkflow {
    RefundCoreWorkflow {
        refund_id: refund.id,
        connector_transaction_id: refund.connector_transaction_id,
        merchant_id: refund.merchant_id,
        payment_id: refund.payment_id,
        processor_transaction_data: refund.processor_transaction_data,
    }
}

/// What the tasks of a refund are told.
pub fn refund_to_refund_core_workflow_model(refund: &Refund) -> (res: RefundCoreWorkflow)
    ensures
        res == workflow_of(*refund),
{
    RefundCoreWorkflow {
        refund_id: refund.id.clone(),
        connector_transaction_id: refund.connector_transaction_id.clone(),
        merchant_id: refund.merchant_id.clone(),
        payment_id: refund.payment_id.clone(),
        processor_transaction_data: clone_optional(&refund.processor_transaction_data),
    }
}

/// A new task for a refund.
pub struct RefundTask {
    pub id: String,
    pub name: String,
    pub runner: String,
    pub tag: Vec<String>,
    pub tracking_data: RefundCoreWorkflow,
    pub schedule_time: time::PrimitiveDateTime,
}

impl RefundTask {
    /// Whether this is the task of a name for a refund.
    pub open spec fn is_for(
        self,
        name: Seq<char>,
        refund: Refund,
        runner: Seq<char>,
        schedule_time: time::PrimitiveDateTime,
    ) -> bool {
        &&& self.id@ == refund_task_id(runner, name, refund.id@)
        &&& self.name@ == name
        &&& self.runner@ == runner
        &&& crate::text::views(self.tag@) == seq!["REFUND"@]
        &&& self.tracking_data == workflow_of(refund)
        &&& self.schedule_time == schedule_time
    }
}

fn make_task(
    name: &str,
    refund: &Refund,
    runner: &str,
    schedule_time: time::PrimitiveDateTime,
) -> (res: RefundTask)
    ensures
        res.is_for(name@, *refund, runner@, schedule_time),
{
    let mut tag: Vec<String> = Vec::new();
    tag.push("REFUND".to_string());
    assert(crate::text::views(tag@) == seq!["REFUND"@]);
    RefundTask {
        id: make_task_id(runner, name, refund.id.as_str()),
        name: name.to_string(),
        runner: runner.to_string(),
        tag,
        tracking_data: refund_to_refund_core_workflow_model(refund),
        schedule_time,
    }
}

/// The task that sends a refund to the connector.
pub fn add_refund_execute_task(
    refund: &Refund,
    runner: &str,
    schedule_time: time::PrimitiveDateTime,
) -> (res: RefundTask)
    ensures
        res.is_for("EXECUTE_REFUND"@, *refund, runner@, schedule_time),
{
    make_task("EXECUTE_REFUND", refund, runner, schedule_time)
}

/// The task that asks for a refund's state.
pub fn add_refund_sync_task(
    refund: &Refund,
    runner: &str,
    schedule_time: time::PrimitiveDateTime,
) -> (res: RefundTask)
    ensures
        res.is_for("SYNC_REFUND"@, *refund, runner@, schedule_time),
{
    make_task("SYNC_REFUND", refund, runner, schedule_time)
}

/// The task that [`schedule_refund_execution`] looks for is the one that
/// [`add_refund_execute_task`] makes, and is not the one that [`add_refund_sync_task`] makes.
pub proof fn law_execute_task_is_found(
    runner: Seq<char>,
    refund: Refund,
    execute: RefundTask,
    sync: RefundTask,
    execute_time: time::PrimitiveDateTime,
    sync_time: time::PrimitiveDateTime,
)
    requires
        execute.is_for("EXECUTE_REFUND"@, refund, runner, execute_time),
        sync.is_for("SYNC_REFUND"@, refund, runner, sync_time),
    ensures
        execute.id@ == refund_task_id(runner, "EXECUTE_REFUND"@, refund.id@),
        sync.id@ != execute.id@,
{
    reveal_strlit("EXECUTE_REFUND");
    reveal_strlit("SYNC_REFUND");
    reveal_strlit("_");
    assert(execute.id@.len() != sync.id@.len());
}

} // verus!

//! Webhooks of Checkout.
use vstd::prelude::*;
use crate::checkout::payments::{Balances, CheckoutPaymentStatus, Links, PaymentsResponse};
use crate::checkout::refunds::RefundResponse;
use crate::enums::MinorUnit;
use crate::errors::ConnectorError;
use crate::webhooks::{IncomingWebhookEvent, WebhookFlow};

verus! {

/// What Checkout reports.
#[derive(Clone, Copy, Debug, PartialEq, Eq, Structural)]
pub enum CheckoutWebhookEventType {
    AuthenticationStarted,
    AuthenticationApproved,
    AuthenticationAttempted,
    AuthenticationExpired,
    AuthenticationFailed,
    PaymentApproved,
    PaymentCaptured,
    PaymentDeclined,
    PaymentRefunded,
    PaymentRefundDeclined,
    PaymentAuthenticationFailed,
    PaymentCanceled,
    PaymentCaptureDeclined,
    PaymentVoided,
    DisputeReceived,
    DisputeExpired,
    DisputeAccepted,
    DisputeCanceled,
    DisputeEvidenceSubmitted,
    DisputeEvidenceAcknowledgedByScheme,
    DisputeEvidenceRequired,
    DisputeArbitrationLost,
    DisputeArbitrationWon,
    DisputeWon,
    DisputeLost,
    Unknown,
}

/// Whether a report is about a refund.
pub open spec fn about_refund(event: CheckoutWebhookEventType) -> bool {
    event is PaymentRefunded || event is PaymentRefundDeclined
}

/// Whether a report is about a dispute.
pub open spec fn about_dispute(event: CheckoutWebhookEventType) -> bool {
    match event {
        CheckoutWebhookEventType::DisputeReceived
        | CheckoutWebhookEventType::DisputeExpired
        | CheckoutWebhookEventType::DisputeAccepted
        | CheckoutWebhookEventType::DisputeCanceled
        | CheckoutWebhookEventType::DisputeEvidenceSubmitted
        | CheckoutWebhookEventType::DisputeEvidenceAcknowledgedByScheme
        | CheckoutWebhookEventType::DisputeEvidenceRequired
        | CheckoutWebhookEventType::DisputeArbitrationLost
        | CheckoutWebhookEventType::DisputeArbitrationWon
        | CheckoutWebhookEventType::DisputeWon
        | CheckoutWebhookEventType::DisputeLost => true,
        _ => false,
    }
}

/// Whether a report is about a refund.
pub fn is_refund_event(event_code: &CheckoutWebhookEventType) -> (res: bool)
    ensures
        res == about_refund(*event_code),
{
    match event_code {
        CheckoutWebhookEventType::PaymentRefunded
        | CheckoutWebhookEventType::PaymentRefundDeclined => true,
        _ => false,
    }
}

/// Whether a report is about a dispute.
pub fn is_chargeback_event(event_code: &CheckoutWebhookEventType) -> (res: bool)
    ensures
        res == about_dispute(*event_code),
{
    match event_code {
        CheckoutWebhookEventType::DisputeReceived
        | CheckoutWebhookEventType::DisputeExpired
        | CheckoutWebhookEventType::DisputeAccepted
        | CheckoutWebhookEventType::DisputeCanceled
        | CheckoutWebhookEventType::DisputeEvidenceSubmitted
        | CheckoutWebhookEventType::DisputeEvidenceAcknowledgedByScheme
        | CheckoutWebhookEventType::DisputeEvidenceRequired
        | CheckoutWebhookEventType::DisputeArbitrationLost
        | CheckoutWebhookEventType::DisputeArbitrationWon
        | CheckoutWebhookEventType::DisputeWon
        | CheckoutWebhookEventType::DisputeLost => true,
        _ => false,
    }
}

/// Where a payment stands after a report, where the report is about a payment.
pub open spec fn reported_status(value: CheckoutWebhookEventType) -> Result<
    CheckoutPaymentStatus,
    ConnectorError,
> {
    match value {
        CheckoutWebhookEventType::PaymentApproved => Ok(CheckoutPaymentStatus::Authorized),
        CheckoutWebhookEventType::PaymentCaptured => Ok(CheckoutPaymentStatus::Captured),
        CheckoutWebhookEventType::PaymentDeclined
        | CheckoutWebhookEventType::AuthenticationExpired
        | CheckoutWebhookEventType::AuthenticationFailed
        | CheckoutWebhookEventType::PaymentAuthenticationFailed
        | CheckoutWebhookEventType::PaymentCaptureDeclined => Ok(CheckoutPaymentStatus::Declined),
        CheckoutWebhookEventType::AuthenticationStarted
        | CheckoutWebhookEventType::AuthenticationApproved
        | CheckoutWebhookEventType::AuthenticationAttempted => Ok(CheckoutPaymentStatus::Pending),
        CheckoutWebhookEventType::PaymentCanceled => Ok(CheckoutPaymentStatus::Canceled),
        CheckoutWebhookEventType::PaymentVoided => Ok(CheckoutPaymentStatus::Voided),
        _ => Err(ConnectorError::WebhookEventTypeNotFound),
    }
}

impl TryFrom<CheckoutWebhookEventType> for CheckoutPaymentStatus {
    type Error = ConnectorError;

    fn try_from(value: CheckoutWebhookEventType) -> (res: Result<Self, ConnectorError>) {
        match value {
            CheckoutWebhookEventType::PaymentApproved => Ok(CheckoutPaymentStatus::Authorized),
            CheckoutWebhookEventType::PaymentCaptured => Ok(CheckoutPaymentStatus::Captured),
            CheckoutWebhookEventType::PaymentDeclined => Ok(CheckoutPaymentStatus::Declined),
            CheckoutWebhookEventType::AuthenticationStarted
            | CheckoutWebhookEventType::AuthenticationApproved
            | CheckoutWebhookEventType::AuthenticationAttempted => Ok(
                CheckoutPaymentStatus::Pending,
            ),
            CheckoutWebhookEventType::AuthenticationExpired
            | CheckoutWebhookEventType::AuthenticationFailed
            | CheckoutWebhookEventType::PaymentAuthenticationFailed
            | CheckoutWebhookEventType::PaymentCaptureDeclined => Ok(
                CheckoutPaymentStatus::Declined,
            ),
            CheckoutWebhookEventType::PaymentCanceled => Ok(CheckoutPaymentStatus::Canceled),
            CheckoutWebhookEventType::PaymentVoided => Ok(CheckoutPaymentStatus::Voided),
            CheckoutWebhookEventType::PaymentRefunded
            | CheckoutWebhookEventType::PaymentRefundDeclined
            | CheckoutWebhookEventType::DisputeReceived
            | CheckoutWebhookEventType::DisputeExpired
            | CheckoutWebhookEventType::DisputeAccepted
            | CheckoutWebhookEventType::DisputeCanceled
            | CheckoutWebhookEventType::DisputeEvidenceSubmitted
            | CheckoutWebhookEventType::DisputeEvidenceAcknowledgedByScheme
            | CheckoutWebhookEventType::DisputeEvidenceRequired
            | CheckoutWebhookEventType::DisputeArbitrationLost
            | CheckoutWebhookEventType::DisputeArbitrationWon
            | CheckoutWebhookEventType::DisputeWon
            | CheckoutWebhookEventType::DisputeLost
            | CheckoutWebhookEventType::Unknown => Err(ConnectorError::WebhookEventTypeNotFound),
        }
    }
}

impl vstd::std_specs::convert::TryFromSpecImpl<CheckoutWebhookEventType> for CheckoutPaymentStatus {
    open spec fn obeys_try_from_spec() -> bool {
        true
    }

    open spec fn try_from_spec(value: CheckoutWebhookEventType) -> Result<Self, ConnectorError> {
        reported_status(value)
    }
}

/// A report in the terms of the switch.
pub open spec fn incoming_event(transaction_type: CheckoutWebhookEventType) -> IncomingWebhookEvent {
    match transaction_type {
        CheckoutWebhookEventType::AuthenticationStarted
        | CheckoutWebhookEventType::AuthenticationApproved
        | CheckoutWebhookEventType::AuthenticationAttempted
        | CheckoutWebhookEventType::PaymentApproved
        | CheckoutWebhookEventType::Unknown => IncomingWebhookEvent::EventNotSupported,
        CheckoutWebhookEventType::AuthenticationExpired
        | CheckoutWebhookEventType::AuthenticationFailed
        | CheckoutWebhookEventType::PaymentAuthenticationFailed =>
        IncomingWebhookEvent::PaymentIntentAuthorizationFailure,
        CheckoutWebhookEventType::PaymentCaptured => IncomingWebhookEvent::PaymentIntentSuccess,
        CheckoutWebhookEventType::PaymentDeclined => IncomingWebhookEvent::PaymentIntentFailure,
        CheckoutWebhookEventType::PaymentRefunded => IncomingWebhookEvent::RefundSuccess,
        CheckoutWebhookEventType::PaymentRefundDeclined => IncomingWebhookEvent::RefundFailure,
        CheckoutWebhookEventType::PaymentCanceled =>
        IncomingWebhookEvent::PaymentIntentCancelFailure,
        CheckoutWebhookEventType::PaymentCaptureDeclined =>
        IncomingWebhookEvent::PaymentIntentCaptureFailure,
        CheckoutWebhookEventType::PaymentVoided => IncomingWebhookEvent::PaymentIntentCancelled,
        CheckoutWebhookEventType::DisputeReceived
        | CheckoutWebhookEventType::DisputeEvidenceRequired => IncomingWebhookEvent::DisputeOpened,
        CheckoutWebhookEventType::DisputeExpired => IncomingWebhookEvent::DisputeExpired,
        CheckoutWebhookEventType::DisputeAccepted => IncomingWebhookEvent::DisputeAccepted,
        CheckoutWebhookEventType::DisputeCanceled => IncomingWebhookEvent::DisputeCancelled,
        CheckoutWebhookEventType::DisputeEvidenceSubmitted
        | CheckoutWebhookEventType::DisputeEvidenceAcknowledgedByScheme =>
        IncomingWebhookEvent::DisputeChallenged,
        CheckoutWebhookEventType::DisputeWon
        | CheckoutWebhookEventType::DisputeArbitrationWon => IncomingWebhookEvent::DisputeWon,
        CheckoutWebhookEventType::DisputeLost
        | CheckoutWebhookEventType::DisputeArbitrationLost => IncomingWebhookEvent::DisputeLost,
    }
}

impl From<CheckoutWebhookEventType> for IncomingWebhookEvent {
    fn from(transaction_type: CheckoutWebhookEventType) -> (res: Self) {
        match transaction_type {
            CheckoutWebhookEventType::AuthenticationStarted
            | CheckoutWebhookEventType::AuthenticationApproved
            | CheckoutWebhookEventType::AuthenticationAttempted => Self::EventNotSupported,
            CheckoutWebhookEventType::AuthenticationExpired
            | CheckoutWebhookEventType::AuthenticationFailed
            | CheckoutWebhookEventType::PaymentAuthenticationFailed => {
                Self::PaymentIntentAuthorizationFailure
            },
            CheckoutWebhookEventType::PaymentApproved => Self::EventNotSupported,
            CheckoutWebhookEventType::PaymentCaptured => Self::PaymentIntentSuccess,
            CheckoutWebhookEventType::PaymentDeclined => Self::PaymentIntentFailure,
            CheckoutWebhookEventType::PaymentRefunded => Self::RefundSuccess,
            CheckoutWebhookEventType::PaymentRefundDeclined => Self::RefundFailure,
            CheckoutWebhookEventType::PaymentCanceled => Self::PaymentIntentCancelFailure,
            CheckoutWebhookEventType::PaymentCaptureDeclined => Self::PaymentIntentCaptureFailure,
            CheckoutWebhookEventType::PaymentVoided => Self::PaymentIntentCancelled,
            CheckoutWebhookEventType::DisputeReceived
            | CheckoutWebhookEventType::DisputeEvidenceRequired => Self::DisputeOpened,
            CheckoutWebhookEventType::DisputeExpired => Self::DisputeExpired,
            CheckoutWebhookEventType::DisputeAccepted => Self::DisputeAccepted,
            CheckoutWebhookEventType::DisputeCanceled => Self::DisputeCancelled,
            CheckoutWebhookEventType::DisputeEvidenceSubmitted
            | CheckoutWebhookEventType::DisputeEvidenceAcknowledgedByScheme => {
                Self::DisputeChallenged
            },
            CheckoutWebhookEventType::DisputeWon
            | CheckoutWebhookEventType::DisputeArbitrationWon => Self::DisputeWon,
            CheckoutWebhookEventType::DisputeLost
            | CheckoutWebhookEventType::DisputeArbitrationLost => Self::DisputeLost,
            CheckoutWebhookEventType::Unknown => Self::EventNotSupported,
        }
    }
}

impl vstd::std_specs::convert::FromSpecImpl<CheckoutWebhookEventType> for IncomingWebhookEvent {
    open spec fn obeys_from_spec() -> bool {
        true
    }

    open spec fn from_spec(transaction_type: CheckoutWebhookEventType) -> Self {
        incoming_event(transaction_type)
    }
}

/// Reports about refunds, and no others, go to the refunds.
pub proof fn law_refund_reports_go_to_refunds(event: CheckoutWebhookEventType)
    ensures
        about_refund(event) <==> crate::webhooks::flow_of(incoming_event(event))
            == WebhookFlow::Refund,
{
}

/// Reports about disputes, and no others, go to the disputes.
pub proof fn law_dispute_reports_go_to_disputes(event: CheckoutWebhookEventType)
    ensures
        about_dispute(event) <==> crate::webhooks::flow_of(incoming_event(event))
            == WebhookFlow::Dispute,
{
}

/// A report tells where a payment stands unless it is about a refund or a dispute, or
/// unknown.
pub proof fn law_payment_reports_tell_a_status(event: CheckoutWebhookEventType)
    ensures
        reported_status(event) is Ok <==> !about_refund(event) && !about_dispute(event)
            && event !is Unknown,
        crate::webhooks::flow_of(incoming_event(event)) == WebhookFlow::Payment
            ==> reported_status(event) is Ok,
{
}

/// A report of a failed payment, authorization or capture leaves the payment declined when
/// it is read as the state of the payment.
pub proof fn law_declined_payments_fail(event: CheckoutWebhookEventType)
    requires
        incoming_event(event) is PaymentIntentFailure
            || incoming_event(event) is PaymentIntentAuthorizationFailure
            || incoming_event(event) is PaymentIntentCaptureFailure,
    ensures
        reported_status(event) == Ok::<CheckoutPaymentStatus, ConnectorError>(
            CheckoutPaymentStatus::Declined,
        ),
{
}

/// The kind of a report.
#[derive(Debug, PartialEq, Eq)]
pub struct CheckoutWebhookEventTypeBody {
    pub transaction_type: CheckoutWebhookEventType,
}

/// What a report is about.
#[derive(Debug, PartialEq, Eq)]
pub struct CheckoutWebhookData {
    pub id: String,
    pub payment_id: Option<String>,
    pub action_id: Option<String>,
    pub reference: Option<String>,
    pub amount: MinorUnit,
    pub balances: Option<Balances>,
    pub response_code: Option<String>,
    pub response_summary: Option<String>,
    pub currency: String,
    pub processed_on: Option<String>,
    pub approved: Option<bool>,
}

/// A report.
#[derive(Debug, PartialEq, Eq)]
pub struct CheckoutWebhookBody {
    pub transaction_type: CheckoutWebhookEventType,
    pub data: CheckoutWebhookData,
    pub links: Links,
}

/// The object that a report carries.
pub struct CheckoutWebhookObjectResource {
    pub data: serde_json::Value,
}

/// A payment as a report tells it. Nothing is told where the report could not be decoded.
pub open spec fn reported_payment(details: Option<CheckoutWebhookBody>) -> Result<
    PaymentsResponse,
    ConnectorError,
> {
    match details {
        None => Err(ConnectorError::WebhookBodyDecodingFailed),
        Some(body) => match reported_status(body.transaction_type) {
            Err(error) => Err(error),
            Ok(status) => Ok(
                PaymentsResponse {
                    id: match body.data.payment_id {
                        Some(id) => id,
                        None => body.data.id,
                    },
                    amount: Some(body.data.amount),
                    status,
                    links: body.links,
                    balances: body.data.balances,
                    reference: body.data.reference,
                    response_code: body.data.response_code,
                    response_summary: body.data.response_summary,
                    action_id: body.data.action_id,
                    currency: Some(body.data.currency),
                    processed_on: body.data.processed_on,
                    approved: body.data.approved,
                },
            ),
        },
    }
}

impl TryFrom<Option<CheckoutWebhookBody>> for PaymentsResponse {
    type Error = ConnectorError;

    fn try_from(details: Option<CheckoutWebhookBody>) -> (res: Result<Self, ConnectorError>) {
        let body = match details {
            Some(body) => body,
            None => {
                return Err(ConnectorError::WebhookBodyDecodingFailed);
            },
        };
        let data = body.data;
        let id = match data.payment_id {
            Some(id) => id,
            None => data.id,
        };
        let status = match CheckoutPaymentStatus::try_from(body.transaction_type) {
            Ok(status) => status,
            Err(error) => {
                return Err(error);
            },
        };
        Ok(
            PaymentsResponse {
                id,
                amount: Some(data.amount),
                status,
                links: body.links,
                balances: data.balances,
                reference: data.reference,
                response_code: data.response_code,
                response_summary: data.response_summary,
                action_id: data.action_id,
                currency: Some(data.currency),
                processed_on: data.processed_on,
                approved: data.approved,
            },
        )
    }
}

impl vstd::std_specs::convert::TryFromSpecImpl<Option<CheckoutWebhookBody>> for PaymentsResponse {
    open spec fn obeys_try_from_spec() -> bool {
        true
    }

    open spec fn try_from_spec(details: Option<CheckoutWebhookBody>) -> Result<Self, ConnectorError> {
        reported_payment(details)
    }
}

/// A refund as a report tells it. Nothing is told where the report could not be decoded,
/// or lacks an id or a reference.
pub open spec fn reported_refund(details: Option<CheckoutWebhookBody>) -> Result<
    RefundResponse,
    ConnectorError,
> {
    match details {
        None => Err(ConnectorError::WebhookBodyDecodingFailed),
        Some(body) => match (body.data.action_id, body.data.reference) {
            (Some(action_id), Some(reference)) => Ok(RefundResponse { action_id, reference }),
            _ => Err(ConnectorError::WebhookBodyDecodingFailed),
        },
    }
}

impl TryFrom<Option<CheckoutWebhookBody>> for RefundResponse {
    type Error = ConnectorError;

    fn try_from(details: Option<CheckoutWebhookBody>) -> (res: Result<Self, ConnectorError>) {
        let data = match details {
            Some(body) => body.data,
            None => {
                return Err(ConnectorError::WebhookBodyDecodingFailed);
            },
        };
        match data.action_id {
            None => Err(ConnectorError::WebhookBodyDecodingFailed),
            Some(action_id) => match data.reference {
                None => Err(ConnectorError::WebhookBodyDecodingFailed),
                Some(reference) => Ok(RefundResponse { action_id, reference }),
            },
        }
    }
}

impl vstd::std_specs::convert::TryFromSpecImpl<Option<CheckoutWebhookBody>> for RefundResponse {
    open spec fn obeys_try_from_spec() -> bool {
        true
    }

    open spec fn try_from_spec(details: Option<CheckoutWebhookBody>) -> Result<Self, ConnectorError> {
        reported_refund(details)
    }
}

} // verus!

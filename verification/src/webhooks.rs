//! Webhooks: what connectors report, and what is reported to merchants.
use vstd::prelude::*;
use crate::enums::{IntentStatus, RefundStatus};
use crate::secret::Secret;

verus! {

/// What a connector reports.
#[derive(Clone, Copy, Debug, PartialEq, Eq, Hash, Structural)]
pub enum IncomingWebhookEvent {
    PaymentIntentFailure,
    PaymentIntentSuccess,
    PaymentIntentProcessing,
    PaymentIntentPartiallyFunded,
    PaymentIntentCancelled,
    PaymentIntentCancelFailure,
    PaymentIntentAuthorizationSuccess,
    PaymentIntentAuthorizationFailure,
    PaymentIntentCaptureSuccess,
    PaymentIntentCaptureFailure,
    PaymentIntentExpired,
    PaymentActionRequired,
    EventNotSupported,
    SourceChargeable,
    SourceTransactionCreated,
    RefundFailure,
    RefundSuccess,
    DisputeOpened,
    DisputeExpired,
    DisputeAccepted,
    DisputeCancelled,
    DisputeChallenged,
    /// The merchant challenged the dispute with success.
    DisputeWon,
    /// The merchant challenged the dispute without success.
    DisputeLost,
    MandateActive,
    MandateRevoked,
    EndpointVerification,
    ExternalAuthenticationARes,
    FrmApproved,
    FrmRejected,
    PayoutSuccess,
    PayoutFailure,
    PayoutProcessing,
    PayoutCancelled,
    PayoutCreated,
    PayoutExpired,
    PayoutReversed,
    RecoveryPaymentFailure,
    RecoveryPaymentSuccess,
    RecoveryPaymentPending,
    RecoveryInvoiceCancel,
}

/// The part of the switch that a report goes to.
#[derive(Clone, Copy, Debug, PartialEq, Eq, Structural)]
pub enum WebhookFlow {
    Payment,
    Payout,
    Refund,
    Dispute,
    Subscription,
    ReturnResponse,
    BankTransfer,
    Mandate,
    ExternalAuthentication,
    FraudCheck,
    Recovery,
}

/// The part of the switch that a report goes to.
pub open spec fn flow_of(event: IncomingWebhookEvent) -> WebhookFlow {
    match event {
        IncomingWebhookEvent::PaymentIntentFailure
        | IncomingWebhookEvent::PaymentIntentSuccess
        | IncomingWebhookEvent::PaymentIntentProcessing
        | IncomingWebhookEvent::PaymentActionRequired
        | IncomingWebhookEvent::PaymentIntentPartiallyFunded
        | IncomingWebhookEvent::PaymentIntentCancelled
        | IncomingWebhookEvent::PaymentIntentCancelFailure
        | IncomingWebhookEvent::PaymentIntentAuthorizationSuccess
        | IncomingWebhookEvent::PaymentIntentAuthorizationFailure
        | IncomingWebhookEvent::PaymentIntentCaptureSuccess
        | IncomingWebhookEvent::PaymentIntentCaptureFailure
        | IncomingWebhookEvent::PaymentIntentExpired => WebhookFlow::Payment,
        IncomingWebhookEvent::EventNotSupported
        | IncomingWebhookEvent::EndpointVerification => WebhookFlow::ReturnResponse,
        IncomingWebhookEvent::RefundSuccess
        | IncomingWebhookEvent::RefundFailure => WebhookFlow::Refund,
        IncomingWebhookEvent::MandateActive
        | IncomingWebhookEvent::MandateRevoked => WebhookFlow::Mandate,
        IncomingWebhookEvent::DisputeOpened
        | IncomingWebhookEvent::DisputeAccepted
        | IncomingWebhookEvent::DisputeExpired
        | IncomingWebhookEvent::DisputeCancelled
        | IncomingWebhookEvent::DisputeChallenged
        | IncomingWebhookEvent::DisputeWon
        | IncomingWebhookEvent::DisputeLost => WebhookFlow::Dispute,
        IncomingWebhookEvent::SourceChargeable
        | IncomingWebhookEvent::SourceTransactionCreated => WebhookFlow::BankTransfer,
        IncomingWebhookEvent::ExternalAuthenticationARes => WebhookFlow::ExternalAuthentication,
        IncomingWebhookEvent::FrmApproved
        | IncomingWebhookEvent::FrmRejected => WebhookFlow::FraudCheck,
        IncomingWebhookEvent::PayoutSuccess
        | IncomingWebhookEvent::PayoutFailure
        | IncomingWebhookEvent::PayoutProcessing
        | IncomingWebhookEvent::PayoutCancelled
        | IncomingWebhookEvent::PayoutCreated
        | IncomingWebhookEvent::PayoutExpired
        | IncomingWebhookEvent::PayoutReversed => WebhookFlow::Payout,
        IncomingWebhookEvent::RecoveryInvoiceCancel
        | IncomingWebhookEvent::RecoveryPaymentFailure
        | IncomingWebhookEvent::RecoveryPaymentPending
        | IncomingWebhookEvent::RecoveryPaymentSuccess => WebhookFlow::Recovery,
    }
}

impl From<IncomingWebhookEvent> for WebhookFlow {
    fn from(evt: IncomingWebhookEvent) -> (res: Self) {
        match evt {
            IncomingWebhookEvent::PaymentIntentFailure
            | IncomingWebhookEvent::PaymentIntentSuccess
            | IncomingWebhookEvent::PaymentIntentProcessing
            | IncomingWebhookEvent::PaymentActionRequired
            | IncomingWebhookEvent::PaymentIntentPartiallyFunded
            | IncomingWebhookEvent::PaymentIntentCancelled
            | IncomingWebhookEvent::PaymentIntentCancelFailure
            | IncomingWebhookEvent::PaymentIntentAuthorizationSuccess
            | IncomingWebhookEvent::PaymentIntentAuthorizationFailure
            | IncomingWebhookEvent::PaymentIntentCaptureSuccess
            | IncomingWebhookEvent::PaymentIntentCaptureFailure
            | IncomingWebhookEvent::PaymentIntentExpired => Self::Payment,
            IncomingWebhookEvent::EventNotSupported => Self::ReturnResponse,
            IncomingWebhookEvent::RefundSuccess | IncomingWebhookEvent::RefundFailure => {
                Self::Refund
            },
            IncomingWebhookEvent::MandateActive | IncomingWebhookEvent::MandateRevoked => {
                Self::Mandate
            },
            IncomingWebhookEvent::DisputeOpened
            | IncomingWebhookEvent::DisputeAccepted
            | IncomingWebhookEvent::DisputeExpired
            | IncomingWebhookEvent::DisputeCancelled
            | IncomingWebhookEvent::DisputeChallenged
            | IncomingWebhookEvent::DisputeWon
            | IncomingWebhookEvent::DisputeLost => Self::Dispute,
            IncomingWebhookEvent::EndpointVerification => Self::ReturnResponse,
            IncomingWebhookEvent::SourceChargeable
            | IncomingWebhookEvent::SourceTransactionCreated => Self::BankTransfer,
            IncomingWebhookEvent::ExternalAuthenticationARes => Self::ExternalAuthentication,
            IncomingWebhookEvent::FrmApproved | IncomingWebhookEvent::FrmRejected => {
                Self::FraudCheck
            },
            IncomingWebhookEvent::PayoutSuccess
            | IncomingWebhookEvent::PayoutFailure
            | IncomingWebhookEvent::PayoutProcessing
            | IncomingWebhookEvent::PayoutCancelled
            | IncomingWebhookEvent::PayoutCreated
            | IncomingWebhookEvent::PayoutExpired
            | IncomingWebhookEvent::PayoutReversed => Self::Payout,
            IncomingWebhookEvent::RecoveryInvoiceCancel
            | IncomingWebhookEvent::RecoveryPaymentFailure
            | IncomingWebhookEvent::RecoveryPaymentPending
            | IncomingWebhookEvent::RecoveryPaymentSuccess => Self::Recovery,
        }
    }
}

impl vstd::std_specs::convert::FromSpecImpl<IncomingWebhookEvent> for WebhookFlow {
    open spec fn obeys_from_spec() -> bool {
        true
    }

    open spec fn from_spec(evt: IncomingWebhookEvent) -> Self {
        flow_of(evt)
    }
}

/// Whether a report tells of a transaction of a recovered payment.
pub open spec fn is_recovery_transaction(event: IncomingWebhookEvent) -> bool {
    ||| event is RecoveryPaymentFailure
    ||| event is RecoveryPaymentSuccess
    ||| event is RecoveryPaymentPending
}

impl IncomingWebhookEvent {
    /// Whether the report tells of a transaction of a recovered payment.
    pub fn is_recovery_transaction_event(&self) -> (res: bool)
        ensures
            res == is_recovery_transaction(*self),
    {
        match self {
            IncomingWebhookEvent::RecoveryPaymentFailure
            | IncomingWebhookEvent::RecoveryPaymentSuccess
            | IncomingWebhookEvent::RecoveryPaymentPending => true,
            _ => false,
        }
    }
}

/// Reports of recovered payments go to the recovery, where all but the cancelled invoice
/// tell of a transaction.
pub proof fn law_recovery_transactions(event: IncomingWebhookEvent)
    ensures
        is_recovery_transaction(event) <==> flow_of(event) is Recovery
            && event !is RecoveryInvoiceCancel,
{
}

/// What a webhook changed. A status is given by its name where the switch only passes it
/// on.
#[allow(inconsistent_fields)]
#[derive(Debug, PartialEq, Eq)]
pub enum WebhookResponseTracker {
    Payment { payment_id: String, status: IntentStatus },
    Payout { payout_id: String, status: String },
    Refund { payment_id: String, refund_id: String, status: RefundStatus },
    Dispute { dispute_id: String, payment_id: String, status: String },
    Mandate { mandate_id: String, status: String },
    PaymentMethod { payment_method_id: String, status: String },
    NoEffect,
    Relay { relay_id: String, status: String },
}

impl WebhookResponseTracker {
    /// The payment that was changed, or that the changed refund or dispute belongs to.
    pub fn get_payment_id(&self) -> (res: Option<String>)
        ensures
            res == (match *self {
                WebhookResponseTracker::Payment { payment_id, .. } => Some(payment_id),
                WebhookResponseTracker::Refund { payment_id, .. } => Some(payment_id),
                WebhookResponseTracker::Dispute { payment_id, .. } => Some(payment_id),
                _ => None,
            }),
    {
        match self {
            WebhookResponseTracker::Payment { payment_id, .. }
            | WebhookResponseTracker::Refund { payment_id, .. }
            | WebhookResponseTracker::Dispute { payment_id, .. } => Some(payment_id.clone()),
            WebhookResponseTracker::NoEffect
            | WebhookResponseTracker::Mandate { .. }
            | WebhookResponseTracker::PaymentMethod { .. }
            | WebhookResponseTracker::Payout { .. }
            | WebhookResponseTracker::Relay { .. } => None,
        }
    }

    /// The payment method that was changed.
    pub fn get_payment_method_id(&self) -> (res: Option<String>)
        ensures
            res == (match *self {
                WebhookResponseTracker::PaymentMethod { payment_method_id, .. } => Some(
                    payment_method_id,
                ),
                _ => None,
            }),
    {
        match self {
            WebhookResponseTracker::PaymentMethod { payment_method_id, .. } => Some(
                payment_method_id.clone(),
            ),
            WebhookResponseTracker::Payment { .. }
            | WebhookResponseTracker::Refund { .. }
            | WebhookResponseTracker::Dispute { .. }
            | WebhookResponseTracker::NoEffect
            | WebhookResponseTracker::Mandate { .. }
            | WebhookResponseTracker::Relay { .. }
            | WebhookResponseTracker::Payout { .. } => None,
        }
    }
}

/// The reports that a merchant wants to get.
pub type MerchantWebhookConfig = std::collections::HashSet<IncomingWebhookEvent>;

/// The id of a payment.
#[derive(Clone, Debug, PartialEq, Eq)]
pub enum PaymentIdType {
    PaymentIntentId(String),
    ConnectorTransactionId(String),
    PaymentAttemptId(String),
    PreprocessingId(String),
}

/// The id of a refund.
#[derive(Clone, Debug, PartialEq, Eq)]
pub enum RefundIdType {
    RefundId(String),
    ConnectorRefundId(String),
}

/// The id of a mandate.
#[derive(Clone, Debug, PartialEq, Eq)]
pub enum MandateIdType {
    MandateId(String),
    ConnectorMandateId(String),
}

/// The id of an authentication.
#[derive(Clone, Debug, PartialEq, Eq)]
pub enum AuthenticationIdType {
    AuthenticationId(String),
    ConnectorAuthenticationId(String),
}

/// The id of a payout.
#[derive(Clone, Debug, PartialEq, Eq)]
pub enum PayoutIdType {
    PayoutAttemptId(String),
    ConnectorPayoutId(String),
}

/// The id of an invoice.
#[derive(Clone, Debug, PartialEq, Eq)]
pub enum InvoiceIdType {
    ConnectorInvoiceId(String),
}

/// The id of what a webhook is about.
#[derive(Clone, Debug, PartialEq, Eq)]
pub enum ObjectReferenceId {
    PaymentId(PaymentIdType),
    RefundId(RefundIdType),
    MandateId(MandateIdType),
    ExternalAuthenticationID(AuthenticationIdType),
    PayoutId(PayoutIdType),
    InvoiceId(InvoiceIdType),
}

/// A value that is not of the kind that is needed.
#[derive(Clone, Copy, Debug, PartialEq, Eq)]
pub enum ValidationError {
    IncorrectValueProvided { field_name: &'static str },
}

/// What is wrong with an id that should be the connector's id of a payment.
pub open spec fn wrong_reference(reference: ObjectReferenceId) -> ValidationError {
    ValidationError::IncorrectValueProvided {
        field_name: match reference {
            ObjectReferenceId::PaymentId(_) =>
            "ConnectorTransactionId variant of PaymentId is required but received otherr variant",
            ObjectReferenceId::RefundId(_) => "PaymentId is required but received RefundId",
            ObjectReferenceId::MandateId(_) => "PaymentId is required but received MandateId",
            ObjectReferenceId::ExternalAuthenticationID(_) =>
            "PaymentId is required but received ExternalAuthenticationID",
            ObjectReferenceId::PayoutId(_) => "PaymentId is required but received PayoutId",
            ObjectReferenceId::InvoiceId(_) => "PaymentId is required but received InvoiceId",
        },
    }
}

impl ObjectReferenceId {
    /// The connector's id of a payment.
    pub fn get_connector_transaction_id_as_string(self) -> (res: Result<String, ValidationError>)
        ensures
            match self {
                ObjectReferenceId::PaymentId(PaymentIdType::ConnectorTransactionId(id)) => res
                    == Ok::<String, ValidationError>(id),
                _ => res == Err::<String, ValidationError>(wrong_reference(self)),
            },
    {
        match self {
            ObjectReferenceId::PaymentId(PaymentIdType::ConnectorTransactionId(id)) => Ok(id),
            ObjectReferenceId::PaymentId(_) => Err(
                ValidationError::IncorrectValueProvided {
                    field_name: "ConnectorTransactionId variant of PaymentId is required but received otherr variant",
                },
            ),
            ObjectReferenceId::RefundId(_) => Err(
                ValidationError::IncorrectValueProvided {
                    field_name: "PaymentId is required but received RefundId",
                },
            ),
            ObjectReferenceId::MandateId(_) => Err(
                ValidationError::IncorrectValueProvided {
                    field_name: "PaymentId is required but received MandateId",
                },
            ),
            ObjectReferenceId::ExternalAuthenticationID(_) => Err(
                ValidationError::IncorrectValueProvided {
                    field_name: "PaymentId is required but received ExternalAuthenticationID",
                },
            ),
            ObjectReferenceId::PayoutId(_) => Err(
                ValidationError::IncorrectValueProvided {
                    field_name: "PaymentId is required but received PayoutId",
                },
            ),
            ObjectReferenceId::InvoiceId(_) => Err(
                ValidationError::IncorrectValueProvided {
                    field_name: "PaymentId is required but received InvoiceId",
                },
            ),
        }
    }
}

/// A webhook as it came in.
pub struct IncomingWebhookDetails {
    pub object_reference_id: ObjectReferenceId,
    pub resource_object: Vec<u8>,
}

/// What a merchant is told.
pub struct OutgoingWebhook {
    pub merchant_id: String,
    pub event_id: String,
    /// The kind of the event, by its name.
    pub event_type: String,
    pub content: OutgoingWebhookContent,
    pub timestamp: time::PrimitiveDateTime,
}

/// What a merchant is told about, in the form in which it is sent.
pub enum OutgoingWebhookContent {
    PaymentDetails(Box<serde_json::Value>),
    RefundDetails(Box<serde_json::Value>),
    DisputeDetails(Box<serde_json::Value>),
    MandateDetails(Box<serde_json::Value>),
    PayoutDetails(Box<serde_json::Value>),
}

/// The secrets that a connector signs its webhooks with.
pub struct ConnectorWebhookSecrets {
    pub secret: Vec<u8>,
    pub additional_secret: Option<Secret<String>>,
}

} // verus!

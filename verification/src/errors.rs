//! Errors that the library reports.
use vstd::prelude::*;

verus! {

/// What a connector does not offer.
#[derive(Clone, Copy, Debug, PartialEq, Eq)]
pub enum Unimplemented {
    /// The payment method that the customer selected.
    SelectedPaymentMethod { connector: &'static str },
    /// A payment method, in one of its flows where one is named.
    PaymentMethod {
        payment_method: &'static str,
        flow: Option<&'static str>,
        connector: &'static str,
    },
    /// Something else, by its name.
    Feature(&'static str),
}

/// Why a connector request could not be built, or its response not be used.
#[derive(Clone, Copy, Debug, PartialEq, Eq)]
pub enum ConnectorError {
    FailedToObtainAuthType,
    NotImplemented(Unimplemented),
    NotSupported { message: &'static str, connector: &'static str },
    MissingRequiredField { field_name: &'static str },
    WebhookEventTypeNotFound,
    WebhookBodyDecodingFailed,
    CaptureMethodNotSupported,
    RequestEncodingFailed,
    ResponseHandlingFailed,
    ResponseDeserializationFailed,
    MissingConnectorRefundID,
    MissingConnectorTransactionID,
    MissingConnectorRelatedTransactionID { id: &'static str },
    MissingConnectorRedirectionPayload { field_name: &'static str },
    InvalidWalletToken { wallet_name: &'static str },
    InvalidDataFormat { field_name: &'static str },
    ProcessingStepFailed,
}

/// A value that a request must carry: the value, or the error that its absence or
/// its shape raises.
pub type Required<T> = Result<T, ConnectorError>;

/// The error of a result, where it is one.
pub open spec fn error_of<T>(result: Result<T, ConnectorError>) -> Option<ConnectorError> {
    match result {
        Ok(_) => None,
        Err(error) => Some(error),
    }
}

/// An error where a value is absent.
pub open spec fn missing<T>(value: Option<T>, error: ConnectorError) -> Option<ConnectorError> {
    match value {
        Some(_) => None,
        None => Some(error),
    }
}

/// The first of two errors, in the order in which they are met.
pub open spec fn first_of(
    first: Option<ConnectorError>,
    second: Option<ConnectorError>,
) -> Option<ConnectorError> {
    match first {
        Some(error) => Some(error),
        None => second,
    }
}

/// Why a request to the switch cannot be served.
#[derive(Debug, PartialEq, Eq)]
pub enum ApiErrorResponse {
    InternalServerError,
    MissingTenantId,
    InvalidTenant { tenant_id: String },
    InvalidRequestData { message: String },
    GenericDuplicateError { message: String },
    UnprocessableEntity { message: String },
    PaymentNotFound,
    PaymentUnexpectedState {
        current_flow: String,
        field_name: String,
        current_value: String,
        states: String,
    },
    InvalidDataFormat { field_name: String, expected_format: String },
    RefundAmountExceedsPaymentAmount,
    MaximumRefundCount,
    DuplicateRefundRequest,
    RefundNotFound,
}

} // verus!

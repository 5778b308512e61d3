//! What requests carry that bears on how they are authenticated and answered.
use vstd::prelude::*;
use crate::secret::Secret;

verus! {

/// A request that may carry the secret of a client, or ask for the connector's own answer.
pub trait Authenticate {
    /// The client secret that the request carries: none, where a request does not say otherwise.
    fn get_client_secret(&self) -> (res: Option<&String>)
        default_ensures
            res is None,
    {
        None
    }

    /// Whether the request asks for the connector's own answer: not told, where a request does
    /// not say otherwise.
    fn should_return_raw_response(&self) -> (res: Option<bool>)
        default_ensures
            res is None,
    {
        None
    }
}

/// Confirms a payment intent.
pub struct PaymentsConfirmIntentRequest {
    pub return_raw_connector_response: Option<bool>,
}

/// Creates, updates or confirms a payment.
pub struct PaymentsRequest {
    pub client_secret: Option<String>,
    pub all_keys_required: Option<bool>,
}

/// Asks for the payment methods of a merchant.
pub struct PaymentMethodListRequest {
    pub client_secret: Option<String>,
}

/// Asks for the session tokens of a payment.
pub struct PaymentsSessionRequest {
    pub client_secret: String,
}

/// Asks for the tax of a payment.
pub struct PaymentsDynamicTaxCalculationRequest {
    pub client_secret: Secret<String>,
}

/// Asks for tokens after a session was opened.
pub struct PaymentsPostSessionTokensRequest {
    pub client_secret: Secret<String>,
}

/// Asks for the state of a payment. The first version of the interface asks for the connector's
/// own answer by asking for all keys, the second one by name.
pub enum PaymentsRetrieveRequest {
    V1 { all_keys_required: Option<bool> },
    V2 { return_raw_connector_response: Option<bool> },
}

/// Makes a payment by proxy.
pub struct ProxyPaymentsRequest;

/// Changes what a merchant noted of a payment.
pub struct PaymentsUpdateMetadataRequest;

/// Cancels a payment.
pub struct PaymentsCancelRequest;

/// Captures a payment.
pub struct PaymentsCaptureRequest;

/// Raises the amount that a payment is authorized for.
pub struct PaymentsIncrementalAuthorizationRequest;

/// Sends a customer on to a payment.
pub struct PaymentsStartRequest;

/// Rejects a payment that is held back.
pub struct PaymentsRejectRequest;

impl Authenticate for PaymentsConfirmIntentRequest {
    fn should_return_raw_response(&self) -> (res: Option<bool>)
        ensures
            res == self.return_raw_connector_response,
    {
        self.return_raw_connector_response
    }
}

impl Authenticate for PaymentsRequest {
    fn get_client_secret(&self) -> (res: Option<&String>)
        ensures
            match self.client_secret {
                Some(secret) => res == Some(&secret),
                None => res is None,
            },
    {
        self.client_secret.as_ref()
    }

    fn should_return_raw_response(&self) -> (res: Option<bool>)
        ensures
            res == self.all_keys_required,
    {
        self.all_keys_required
    }
}

impl Authenticate for PaymentMethodListRequest {
    fn get_client_secret(&self) -> (res: Option<&String>)
        ensures
            match self.client_secret {
                Some(secret) => res == Some(&secret),
                None => res is None,
            },
    {
        self.client_secret.as_ref()
    }
}

impl Authenticate for PaymentsSessionRequest {
    fn get_client_secret(&self) -> (res: Option<&String>)
        ensures
            res == Some(&self.client_secret),
    {
        Some(&self.client_secret)
    }
}

impl Authenticate for PaymentsDynamicTaxCalculationRequest {
    fn get_client_secret(&self) -> (res: Option<&String>)
        ensures
            res == Some(&self.client_secret.inner_secret),
    {
        Some(self.client_secret.peek())
    }
}

impl Authenticate for PaymentsPostSessionTokensRequest {
    fn get_client_secret(&self) -> (res: Option<&String>)
        ensures
            res == Some(&self.client_secret.inner_secret),
    {
        Some(self.client_secret.peek())
    }
}

impl Authenticate for PaymentsRetrieveRequest {
    fn should_return_raw_response(&self) -> (res: Option<bool>)
        ensures
            res == (match self {
                PaymentsRetrieveRequest::V1 { all_keys_required } => *all_keys_required,
                PaymentsRetrieveRequest::V2 { return_raw_connector_response } => {
                    *return_raw_connector_response
                },
            }),
    {
        match self {
            PaymentsRetrieveRequest::V1 { all_keys_required } => *all_keys_required,
            PaymentsRetrieveRequest::V2 { return_raw_connector_response } => {
                *return_raw_connector_response
            },
        }
    }
}

impl Authenticate for ProxyPaymentsRequest {

}

impl Authenticate for PaymentsUpdateMetadataRequest {

}

impl Authenticate for PaymentsCancelRequest {

}

impl Authenticate for PaymentsCaptureRequest {

}

impl Authenticate for PaymentsIncrementalAuthorizationRequest {

}

impl Authenticate for PaymentsStartRequest {

}

impl Authenticate for PaymentsRejectRequest {

}

} // verus!

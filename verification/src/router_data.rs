//! The data that travels to a connector and back.
use vstd::prelude::*;
use crate::checkout::payments::CheckoutMeta;
use crate::consts::{NO_ERROR_CODE, NO_ERROR_MESSAGE};
use crate::enums::{AttemptStatus, AuthenticationType, CaptureMethod, Currency, Method, MinorUnit, PaymentMethod, RefundStatus};
use crate::errors::{ConnectorError, Required};
use crate::payment_data::{PaymentMethodData, PaymentMethodToken};
use crate::secret::Secret;
use crate::text::{clone_optional, clone_or};
use crate::web_url::WebUrl;

verus! {

/// The keys that a merchant uses a connector with.
pub enum ConnectorAuthType {
    TemporaryAuth,
    HeaderKey { api_key: Secret<String> },
    BodyKey { api_key: Secret<String>, key1: Secret<String> },
    SignatureKey { api_key: Secret<String>, key1: Secret<String>, api_secret: Secret<String> },
    MultiAuthKey {
        api_key: Secret<String>,
        key1: Secret<String>,
        api_secret: Secret<String>,
        key2: Secret<String>,
    },
    CurrencyAuthKey,
    CertificateAuth { certificate: Secret<String>, private_key: Secret<String> },
    NoKey,
}

/// An error that a connector reported, or that stands for its silence.
#[derive(Debug, PartialEq, Eq)]
pub struct ErrorResponse {
    pub code: String,
    pub message: String,
    pub reason: Option<String>,
    pub status_code: u16,
    pub attempt_status: Option<AttemptStatus>,
    pub connector_transaction_id: Option<String>,
    pub network_advice_code: Option<String>,
    pub network_decline_code: Option<String>,
    pub network_error_message: Option<String>,
}

impl ErrorResponse {
    /// Whether the error holds these texts and nothing of the attempt or the network.
    pub open spec fn tells(
        self,
        code: Seq<char>,
        message: Seq<char>,
        reason: Option<Seq<char>>,
        status_code: u16,
        connector_transaction_id: Option<Seq<char>>,
    ) -> bool {
        &&& self.code@ == code
        &&& self.message@ == message
        &&& crate::text::opt_view(self.reason) == reason
        &&& self.status_code == status_code
        &&& self.attempt_status is None
        &&& crate::text::opt_view(self.connector_transaction_id) == connector_transaction_id
        &&& self.network_advice_code is None
        &&& self.network_decline_code is None
        &&& self.network_error_message is None
    }

    /// An error from what a connector gave, with fixed texts for what it did not give.
    pub fn from_connector(
        code: &Option<String>,
        message: &Option<String>,
        reason: &Option<String>,
        status_code: u16,
        connector_transaction_id: Option<String>,
    ) -> (res: Self)
        ensures
            res.tells(
                crate::text::view_or(*code, NO_ERROR_CODE@),
                crate::text::view_or(*message, NO_ERROR_MESSAGE@),
                crate::text::opt_view(*reason),
                status_code,
                crate::text::opt_view(connector_transaction_id),
            ),
    {
        ErrorResponse {
            code: clone_or(code, NO_ERROR_CODE),
            message: clone_or(message, NO_ERROR_MESSAGE),
            reason: clone_optional(reason),
            status_code,
            attempt_status: None,
            connector_transaction_id,
            network_advice_code: None,
            network_decline_code: None,
            network_error_message: None,
        }
    }
}

/// What the billing address gives a connector.
pub struct BillingDetails {
    pub full_name: Required<Secret<String>>,
    pub country: Required<String>,
}

/// One call of a connector: whom it is for, what is asked, and what came back.
pub struct RouterData<Req, Resp> {
    pub connector: String,
    pub merchant_id: String,
    pub payment_id: String,
    pub attempt_id: String,
    pub status: AttemptStatus,
    pub payment_method: PaymentMethod,
    pub auth_type: AuthenticationType,
    pub connector_auth_type: ConnectorAuthType,
    pub billing: BillingDetails,
    pub payment_method_token: Option<PaymentMethodToken>,
    pub preprocessing_id: Option<String>,
    pub connector_request_reference_id: String,
    pub amount_captured: Option<i64>,
    pub refund_id: Option<String>,
    pub dispute_id: Option<String>,
    pub connector_http_status_code: Option<u16>,
    pub external_latency: Option<u128>,
    pub raw_connector_response: Option<Secret<String>>,
    pub request: Req,
    pub response: Result<Resp, ErrorResponse>,
}

/// The error for a payment that carries no payment method token.
pub open spec fn no_payment_method_token() -> ConnectorError {
    ConnectorError::MissingRequiredField { field_name: "payment_method_token" }
}

impl<Req, Resp> RouterData<Req, Resp> {
    /// The token that stands for the payment method at the connector.
    pub fn get_payment_method_token(&self) -> (res: Result<&PaymentMethodToken, ConnectorError>)
        ensures
            match self.payment_method_token {
                Some(token) => res == Ok::<&PaymentMethodToken, ConnectorError>(&token),
                None => res == Err::<&PaymentMethodToken, ConnectorError>(no_payment_method_token()),
            },
    {
        match &self.payment_method_token {
            Some(token) => Ok(token),
            None => Err(ConnectorError::MissingRequiredField { field_name: "payment_method_token" }),
        }
    }
}

/// A connector's answer together with the data of the call it answers.
pub struct ResponseRouterData<R, Req, Resp> {
    pub response: R,
    pub data: RouterData<Req, Resp>,
    pub http_code: u16,
}

// ---------------------------------------------------------------------------
// What is asked
// ---------------------------------------------------------------------------

/// An item that the customer buys.
pub struct OrderDetails {
    pub product_name: String,
}

/// What an earlier 3-D Secure authentication gave.
pub struct AuthenticationData {
    pub eci: Option<String>,
    pub cavv: Secret<String>,
    pub threeds_server_transaction_id: Option<String>,
    pub message_version: Option<String>,
}

/// A request to authorize a payment.
pub struct PaymentsAuthorizeData {
    pub payment_method_data: PaymentMethodData,
    pub currency: Currency,
    pub capture_method: Option<CaptureMethod>,
    pub router_return_url: Option<String>,
    pub webhook_url: Required<String>,
    pub email: Required<Secret<String>>,
    pub order_details: Required<Vec<OrderDetails>>,
    /// Whether the payment is made under a mandate.
    pub has_mandate: bool,
    pub connector_mandate_id: Required<String>,
    pub authentication_data: Option<AuthenticationData>,
    pub metadata: Option<serde_json::Value>,
}

/// The error for a payment that carries no return URL.
pub open spec fn no_return_url() -> ConnectorError {
    ConnectorError::MissingRequiredField { field_name: "return_url" }
}

impl PaymentsAuthorizeData {
    /// The URL that the customer comes back to.
    pub fn get_router_return_url(&self) -> (res: Result<String, ConnectorError>)
        ensures
            match self.router_return_url {
                Some(url) => res == Ok::<String, ConnectorError>(url),
                None => res == Err::<String, ConnectorError>(no_return_url()),
            },
    {
        match &self.router_return_url {
            Some(url) => Ok(url.clone()),
            None => Err(ConnectorError::MissingRequiredField { field_name: "return_url" }),
        }
    }
}

/// A request to prepare a payment.
pub struct PaymentsPreProcessingData {
    pub payment_method_data: Option<PaymentMethodData>,
    pub currency: Required<Currency>,
    pub order_details: Required<Vec<OrderDetails>>,
    pub router_return_url: Required<String>,
    pub webhook_url: Required<String>,
    /// Whether the payment is captured without a further request.
    pub auto_capture: Required<bool>,
    /// Whether the payment sets up a mandate.
    pub sets_up_mandate: bool,
}

/// A request to go on with a payment after the customer came back.
pub struct CompleteAuthorizeData {
    pub payment_method_data: Option<PaymentMethodData>,
    pub email: Required<Secret<String>>,
    pub redirect_payload: Required<Secret<serde_json::Value>>,
    pub connector_transaction_id: Option<String>,
}

/// A request to store a payment method at the connector.
pub struct PaymentMethodTokenizationData {
    pub payment_method_data: PaymentMethodData,
}

/// A request for the state of a payment.
pub struct PaymentsSyncData {
    pub connector_transaction_id: Required<String>,
    pub connector_meta: Required<CheckoutMeta>,
}

/// One of several captures of a payment.
pub struct MultipleCaptureRequestData {
    pub capture_sequence: i16,
    pub capture_reference: String,
}

/// A request to capture a payment.
pub struct PaymentsCaptureData {
    pub amount_to_capture: i64,
    pub minor_amount_to_capture: MinorUnit,
    pub minor_payment_amount: MinorUnit,
    pub connector_transaction_id: String,
    pub multiple_capture_data: Option<MultipleCaptureRequestData>,
}

impl PaymentsCaptureData {
    /// Whether this is one of several captures of the payment.
    pub fn is_multiple_capture(&self) -> (res: bool)
        ensures
            res == (self.multiple_capture_data is Some),
    {
        self.multiple_capture_data.is_some()
    }
}

/// A request to cancel a payment.
pub struct PaymentsCancelData {
    pub connector_transaction_id: String,
    pub currency: Required<Currency>,
}

/// A request to refund a payment.
pub struct RefundsData {
    pub refund_id: String,
    pub connector_transaction_id: String,
    pub connector_refund_id: Option<String>,
}

/// A request to upload a file.
pub struct UploadFileRequestData {
    pub file_key: String,
    pub file: Vec<u8>,
    /// The media type of the file.
    pub file_type: String,
}

/// A request to submit evidence in a dispute.
pub struct SubmitEvidenceRequestData {
    pub shipping_documentation_provider_file_id: Option<String>,
    pub receipt_provider_file_id: Option<String>,
    pub invoice_showing_distinct_transactions_provider_file_id: Option<String>,
    pub customer_communication_provider_file_id: Option<String>,
    pub refund_policy_provider_file_id: Option<String>,
    pub recurring_transaction_agreement_provider_file_id: Option<String>,
    pub uncategorized_file_provider_file_id: Option<String>,
}

// ---------------------------------------------------------------------------
// What came back
// ---------------------------------------------------------------------------

/// The id that a connector gave a payment.
#[derive(Debug, PartialEq, Eq)]
pub enum ResponseId {
    ConnectorTransactionId(String),
    EncodedData(String),
    NoResponseId,
}

/// The id that a connector gave a prepared payment.
#[derive(Debug, PartialEq, Eq)]
pub enum PreprocessingResponseId {
    PreProcessingId(String),
    ConnectorTransactionId(String),
}

/// The id under which later payments can be made without the customer.
#[derive(Debug, PartialEq, Eq)]
pub struct MandateReference {
    pub connector_mandate_id: Option<String>,
    pub payment_method_id: Option<String>,
    pub connector_mandate_request_reference_id: Option<String>,
}

/// A page that takes the customer on.
#[allow(inconsistent_fields)]
pub enum RedirectForm {
    Form { endpoint: String, method: Method, form_fields: Vec<(String, String)> },
    Html { html_data: String },
    BlueSnap { payment_fields_token: String },
    CybersourceAuthSetup { access_token: String, ddc_url: String, reference_id: String },
    CybersourceConsumerAuth { access_token: String, step_up_url: String },
    DeutschebankThreeDSChallengeFlow { acs_url: String, creq: String },
    Payme,
    Braintree { client_token: String, card_token: String, bin: String, acs_url: String },
    Nmi {
        amount: String,
        currency: String,
        public_key: Secret<String>,
        customer_vault_id: String,
        order_id: String,
    },
    Mifinity { initialization_token: String },
    WorldpayDDCForm {
        endpoint: WebUrl,
        method: Method,
        form_fields: Vec<(String, String)>,
        collection_id: Option<String>,
    },
}

/// Where the customer has to go on.
pub enum RedirectionData {
    /// A URL, whose query becomes the fields of a form sent by the method.
    Url { url: WebUrl, method: Method },
    /// A page.
    Page(RedirectForm),
}

/// What Apple Pay shows the customer.
pub struct ApplePayPaymentRequest {
    pub country_code: String,
    pub currency_code: Currency,
    pub label: String,
    pub amount: String,
}

/// What the customer's device has to do after the wallet answered.
#[derive(Clone, Copy, Debug, PartialEq, Eq, Structural)]
pub enum NextActionCall {
    PostSessionTokens,
    Confirm,
    Sync,
    CompleteAuthorize,
}

/// What the customer's device needs to show Apple Pay.
pub struct ApplepaySessionTokenResponse {
    /// Whether the connector holds back the session's own data.
    pub no_session_response: bool,
    pub payment_request_data: Option<ApplePayPaymentRequest>,
    pub connector: String,
    pub delayed_session_token: bool,
    pub next_action: NextActionCall,
    pub connector_reference_id: Option<String>,
    pub connector_sdk_public_key: Option<String>,
    pub connector_merchant_id: Option<String>,
}

/// How one capture of a payment went, as the connector tells it.
pub struct CaptureSync {
    pub connector_capture_id: String,
    pub status: AttemptStatus,
    pub connector_reference_id: Option<String>,
    pub is_capture_response: bool,
    pub amount: Option<MinorUnit>,
}

/// A connector's answer to a payment request.
pub enum PaymentsResponseData {
    TransactionResponse {
        resource_id: ResponseId,
        redirection_data: Option<RedirectionData>,
        mandate_reference: Option<MandateReference>,
        connector_metadata: Option<CheckoutMeta>,
        network_txn_id: Option<String>,
        connector_response_reference_id: Option<String>,
        incremental_authorization_allowed: Option<bool>,
    },
    TokenizationResponse { token: String },
    PreProcessingResponse {
        pre_processing_id: PreprocessingResponseId,
        connector_metadata: Option<CheckoutMeta>,
        session_token: Option<ApplepaySessionTokenResponse>,
        connector_response_reference_id: Option<String>,
    },
    MultipleCaptureResponse { captures: Vec<CaptureSync> },
}

impl PaymentsResponseData {
    /// A transaction that needs neither redirection nor mandate.
    pub open spec fn plain_transaction(
        resource_id: ResponseId,
        connector_metadata: Option<CheckoutMeta>,
        connector_response_reference_id: Option<String>,
    ) -> Self {
        PaymentsResponseData::TransactionResponse {
            resource_id,
            redirection_data: None,
            mandate_reference: None,
            connector_metadata,
            network_txn_id: None,
            connector_response_reference_id,
            incremental_authorization_allowed: None,
        }
    }
}

/// A connector's answer to a refund request.
#[derive(Debug, PartialEq, Eq)]
pub struct RefundsResponseData {
    pub connector_refund_id: String,
    pub refund_status: RefundStatus,
}

pub type PaymentsAuthorizeRouterData = RouterData<PaymentsAuthorizeData, PaymentsResponseData>;

pub type PaymentsPreProcessingRouterData = RouterData<PaymentsPreProcessingData, PaymentsResponseData>;

pub type PaymentsCompleteAuthorizeRouterData = RouterData<CompleteAuthorizeData, PaymentsResponseData>;

pub type TokenizationRouterData = RouterData<PaymentMethodTokenizationData, PaymentsResponseData>;

pub type PaymentsSyncRouterData = RouterData<PaymentsSyncData, PaymentsResponseData>;

pub type PaymentsCaptureRouterData = RouterData<PaymentsCaptureData, PaymentsResponseData>;

pub type PaymentsCancelRouterData = RouterData<PaymentsCancelData, PaymentsResponseData>;

pub type RefundsRouterData = RouterData<RefundsData, RefundsResponseData>;

} // verus!

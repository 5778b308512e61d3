//! Authentication of customers with a separate service.
use vstd::prelude::*;
use crate::enums::AttemptStatus;
use crate::errors::ApiErrorResponse;
use crate::router_data::ErrorResponse;
use crate::secret::Secret;
use crate::text::{clone_optional, concat2, concat3};

verus! {

/// A connector that a payment can go to.
#[derive(Debug, PartialEq, Eq)]
pub struct ConnectorData {
    pub connector_name: String,
    /// Whether the connector lets the customer be authenticated by another service.
    pub separate_authentication_supported: bool,
    pub merchant_connector_id: Option<String>,
}

impl Clone for ConnectorData {
    fn clone(&self) -> (res: Self)
        ensures
            res == *self,
    {
        ConnectorData {
            connector_name: self.connector_name.clone(),
            separate_authentication_supported: self.separate_authentication_supported,
            merchant_connector_id: clone_optional(&self.merchant_connector_id),
        }
    }
}

/// A connector that a payment was routed to.
#[derive(Debug, PartialEq, Eq)]
pub struct ConnectorRoutingData {
    pub connector_data: ConnectorData,
    pub network: Option<String>,
}

/// The connectors that a payment was routed to.
#[derive(Debug, PartialEq, Eq)]
pub enum ConnectorCallType {
    PreDetermined(ConnectorRoutingData),
    Retryable(Vec<ConnectorRoutingData>),
    SessionMultiple(Vec<ConnectorData>),
}

/// A connector, if it lets the customer be authenticated by another service.
pub open spec fn if_separate(connector_data: ConnectorData) -> Option<ConnectorData> {
    if connector_data.separate_authentication_supported {
        Some(connector_data)
    } else {
        None
    }
}

/// The connector that a payment goes to first, if it lets the customer be authenticated by
/// another service.
pub fn get_connector_data_if_separate_authn_supported(
    connector_call_type: &ConnectorCallType,
) -> (res: Option<ConnectorData>)
    ensures
        res == (match *connector_call_type {
            ConnectorCallType::PreDetermined(routing) => if_separate(routing.connector_data),
            ConnectorCallType::Retryable(routings) => if routings@.len() == 0 {
                None
            } else {
                if_separate(routings@[0].connector_data)
            },
            ConnectorCallType::SessionMultiple(_) => None,
        }),
{
    match connector_call_type {
        ConnectorCallType::PreDetermined(routing) => {
            if routing.connector_data.separate_authentication_supported {
                Some(routing.connector_data.clone())
            } else {
                None
            }
        },
        ConnectorCallType::Retryable(routings) => {
            if routings.len() > 0 && routings[0].connector_data.separate_authentication_supported {
                Some(routings[0].connector_data.clone())
            } else {
                None
            }
        },
        ConnectorCallType::SessionMultiple(_) => None,
    }
}

// ---------------------------------------------------------------------------
// The outcome of an authentication
// ---------------------------------------------------------------------------

/// Where an authentication stands.
#[derive(Clone, Copy, Debug, PartialEq, Eq, Structural)]
pub enum AuthenticationStatus {
    Started,
    Pending,
    Success,
    Failed,
}

/// Whether an authentication was used for a payment.
#[derive(Clone, Copy, Debug, PartialEq, Eq, Structural)]
pub enum AuthenticationLifecycleStatus {
    Used,
    Unused,
    Expired,
}

/// Where an attempt stands, given its authentication.
pub open spec fn attempt_status_of(from: AuthenticationStatus) -> AttemptStatus {
    match from {
        AuthenticationStatus::Started
        | AuthenticationStatus::Pending => AttemptStatus::AuthenticationPending,
        AuthenticationStatus::Success => AttemptStatus::AuthenticationSuccessful,
        AuthenticationStatus::Failed => AttemptStatus::AuthenticationFailed,
    }
}

impl AttemptStatus {
    /// Where an attempt stands, given its authentication.
    pub fn foreign_from(from: AuthenticationStatus) -> (res: AttemptStatus)
        ensures
            res == attempt_status_of(from),
    {
        match from {
            AuthenticationStatus::Started | AuthenticationStatus::Pending => {
                AttemptStatus::AuthenticationPending
            },
            AuthenticationStatus::Success => AttemptStatus::AuthenticationSuccessful,
            AuthenticationStatus::Failed => AttemptStatus::AuthenticationFailed,
        }
    }
}

/// A failed authentication, and no other, fails the attempt.
pub proof fn law_failed_authentication_fails_attempt(from: AuthenticationStatus)
    ensures
        crate::enums::payment_failed(attempt_status_of(from)) <==> from is Failed,
{
}

/// What an issuer said, and the status that this stands for.
#[derive(Debug, PartialEq, Eq)]
pub struct TransStatus {
    pub code: String,
    pub authentication_status: AuthenticationStatus,
}

/// Whether the customer has to be asked.
#[derive(Clone, Copy, Debug, PartialEq, Eq, Structural)]
pub enum DecoupledAuthenticationType {
    Challenge,
    Frictionless,
}

/// How an authentication goes on.
#[derive(Debug, PartialEq, Eq)]
pub struct AuthNFlow {
    pub acs_url: Option<String>,
    pub challenge_request: Option<String>,
    pub acs_reference_number: Option<String>,
    pub acs_trans_id: Option<String>,
    pub acs_signed_content: Option<String>,
    pub authentication_type: DecoupledAuthenticationType,
}

/// What an authentication service answers.
#[allow(inconsistent_fields)]
pub enum AuthenticationResponseData {
    PreAuthVersionCallResponse { maximum_supported_3ds_version: String },
    PreAuthThreeDsMethodCallResponse {
        threeds_server_transaction_id: String,
        three_ds_method_data: Option<String>,
        three_ds_method_url: Option<String>,
        connector_metadata: Option<serde_json::Value>,
    },
    PreAuthNResponse {
        threeds_server_transaction_id: String,
        maximum_supported_3ds_version: String,
        connector_authentication_id: String,
        three_ds_method_data: Option<String>,
        three_ds_method_url: Option<String>,
        message_version: String,
        connector_metadata: Option<serde_json::Value>,
        directory_server_id: Option<String>,
    },
    AuthNResponse {
        authn_flow_type: AuthNFlow,
        authentication_value: Option<Secret<String>>,
        trans_status: TransStatus,
        connector_metadata: Option<serde_json::Value>,
        ds_trans_id: Option<String>,
        eci: Option<String>,
    },
    PostAuthNResponse {
        trans_status: TransStatus,
        authentication_value: Option<Secret<String>>,
        eci: Option<String>,
    },
}

/// The bank that collects the payment.
#[derive(Debug, PartialEq, Eq)]
pub struct AcquirerDetails {
    pub acquirer_bin: String,
    pub acquirer_merchant_id: String,
    pub acquirer_country_code: Option<String>,
}

/// What changes in the record of an authentication.
#[allow(inconsistent_fields)]
pub enum AuthenticationUpdate {
    PreAuthenticationVersionCallUpdate {
        maximum_supported_3ds_version: String,
        message_version: String,
    },
    PreAuthenticationThreeDsMethodCall {
        threeds_server_transaction_id: String,
        three_ds_method_data: Option<String>,
        three_ds_method_url: Option<String>,
        acquirer_bin: Option<String>,
        acquirer_merchant_id: Option<String>,
        connector_metadata: Option<serde_json::Value>,
    },
    PreAuthenticationUpdate {
        threeds_server_transaction_id: String,
        maximum_supported_3ds_version: String,
        connector_authentication_id: String,
        three_ds_method_data: Option<String>,
        three_ds_method_url: Option<String>,
        message_version: String,
        connector_metadata: Option<serde_json::Value>,
        authentication_status: AuthenticationStatus,
        acquirer_bin: Option<String>,
        acquirer_merchant_id: Option<String>,
        directory_server_id: Option<String>,
        acquirer_country_code: Option<String>,
        billing_address: Option<String>,
        shipping_address: Option<String>,
        browser_info: Option<serde_json::Value>,
        email: Option<String>,
    },
    AuthenticationUpdate {
        trans_status: TransStatus,
        authentication_type: DecoupledAuthenticationType,
        acs_url: Option<String>,
        challenge_request: Option<String>,
        acs_reference_number: Option<String>,
        acs_trans_id: Option<String>,
        acs_signed_content: Option<String>,
        connector_metadata: Option<serde_json::Value>,
        authentication_status: AuthenticationStatus,
        ds_trans_id: Option<String>,
        eci: Option<String>,
    },
    PostAuthenticationUpdate {
        trans_status: TransStatus,
        eci: Option<String>,
        authentication_status: AuthenticationStatus,
    },
    ErrorUpdate {
        error_message: Option<String>,
        error_code: Option<String>,
        authentication_status: AuthenticationStatus,
        connector_authentication_id: Option<String>,
    },
}

/// What an answer of an authentication service leads to: first a value to be kept in the vault
/// and the id under which it is kept, then the change of the record.
pub struct TrackerUpdate {
    pub value_to_tokenize: Option<(Secret<String>, String)>,
    pub update: AuthenticationUpdate,
}

/// What is kept in the vault of an authentication's value, and under which id.
pub open spec fn kept_value(
    authentication_value: Option<Secret<String>>,
    authentication_id: String,
) -> Option<(Secret<String>, String)> {
    match authentication_value {
        Some(value) => Some((value, authentication_id)),
        None => None,
    }
}

/// What an acquirer's details give.
pub open spec fn acquirer_bin(details: Option<AcquirerDetails>) -> Option<String> {
    match details {
        Some(details) => Some(details.acquirer_bin),
        None => None,
    }
}

/// What an acquirer's details give.
pub open spec fn acquirer_merchant_id(details: Option<AcquirerDetails>) -> Option<String> {
    match details {
        Some(details) => Some(details.acquirer_merchant_id),
        None => None,
    }
}

/// The message that is kept of an error.
pub open spec fn kept_message(error: ErrorResponse) -> Seq<char> {
    match error.reason {
        Some(reason) => "message: "@ + error.message@ + ", reason: "@ + reason@,
        None => error.message@,
    }
}

/// Whether an update is the one that an answer leads to, for the authentication of an id.
pub open spec fn is_tracker_update(
    plan: TrackerUpdate,
    response: Result<AuthenticationResponseData, ErrorResponse>,
    authentication_id: String,
    acquirer_details: Option<AcquirerDetails>,
) -> bool {
    match response {
        Ok(AuthenticationResponseData::PreAuthNResponse {
            threeds_server_transaction_id,
            maximum_supported_3ds_version,
            connector_authentication_id,
            three_ds_method_data,
            three_ds_method_url,
            message_version,
            connector_metadata,
            directory_server_id,
        }) => plan == (TrackerUpdate {
            value_to_tokenize: None,
            update: AuthenticationUpdate::PreAuthenticationUpdate {
                threeds_server_transaction_id,
                maximum_supported_3ds_version,
                connector_authentication_id,
                three_ds_method_data,
                three_ds_method_url,
                message_version,
                connector_metadata,
                authentication_status: AuthenticationStatus::Pending,
                acquirer_bin: acquirer_bin(acquirer_details),
                acquirer_merchant_id: acquirer_merchant_id(acquirer_details),
                acquirer_country_code: match acquirer_details {
                    Some(details) => details.acquirer_country_code,
                    None => None,
                },
                directory_server_id,
                billing_address: None,
                shipping_address: None,
                browser_info: None,
                email: None,
            },
        }),
        Ok(AuthenticationResponseData::AuthNResponse {
            authn_flow_type,
            authentication_value,
            trans_status,
            connector_metadata,
            ds_trans_id,
            eci,
        }) => plan == (TrackerUpdate {
            value_to_tokenize: kept_value(authentication_value, authentication_id),
            update: AuthenticationUpdate::AuthenticationUpdate {
                trans_status,
                acs_url: authn_flow_type.acs_url,
                challenge_request: authn_flow_type.challenge_request,
                acs_reference_number: authn_flow_type.acs_reference_number,
                acs_trans_id: authn_flow_type.acs_trans_id,
                acs_signed_content: authn_flow_type.acs_signed_content,
                authentication_type: authn_flow_type.authentication_type,
                authentication_status: trans_status.authentication_status,
                connector_metadata,
                ds_trans_id,
                eci,
            },
        }),
        Ok(AuthenticationResponseData::PostAuthNResponse {
            trans_status,
            authentication_value,
            eci,
        }) => plan == (TrackerUpdate {
            value_to_tokenize: kept_value(authentication_value, authentication_id),
            update: AuthenticationUpdate::PostAuthenticationUpdate {
                trans_status,
                authentication_status: trans_status.authentication_status,
                eci,
            },
        }),
        Ok(AuthenticationResponseData::PreAuthVersionCallResponse {
            maximum_supported_3ds_version,
        }) => plan == (TrackerUpdate {
            value_to_tokenize: None,
            update: AuthenticationUpdate::PreAuthenticationVersionCallUpdate {
                message_version: maximum_supported_3ds_version,
                maximum_supported_3ds_version,
            },
        }),
        Ok(AuthenticationResponseData::PreAuthThreeDsMethodCallResponse {
            threeds_server_transaction_id,
            three_ds_method_data,
            three_ds_method_url,
            connector_metadata,
        }) => plan == (TrackerUpdate {
            value_to_tokenize: None,
            update: AuthenticationUpdate::PreAuthenticationThreeDsMethodCall {
                threeds_server_transaction_id,
                three_ds_method_data,
                three_ds_method_url,
                connector_metadata,
                acquirer_bin: acquirer_bin(acquirer_details),
                acquirer_merchant_id: acquirer_merchant_id(acquirer_details),
            },
        }),
        Err(error) => {
            &&& plan.value_to_tokenize is None
            &&& plan.update matches AuthenticationUpdate::ErrorUpdate {
                error_message,
                error_code,
                authentication_status,
                connector_authentication_id,
            }
            &&& crate::text::opt_view(error_message) == Some(kept_message(error))
            &&& error_code == Some(error.code)
            &&& authentication_status == AuthenticationStatus::Failed
            &&& connector_authentication_id == error.connector_transaction_id
        },
    }
}

fn value_to_keep(authentication_value: Option<Secret<String>>, authentication_id: String) -> (res:
    Option<(Secret<String>, String)>)
    ensures
        res == kept_value(authentication_value, authentication_id),
{
    match authentication_value {
        Some(value) => Some((value, authentication_id)),
        None => None,
    }
}

/// Finds what an answer of an authentication service leads to, for the authentication of an id.
pub fn update_trackers(
    response: Result<AuthenticationResponseData, ErrorResponse>,
    authentication_id: String,
    acquirer_details: Option<AcquirerDetails>,
) -> (res: TrackerUpdate)
    ensures
        is_tracker_update(res, response, authentication_id, acquirer_details),
{
    match response {
        Ok(AuthenticationResponseData::PreAuthNResponse {
            threeds_server_transaction_id,
            maximum_supported_3ds_version,
            connector_authentication_id,
            three_ds_method_data,
            three_ds_method_url,
            message_version,
            connector_metadata,
            directory_server_id,
        }) => {
            let (acquirer_bin, acquirer_merchant_id, acquirer_country_code) = match acquirer_details {
                Some(details) => (
                    Some(details.acquirer_bin),
                    Some(details.acquirer_merchant_id),
                    details.acquirer_country_code,
                ),
                None => (None, None, None),
            };
            TrackerUpdate {
                value_to_tokenize: None,
                update: AuthenticationUpdate::PreAuthenticationUpdate {
                    threeds_server_transaction_id,
                    maximum_supported_3ds_version,
                    connector_authentication_id,
                    three_ds_method_data,
                    three_ds_method_url,
                    message_version,
                    connector_metadata,
                    authentication_status: AuthenticationStatus::Pending,
                    acquirer_bin,
                    acquirer_merchant_id,
                    acquirer_country_code,
                    directory_server_id,
                    billing_address: None,
                    shipping_address: None,
                    browser_info: None,
                    email: None,
                },
            }
        },
        Ok(AuthenticationResponseData::AuthNResponse {
            authn_flow_type,
            authentication_value,
            trans_status,
            connector_metadata,
            ds_trans_id,
            eci,
        }) => {
            let authentication_status = trans_status.authentication_status;
            TrackerUpdate {
                value_to_tokenize: value_to_keep(authentication_value, authentication_id),
                update: AuthenticationUpdate::AuthenticationUpdate {
                    trans_status,
                    acs_url: authn_flow_type.acs_url,
                    challenge_request: authn_flow_type.challenge_request,
                    acs_reference_number: authn_flow_type.acs_reference_number,
                    acs_trans_id: authn_flow_type.acs_trans_id,
                    acs_signed_content: authn_flow_type.acs_signed_content,
                    authentication_type: authn_flow_type.authentication_type,
                    authentication_status,
                    connector_metadata,
                    ds_trans_id,
                    eci,
                },
            }
        },
        Ok(AuthenticationResponseData::PostAuthNResponse {
            trans_status,
            authentication_value,
            eci,
        }) => {
            let authentication_status = trans_status.authentication_status;
            TrackerUpdate {
                value_to_tokenize: value_to_keep(authentication_value, authentication_id),
                update: AuthenticationUpdate::PostAuthenticationUpdate {
                    authentication_status,
                    trans_status,
                    eci,
                },
            }
        },
        Ok(AuthenticationResponseData::PreAuthVersionCallResponse {
            maximum_supported_3ds_version,
        }) => TrackerUpdate {
            value_to_tokenize: None,
            update: AuthenticationUpdate::PreAuthenticationVersionCallUpdate {
                message_version: maximum_supported_3ds_version.clone(),
                maximum_supported_3ds_version,
            },
        },
        Ok(AuthenticationResponseData::PreAuthThreeDsMethodCallResponse {
            threeds_server_transaction_id,
            three_ds_method_data,
            three_ds_method_url,
            connector_metadata,
        }) => {
            let (acquirer_bin, acquirer_merchant_id) = match acquirer_details {
                Some(details) => (Some(details.acquirer_bin), Some(details.acquirer_merchant_id)),
                None => (None, None),
            };
            TrackerUpdate {
                value_to_tokenize: None,
                update: AuthenticationUpdate::PreAuthenticationThreeDsMethodCall {
                    threeds_server_transaction_id,
                    three_ds_method_data,
                    three_ds_method_url,
                    connector_metadata,
                    acquirer_bin,
                    acquirer_merchant_id,
                },
            }
        },
        Err(error) => {
            let message = match &error.reason {
                Some(reason) => {
                    let mut text = "message: ".to_string();
                    text.append(error.message.as_str());
                    text.append(", reason: ");
                    text.append(reason.as_str());
                    text
                },
                None => error.message,
            };
            TrackerUpdate {
                value_to_tokenize: None,
                update: AuthenticationUpdate::ErrorUpdate {
                    connector_authentication_id: error.connector_transaction_id,
                    authentication_status: AuthenticationStatus::Failed,
                    error_message: Some(message),
                    error_code: Some(error.code),
                },
            }
        },
    }
}

/// The change of the record that is made after the vault was asked to keep the value. Where the
/// vault failed, that error is the outcome and no change is made.
pub fn value_kept(update: AuthenticationUpdate, kept: Result<(), ApiErrorResponse>) -> (res: Result<
    AuthenticationUpdate,
    ApiErrorResponse,
>)
    ensures
        res == (match kept {
            Ok(_) => Ok::<AuthenticationUpdate, ApiErrorResponse>(update),
            Err(error) => Err(error),
        }),
{
    match kept {
        Ok(()) => Ok(update),
        Err(error) => Err(error),
    }
}

/// The value of an authentication goes to the vault exactly where the answer holds one, and
/// under the authentication's own id.
pub proof fn law_value_is_kept_under_its_id(
    plan: TrackerUpdate,
    response: Result<AuthenticationResponseData, ErrorResponse>,
    authentication_id: String,
    acquirer_details: Option<AcquirerDetails>,
)
    requires
        is_tracker_update(plan, response, authentication_id, acquirer_details),
    ensures
        plan.value_to_tokenize == (match response {
            Ok(AuthenticationResponseData::AuthNResponse {
                authentication_value: Some(value),
                ..
            }) => Some((value, authentication_id)),
            Ok(AuthenticationResponseData::PostAuthNResponse {
                authentication_value: Some(value),
                ..
            }) => Some((value, authentication_id)),
            _ => None,
        }),
{
}

/// The status that an update sets, if any.
pub open spec fn status_set(update: AuthenticationUpdate) -> Option<AuthenticationStatus> {
    match update {
        AuthenticationUpdate::PreAuthenticationVersionCallUpdate { .. } => None,
        AuthenticationUpdate::PreAuthenticationThreeDsMethodCall { .. } => None,
        AuthenticationUpdate::PreAuthenticationUpdate { authentication_status, .. } => Some(
            authentication_status,
        ),
        AuthenticationUpdate::AuthenticationUpdate { authentication_status, .. } => Some(
            authentication_status,
        ),
        AuthenticationUpdate::PostAuthenticationUpdate { authentication_status, .. } => Some(
            authentication_status,
        ),
        AuthenticationUpdate::ErrorUpdate { authentication_status, .. } => Some(
            authentication_status,
        ),
    }
}

/// An authentication succeeds exactly where the issuer said so, and an error fails it.
pub proof fn law_success_only_as_told(
    plan: TrackerUpdate,
    response: Result<AuthenticationResponseData, ErrorResponse>,
    authentication_id: String,
    acquirer_details: Option<AcquirerDetails>,
)
    requires
        is_tracker_update(plan, response, authentication_id, acquirer_details),
    ensures
        status_set(plan.update) == Some(AuthenticationStatus::Success) <==> (match response {
            Ok(AuthenticationResponseData::AuthNResponse { trans_status, .. }) => {
                trans_status.authentication_status is Success
            },
            Ok(AuthenticationResponseData::PostAuthNResponse { trans_status, .. }) => {
                trans_status.authentication_status is Success
            },
            _ => false,
        }),
        response is Err ==> status_set(plan.update) == Some(AuthenticationStatus::Failed),
{
}

// ---------------------------------------------------------------------------
// A new authentication
// ---------------------------------------------------------------------------

/// The record of a new authentication.
pub struct AuthenticationNew {
    pub authentication_id: String,
    pub merchant_id: String,
    pub authentication_connector: Option<String>,
    pub connector_authentication_id: Option<String>,
    pub payment_method_id: String,
    pub authentication_type: Option<DecoupledAuthenticationType>,
    pub authentication_status: AuthenticationStatus,
    pub authentication_lifecycle_status: AuthenticationLifecycleStatus,
    pub error_message: Option<String>,
    pub error_code: Option<String>,
    pub connector_metadata: Option<serde_json::Value>,
    pub maximum_supported_version: Option<String>,
    pub threeds_server_transaction_id: Option<String>,
    pub cavv: Option<String>,
    pub authentication_flow_type: Option<String>,
    pub message_version: Option<String>,
    pub eci: Option<String>,
    pub trans_status: Option<TransStatus>,
    pub acquirer_bin: Option<String>,
    pub acquirer_merchant_id: Option<String>,
    pub three_ds_method_data: Option<String>,
    pub three_ds_method_url: Option<String>,
    pub acs_url: Option<String>,
    pub challenge_request: Option<String>,
    pub acs_reference_number: Option<String>,
    pub acs_trans_id: Option<String>,
    pub acs_signed_content: Option<String>,
    pub profile_id: String,
    pub payment_id: Option<String>,
    pub merchant_connector_id: Option<String>,
    pub ds_trans_id: Option<String>,
    pub directory_server_id: Option<String>,
    pub acquirer_country_code: Option<String>,
    pub service_details: Option<serde_json::Value>,
    pub organization_id: String,
    pub authentication_client_secret: Option<String>,
    pub force_3ds_challenge: Option<bool>,
    pub psd2_sca_exemption_type: Option<String>,
    pub return_url: Option<String>,
    pub amount: Option<i64>,
    pub currency: Option<String>,
    pub billing_address: Option<String>,
    pub shipping_address: Option<String>,
    pub browser_info: Option<serde_json::Value>,
    pub email: Option<String>,
    pub profile_acquirer_id: Option<String>,
}

/// What a new authentication is made for.
pub struct AuthenticationFor {
    pub merchant_id: String,
    pub authentication_connector: String,
    pub token: String,
    pub profile_id: String,
    pub payment_id: String,
    pub merchant_connector_id: String,
    pub organization_id: String,
    pub force_3ds_challenge: Option<bool>,
    pub psd2_sca_exemption_type: Option<String>,
}

/// What the client secret of an authentication starts with.
pub fn client_secret_prefix(authentication_id: &str) -> (res: String)
    ensures
        res@ == authentication_id@ + "_secret"@,
{
    concat2(authentication_id, "_secret")
}

/// The record of a new authentication, under a new id and with a new client secret.
pub fn create_new_authentication(
    request: AuthenticationFor,
    authentication_id: String,
    authentication_client_secret: String,
) -> (res: AuthenticationNew)
    ensures
        res.payment_method_id@ == "eph_"@ + request.token@,
        res == (AuthenticationNew {
            authentication_id,
            merchant_id: request.merchant_id,
            authentication_connector: Some(request.authentication_connector),
            connector_authentication_id: None,
            payment_method_id: res.payment_method_id,
            authentication_type: None,
            authentication_status: AuthenticationStatus::Started,
            authentication_lifecycle_status: AuthenticationLifecycleStatus::Unused,
            error_message: None,
            error_code: None,
            connector_metadata: None,
            maximum_supported_version: None,
            threeds_server_transaction_id: None,
            cavv: None,
            authentication_flow_type: None,
            message_version: None,
            eci: None,
            trans_status: None,
            acquirer_bin: None,
            acquirer_merchant_id: None,
            three_ds_method_data: None,
            three_ds_method_url: None,
            acs_url: None,
            challenge_request: None,
            acs_reference_number: None,
            acs_trans_id: None,
            acs_signed_content: None,
            profile_id: request.profile_id,
            payment_id: Some(request.payment_id),
            merchant_connector_id: Some(request.merchant_connector_id),
            ds_trans_id: None,
            directory_server_id: None,
            acquirer_country_code: None,
            service_details: None,
            organization_id: request.organization_id,
            authentication_client_secret: Some(authentication_client_secret),
            force_3ds_challenge: request.force_3ds_challenge,
            psd2_sca_exemption_type: request.psd2_sca_exemption_type,
            return_url: None,
            amount: None,
            currency: None,
            billing_address: None,
            shipping_address: None,
            browser_info: None,
            email: None,
            profile_acquirer_id: None,
        }),
{
    AuthenticationNew {
        authentication_id,
        merchant_id: request.merchant_id,
        authentication_connector: Some(request.authentication_connector),
        connector_authentication_id: None,
        payment_method_id: concat2("eph_", request.token.as_str()),
        authentication_type: None,
        authentication_status: AuthenticationStatus::Started,
        authentication_lifecycle_status: AuthenticationLifecycleStatus::Unused,
        error_message: None,
        error_code: None,
        connector_metadata: None,
        maximum_supported_version: None,
        threeds_server_transaction_id: None,
        cavv: None,
        authentication_flow_type: None,
        message_version: None,
        eci: None,
        trans_status: None,
        acquirer_bin: None,
        acquirer_merchant_id: None,
        three_ds_method_data: None,
        three_ds_method_url: None,
        acs_url: None,
        challenge_request: None,
        acs_reference_number: None,
        acs_trans_id: None,
        acs_signed_content: None,
        profile_id: request.profile_id,
        payment_id: Some(request.payment_id),
        merchant_connector_id: Some(request.merchant_connector_id),
        ds_trans_id: None,
        directory_server_id: None,
        acquirer_country_code: None,
        service_details: None,
        organization_id: request.organization_id,
        authentication_client_secret: Some(authentication_client_secret),
        force_3ds_challenge: request.force_3ds_challenge,
        psd2_sca_exemption_type: request.psd2_sca_exemption_type,
        return_url: None,
        amount: None,
        currency: None,
        billing_address: None,
        shipping_address: None,
        browser_info: None,
        email: None,
        profile_acquirer_id: None,
    }
}

/// The error for a record that is already there.
pub fn duplicate_authentication(authentication_id: &str) -> (res: ApiErrorResponse)
    ensures
        res matches ApiErrorResponse::GenericDuplicateError { message } && message@
            == "Authentication with authentication_id "@ + authentication_id@ + " already exists"@,
{
    ApiErrorResponse::GenericDuplicateError {
        message: concat3(
            "Authentication with authentication_id ",
            authentication_id,
            " already exists",
        ),
    }
}

// ---------------------------------------------------------------------------
// The service to authenticate with
// ---------------------------------------------------------------------------

/// The service that a request asks for.
pub struct RequestedConnector {
    pub name: String,
    /// The service of that name, where there is one.
    pub known: Option<String>,
}

/// Finds the service to authenticate with: the one that the request asks for, or else the
/// first one of the merchant's profile. `profile_id` is the profile's id as it is shown in
/// messages.
pub fn get_authentication_connector_data(
    requested: Option<RequestedConnector>,
    profile_connectors: &Option<Vec<String>>,
    profile_id: &str,
) -> (res: Result<String, ApiErrorResponse>)
    ensures
        match requested {
            Some(request) => match request.known {
                Some(connector) => res == Ok::<String, ApiErrorResponse>(connector),
                None => res matches Err(ApiErrorResponse::UnprocessableEntity { message })
                    && message@ == "Invalid authentication_connector found in request : "@
                    + request.name@,
            },
            None => match *profile_connectors {
                None => res matches Err(ApiErrorResponse::UnprocessableEntity { message })
                    && message@
                    == "authentication_connector_details is not available in business profile"@,
                Some(connectors) => if connectors@.len() == 0 {
                    res matches Err(ApiErrorResponse::UnprocessableEntity { message }) && message@
                        == "No authentication_connector found for profile_id "@ + profile_id@
                } else {
                    res == Ok::<String, ApiErrorResponse>(connectors@[0])
                },
            },
        },
{
    match requested {
        Some(request) => match request.known {
            Some(connector) => Ok(connector),
            None => Err(
                ApiErrorResponse::UnprocessableEntity {
                    message: concat2(
                        "Invalid authentication_connector found in request : ",
                        request.name.as_str(),
                    ),
                },
            ),
        },
        None => match profile_connectors {
            None => Err(
                ApiErrorResponse::UnprocessableEntity {
                    message: "authentication_connector_details is not available in business profile".to_string(),
                },
            ),
            Some(connectors) => {
                if connectors.len() == 0 {
                    Err(
                        ApiErrorResponse::UnprocessableEntity {
                            message: concat2(
                                "No authentication_connector found for profile_id ",
                                profile_id,
                            ),
                        },
                    )
                } else {
                    Ok(connectors[0].clone())
                }
            },
        },
    }
}

} // verus!

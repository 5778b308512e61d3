//! Laws of authentications.
use vstd::prelude::*;
use crate::authentication::{client_secret_prefix, create_new_authentication, duplicate_authentication, get_authentication_connector_data, get_connector_data_if_separate_authn_supported, update_trackers, value_kept, AcquirerDetails, AuthNFlow, AuthenticationFor, AuthenticationNew, AuthenticationResponseData, AuthenticationStatus, AuthenticationUpdate, ConnectorCallType, ConnectorData, RequestedConnector, TrackerUpdate, TransStatus};
use crate::enums::AttemptStatus;
use crate::errors::ApiErrorResponse;
use crate::router_data::ErrorResponse;

verus! {

/// What the issuer's word stands for, where an answer brings it.
pub open spec fn issuers_word(answer: AuthenticationResponseData) -> Option<TransStatus> {
    match answer {
        AuthenticationResponseData::AuthNResponse { trans_status, .. } => Some(trans_status),
        AuthenticationResponseData::PostAuthNResponse { trans_status, .. } => Some(trans_status),
        _ => None,
    }
}

/// The status that an update of an authentication's record sets, if any.
pub open spec fn set_to(update: AuthenticationUpdate, status: AuthenticationStatus) -> bool {
    ||| update is PreAuthenticationUpdate
        && update->PreAuthenticationUpdate_authentication_status == status
    ||| update is AuthenticationUpdate && update->AuthenticationUpdate_authentication_status
        == status
    ||| update is PostAuthenticationUpdate
        && update->PostAuthenticationUpdate_authentication_status == status
    ||| update is ErrorUpdate && update->ErrorUpdate_authentication_status == status
}

/// An authentication is set to failed exactly where the answer is an error, or the issuer's word
/// stands for that; it is set to a success, and to having begun, exactly where the issuer's word
/// stands for it. After a pre-authentication it is pending, and that is the only other way to
/// become so.
pub proof fn law_status_is_the_issuers_word(
    response: Result<AuthenticationResponseData, ErrorResponse>,
    authentication_id: String,
    acquirer_details: Option<AcquirerDetails>,
    res: TrackerUpdate,
)
    requires
        call_ensures(update_trackers, (response, authentication_id, acquirer_details), res),
    ensures
        set_to(res.update, AuthenticationStatus::Failed) <==> response is Err || (issuers_word(
            response->Ok_0,
        ) is Some && issuers_word(response->Ok_0)->0.authentication_status is Failed),
        set_to(res.update, AuthenticationStatus::Success) <==> response is Ok && issuers_word(
            response->Ok_0,
        ) is Some && issuers_word(response->Ok_0)->0.authentication_status is Success,
        set_to(res.update, AuthenticationStatus::Pending) <==> response is Ok && (response->Ok_0
            is PreAuthNResponse || (issuers_word(response->Ok_0) is Some && issuers_word(
            response->Ok_0,
        )->0.authentication_status is Pending)),
        set_to(res.update, AuthenticationStatus::Started) <==> response is Ok && issuers_word(
            response->Ok_0,
        ) is Some && issuers_word(response->Ok_0)->0.authentication_status is Started,
{
}

/// What a pre-authentication answered is stored, each thing under its own name, with what is known
/// of the bank that collects.
pub proof fn law_pre_authentication_is_stored(
    answer: AuthenticationResponseData,
    authentication_id: String,
    acquirer_details: Option<AcquirerDetails>,
    res: TrackerUpdate,
)
    requires
        answer is PreAuthNResponse,
        call_ensures(update_trackers, (Ok(answer), authentication_id, acquirer_details), res),
    ensures
        res.value_to_tokenize is None,
        res.update is PreAuthenticationUpdate,
        ({
            let stored = res.update;
            &&& stored->PreAuthenticationUpdate_authentication_status is Pending
            &&& stored->PreAuthenticationUpdate_threeds_server_transaction_id
                == answer->PreAuthNResponse_threeds_server_transaction_id
            &&& stored->PreAuthenticationUpdate_maximum_supported_3ds_version
                == answer->PreAuthNResponse_maximum_supported_3ds_version
            &&& stored->PreAuthenticationUpdate_connector_authentication_id
                == answer->PreAuthNResponse_connector_authentication_id
            &&& stored->PreAuthenticationUpdate_three_ds_method_data
                == answer->PreAuthNResponse_three_ds_method_data
            &&& stored->PreAuthenticationUpdate_three_ds_method_url
                == answer->PreAuthNResponse_three_ds_method_url
            &&& stored->PreAuthenticationUpdate_message_version
                == answer->PreAuthNResponse_message_version
            &&& stored->PreAuthenticationUpdate_connector_metadata
                == answer->PreAuthNResponse_connector_metadata
            &&& stored->PreAuthenticationUpdate_directory_server_id
                == answer->PreAuthNResponse_directory_server_id
            &&& acquirer_details matches Some(bank)
                ==> stored->PreAuthenticationUpdate_acquirer_bin == Some(bank.acquirer_bin)
                && stored->PreAuthenticationUpdate_acquirer_merchant_id
                == Some(bank.acquirer_merchant_id)
                && stored->PreAuthenticationUpdate_acquirer_country_code
                == bank.acquirer_country_code
            &&& acquirer_details is None ==> stored->PreAuthenticationUpdate_acquirer_bin is None
                && stored->PreAuthenticationUpdate_acquirer_merchant_id is None
                && stored->PreAuthenticationUpdate_acquirer_country_code is None
            &&& stored->PreAuthenticationUpdate_billing_address is None
            &&& stored->PreAuthenticationUpdate_shipping_address is None
            &&& stored->PreAuthenticationUpdate_browser_info is None
            &&& stored->PreAuthenticationUpdate_email is None
        }),
{
}

/// The version that was found is stored as the highest that can be used, and is used for messages.
/// What a call of the method answered is stored, each thing under its own name. Neither sets a
/// status.
pub proof fn law_first_calls_are_stored(
    answer: AuthenticationResponseData,
    authentication_id: String,
    acquirer_details: Option<AcquirerDetails>,
    res: TrackerUpdate,
)
    requires
        call_ensures(update_trackers, (Ok(answer), authentication_id, acquirer_details), res),
    ensures
        answer matches AuthenticationResponseData::PreAuthVersionCallResponse {
            maximum_supported_3ds_version: version,
        } ==> {
            &&& res.value_to_tokenize is None
            &&& res.update is PreAuthenticationVersionCallUpdate
            &&& res.update->PreAuthenticationVersionCallUpdate_maximum_supported_3ds_version
                == version
            &&& res.update->PreAuthenticationVersionCallUpdate_message_version == version
        },
        answer is PreAuthThreeDsMethodCallResponse ==> {
            let stored = res.update;
            &&& res.value_to_tokenize is None
            &&& stored is PreAuthenticationThreeDsMethodCall
            &&& stored->PreAuthenticationThreeDsMethodCall_threeds_server_transaction_id
                == answer->PreAuthThreeDsMethodCallResponse_threeds_server_transaction_id
            &&& stored->PreAuthenticationThreeDsMethodCall_three_ds_method_data
                == answer->PreAuthThreeDsMethodCallResponse_three_ds_method_data
            &&& stored->PreAuthenticationThreeDsMethodCall_three_ds_method_url
                == answer->PreAuthThreeDsMethodCallResponse_three_ds_method_url
            &&& stored->PreAuthenticationThreeDsMethodCall_connector_metadata
                == answer->PreAuthThreeDsMethodCallResponse_connector_metadata
            &&& acquirer_details matches Some(bank)
                ==> stored->PreAuthenticationThreeDsMethodCall_acquirer_bin
                == Some(bank.acquirer_bin)
                && stored->PreAuthenticationThreeDsMethodCall_acquirer_merchant_id
                == Some(bank.acquirer_merchant_id)
            &&& acquirer_details is None ==> stored->PreAuthenticationThreeDsMethodCall_acquirer_bin
                is None && stored->PreAuthenticationThreeDsMethodCall_acquirer_merchant_id is None
        },
{
}

/// What an authentication answered is stored, each thing under its own name, with the status that
/// the issuer's word stands for; the value goes to the vault under the authentication's id.
pub proof fn law_authentication_is_stored(
    answer: AuthenticationResponseData,
    authentication_id: String,
    acquirer_details: Option<AcquirerDetails>,
    res: TrackerUpdate,
)
    requires
        call_ensures(update_trackers, (Ok(answer), authentication_id, acquirer_details), res),
    ensures
        answer is AuthNResponse ==> {
            let stored = res.update;
            let flow = answer->authn_flow_type;
            &&& stored is AuthenticationUpdate
            &&& stored->AuthenticationUpdate_trans_status == answer->AuthNResponse_trans_status
            &&& stored->AuthenticationUpdate_authentication_status
                == answer->AuthNResponse_trans_status.authentication_status
            &&& stored->authentication_type == flow.authentication_type
            &&& stored->acs_url == flow.acs_url
            &&& stored->challenge_request == flow.challenge_request
            &&& stored->acs_reference_number == flow.acs_reference_number
            &&& stored->acs_trans_id == flow.acs_trans_id
            &&& stored->acs_signed_content == flow.acs_signed_content
            &&& stored->AuthenticationUpdate_connector_metadata
                == answer->AuthNResponse_connector_metadata
            &&& stored->ds_trans_id == answer->ds_trans_id
            &&& stored->AuthenticationUpdate_eci == answer->AuthNResponse_eci
            &&& answer->AuthNResponse_authentication_value is None ==> res.value_to_tokenize is None
            &&& answer->AuthNResponse_authentication_value matches Some(value)
                ==> res.value_to_tokenize == Some((value, authentication_id))
        },
        answer is PostAuthNResponse ==> {
            let stored = res.update;
            &&& stored is PostAuthenticationUpdate
            &&& stored->PostAuthenticationUpdate_trans_status
                == answer->PostAuthNResponse_trans_status
            &&& stored->PostAuthenticationUpdate_authentication_status
                == answer->PostAuthNResponse_trans_status.authentication_status
            &&& stored->PostAuthenticationUpdate_eci == answer->PostAuthNResponse_eci
            &&& answer->PostAuthNResponse_authentication_value is None ==> res.value_to_tokenize
                is None
            &&& answer->PostAuthNResponse_authentication_value matches Some(value)
                ==> res.value_to_tokenize == Some((value, authentication_id))
        },
{
}

/// An error is stored with its code, the connector's id, and its message and reason.
pub proof fn law_errors_are_stored(
    error: ErrorResponse,
    authentication_id: String,
    acquirer_details: Option<AcquirerDetails>,
    res: TrackerUpdate,
)
    requires
        call_ensures(update_trackers, (Err(error), authentication_id, acquirer_details), res),
    ensures
        res.value_to_tokenize is None,
        res.update is ErrorUpdate,
        res.update->ErrorUpdate_authentication_status is Failed,
        res.update->ErrorUpdate_connector_authentication_id == error.connector_transaction_id,
        res.update->error_code == Some(error.code),
        res.update->error_message is Some,
        error.reason is None ==> res.update->error_message->0@ == error.message@,
        error.reason matches Some(reason) ==> res.update->error_message->0@ == "message: "@
            + error.message@ + ", reason: "@ + reason@,
{
}

/// The record changes exactly where the vault kept the value; an error of the vault is given on.
pub proof fn law_vault_errors_stop_the_change(
    update: AuthenticationUpdate,
    kept: Result<(), ApiErrorResponse>,
    res: Result<AuthenticationUpdate, ApiErrorResponse>,
)
    requires
        call_ensures(value_kept, (update, kept), res),
    ensures
        res is Ok <==> kept is Ok,
        res matches Ok(change) ==> change == update,
        res matches Err(error) ==> error == kept->Err_0,
{
}

/// An attempt stands where its authentication stands.
pub proof fn law_attempt_follows_authentication(from: AuthenticationStatus, res: AttemptStatus)
    requires
        call_ensures(AttemptStatus::foreign_from, (from,), res),
    ensures
        res is AuthenticationSuccessful <==> from is Success,
        res is AuthenticationFailed <==> from is Failed,
        res is AuthenticationPending <==> from is Started || from is Pending,
{
}

/// Another service authenticates the customer for the connector that the payment goes to first,
/// and only where that connector lets it.
pub proof fn law_first_connector_decides(
    connector_call_type: &ConnectorCallType,
    res: Option<ConnectorData>,
)
    requires
        call_ensures(get_connector_data_if_separate_authn_supported, (connector_call_type,), res),
    ensures
        res matches Some(connector) ==> connector.separate_authentication_supported,
        *connector_call_type matches ConnectorCallType::PreDetermined(routing) ==> (res is Some
            <==> routing.connector_data.separate_authentication_supported) && (res is Some
            ==> res->0 == routing.connector_data),
        *connector_call_type matches ConnectorCallType::Retryable(routings) ==> (res is Some
            <==> routings@.len() > 0 && routings@[0].connector_data.separate_authentication_supported)
            && (res is Some ==> res->0 == routings@[0].connector_data),
        *connector_call_type is SessionMultiple ==> res is None,
{
}

/// The service is the one that the request asks for, where it is known; without a request it is
/// the first one of the merchant's profile. Where there is none, the refusal tells why.
pub proof fn law_asked_service_is_taken(
    requested: Option<RequestedConnector>,
    profile_connectors: &Option<Vec<String>>,
    profile_id: &str,
    res: Result<String, ApiErrorResponse>,
)
    requires
        call_ensures(
            get_authentication_connector_data,
            (requested, profile_connectors, profile_id),
            res,
        ),
    ensures
        requested is Some ==> (res is Ok <==> requested->0.known is Some),
        requested is Some && res is Ok ==> requested->0.known == Some(res->Ok_0),
        requested is Some && res is Err ==> res->Err_0 is UnprocessableEntity
            && res->Err_0->UnprocessableEntity_message@
            == "Invalid authentication_connector found in request : "@ + requested->0.name@,
        requested is None ==> (res is Ok <==> profile_connectors is Some
            && profile_connectors->0@.len() > 0),
        requested is None && res is Ok ==> res->Ok_0 == profile_connectors->0@[0],
        requested is None && profile_connectors is None ==> res->Err_0 is UnprocessableEntity
            && res->Err_0->UnprocessableEntity_message@
            == "authentication_connector_details is not available in business profile"@,
        requested is None && profile_connectors is Some && res is Err ==> res->Err_0
            is UnprocessableEntity && res->Err_0->UnprocessableEntity_message@
            == "No authentication_connector found for profile_id "@ + profile_id@,
{
}

/// A new authentication has begun and is unused. It belongs to the payment, the merchant and the
/// service that it was asked for, and nothing else is known of it.
pub proof fn law_new_authentication_is_the_asked_one(
    request: AuthenticationFor,
    authentication_id: String,
    authentication_client_secret: String,
    res: AuthenticationNew,
)
    requires
        call_ensures(
            create_new_authentication,
            (request, authentication_id, authentication_client_secret),
            res,
        ),
    ensures
        res.authentication_status is Started,
        res.authentication_lifecycle_status is Unused,
        res.authentication_id == authentication_id,
        res.authentication_client_secret == Some(authentication_client_secret),
        res.merchant_id == request.merchant_id,
        res.authentication_connector == Some(request.authentication_connector),
        res.payment_method_id@ == "eph_"@ + request.token@,
        res.profile_id == request.profile_id,
        res.payment_id == Some(request.payment_id),
        res.merchant_connector_id == Some(request.merchant_connector_id),
        res.organization_id == request.organization_id,
        res.force_3ds_challenge == request.force_3ds_challenge,
        res.psd2_sca_exemption_type == request.psd2_sca_exemption_type,
        res.connector_authentication_id is None && res.authentication_type is None
            && res.error_message is None && res.error_code is None && res.connector_metadata is None
            && res.maximum_supported_version is None && res.threeds_server_transaction_id is None
            && res.cavv is None && res.authentication_flow_type is None && res.message_version
            is None && res.eci is None && res.trans_status is None,
        res.acquirer_bin is None && res.acquirer_merchant_id is None && res.three_ds_method_data
            is None && res.three_ds_method_url is None && res.acs_url is None
            && res.challenge_request is None && res.acs_reference_number is None
            && res.acs_trans_id is None && res.acs_signed_content is None && res.ds_trans_id is None
            && res.directory_server_id is None && res.acquirer_country_code is None
            && res.service_details is None,
        res.return_url is None && res.amount is None && res.currency is None && res.billing_address
            is None && res.shipping_address is None && res.browser_info is None && res.email is None
            && res.profile_acquirer_id is None,
{
}

/// The client secret of an authentication and the error for a second one tell its id.
pub proof fn law_authentication_texts_tell_the_id(
    authentication_id: &str,
    prefix: String,
    error: ApiErrorResponse,
)
    requires
        call_ensures(client_secret_prefix, (authentication_id,), prefix),
        call_ensures(duplicate_authentication, (authentication_id,), error),
    ensures
        prefix@ == authentication_id@ + "_secret"@,
        error is GenericDuplicateError,
        error->GenericDuplicateError_message@ == "Authentication with authentication_id "@
            + authentication_id@ + " already exists"@,
{
}

} // verus!

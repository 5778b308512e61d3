//! Laws of payments, captures, cancellations and refunds at Checkout.
use vstd::prelude::*;
use crate::checkout::captures::{capture_sync, ActionResponse, CaptureType, MultipleCaptureSyncResponse, PaymentCaptureRequest, PaymentCaptureResponse, PaymentVoidRequest, PaymentVoidResponse, PaymentsResponseEnum};
use crate::checkout::payments::{get_attempt_status_bal, get_attempt_status_cap, get_attempt_status_intent, get_connector_meta, Balances, CheckoutAuthType, CheckoutMeta, CheckoutPaymentIntent, CheckoutPaymentStatus, CheckoutRedirectResponseStatus, CheckoutRouterData, ErrorCodeAndMessage, PaymentSource, PaymentsRequest, PaymentsResponse};
use crate::checkout::refunds::{CheckoutRefundResponse, RefundRequest};
use crate::checkout::tokens::{CheckoutTokenResponse, TokenRequest, WalletToken, WalletTokenFormat};
use crate::enums::{AttemptStatus, CaptureMethod, Method, MinorUnit, RefundStatus};
use crate::errors::{ConnectorError, Unimplemented};
use crate::payment_data::{PaymentMethodData, PaymentMethodToken, WalletData};
use crate::router_data::{CaptureSync, ConnectorAuthType, ErrorResponse, PaymentsAuthorizeData, PaymentsAuthorizeRouterData, PaymentsCancelData, PaymentsCancelRouterData, PaymentsCaptureData, PaymentsCaptureRouterData, PaymentsResponseData, PaymentsSyncData, RedirectionData, RefundsData, RefundsResponseData, RefundsRouterData, ResponseId, ResponseRouterData, RouterData, TokenizationRouterData};

verus! {

/// A call of Checkout holds the amount and the data that it was made from.
pub proof fn law_call_holds_its_amount<T>(amount: MinorUnit, data: T, res: CheckoutRouterData<T>)
    requires
        call_ensures(
            <CheckoutRouterData<T> as From<(MinorUnit, T)>>::from,
            ((amount, data),),
            res,
        ),
    ensures
        res.amount == amount,
        res.router_data == data,
{
}

/// Checkout is used with the three keys of the merchant, each for its own purpose, and with no
/// other kind of keys.
pub proof fn law_keys_are_the_merchants<'a>(
    auth: &'a ConnectorAuthType,
    res: Result<CheckoutAuthType, ConnectorError>,
)
    requires
        call_ensures(
            <CheckoutAuthType as TryFrom<&'a ConnectorAuthType>>::try_from,
            (auth,),
            res,
        ),
    ensures
        res is Ok <==> *auth is SignatureKey,
        res matches Ok(keys) ==> keys.api_key == auth->SignatureKey_api_key && keys.api_secret
            == auth->SignatureKey_api_secret && keys.processing_channel_id
            == auth->SignatureKey_key1,
        res matches Err(error) ==> error is FailedToObtainAuthType,
{
}

/// A payment is asked for with the amount, the currency, the reference and the channel of the
/// merchant, is captured at once exactly where that is to be automatic, and brings the customer
/// back to the given place.
pub proof fn law_asked_payment_is_the_wanted_one<'a, 'b>(
    item: &'a CheckoutRouterData<&'b PaymentsAuthorizeRouterData>,
    res: Result<PaymentsRequest, ConnectorError>,
)
    requires
        call_ensures(
            <PaymentsRequest as TryFrom<
                &'a CheckoutRouterData<&'b PaymentsAuthorizeRouterData>,
            >>::try_from,
            (item,),
            res,
        ),
        res is Ok,
    ensures
        ({
            let asked = res->Ok_0;
            let payment = item.router_data;
            &&& asked.amount == item.amount
            &&& asked.currency == payment.request.currency.code
            &&& asked.reference == payment.connector_request_reference_id
            &&& payment.connector_auth_type is SignatureKey
            &&& asked.processing_channel_id == payment.connector_auth_type->SignatureKey_key1
            &&& asked.capture <==> payment.request.capture_method == Some(CaptureMethod::Automatic)
            &&& asked.metadata is Some <==> payment.request.metadata is Some
            &&& asked.metadata is Some ==> asked.metadata->0.inner_secret
                == payment.request.metadata->0
            &&& payment.request.router_return_url is None ==> asked.return_url.success_url is None
                && asked.return_url.failure_url is None
            &&& payment.request.router_return_url matches Some(url) ==> {
                &&& asked.return_url.success_url is Some
                &&& asked.return_url.failure_url is Some
                &&& asked.return_url.success_url->0@ == url@ + "?status=success"@
                &&& asked.return_url.failure_url->0@ == url@ + "?status=failure"@
            }
            &&& asked.three_ds.enabled <==> payment.auth_type is ThreeDs
            &&& asked.three_ds.force_3ds <==> payment.auth_type is ThreeDs
            &&& if payment.auth_type is ThreeDs && payment.request.authentication_data is Some {
                let known = payment.request.authentication_data->0;
                &&& asked.three_ds.eci == known.eci
                &&& asked.three_ds.cryptogram == Some(known.cavv)
                &&& asked.three_ds.xid == known.threeds_server_transaction_id
                &&& asked.three_ds.version == known.message_version
            } else {
                &&& asked.three_ds.eci is None
                &&& asked.three_ds.cryptogram is None
                &&& asked.three_ds.xid is None
                &&& asked.three_ds.version is None
            }
        }),
{
}

/// A payment is taken from what the customer pays with: the card, each of its fields under its own
/// name; the token of the wallet; or the decrypted token of Apple Pay.
pub proof fn law_payment_is_taken_from_its_source<'a, 'b>(
    item: &'a CheckoutRouterData<&'b PaymentsAuthorizeRouterData>,
    res: Result<PaymentsRequest, ConnectorError>,
)
    requires
        call_ensures(
            <PaymentsRequest as TryFrom<
                &'a CheckoutRouterData<&'b PaymentsAuthorizeRouterData>,
            >>::try_from,
            (item,),
            res,
        ),
        res is Ok,
    ensures
        item.router_data.request.payment_method_data matches PaymentMethodData::Card(card) ==> {
            &&& res->Ok_0.source matches PaymentSource::Card(source)
            &&& source.source_type is Card
            &&& source.number == card.card_number
            &&& source.expiry_month == card.card_exp_month
            &&& source.expiry_year == card.card_exp_year
            &&& source.cvv == card.card_cvc
        },
        item.router_data.request.payment_method_data !is Card ==> {
            &&& item.router_data.request.payment_method_data matches PaymentMethodData::Wallet(
                wallet,
            )
            &&& wallet is GooglePay || wallet is ApplePay
            &&& item.router_data.payment_method_token is Some
            &&& wallet is GooglePay ==> item.router_data.payment_method_token->0 is Token
            &&& item.router_data.payment_method_token->0 matches PaymentMethodToken::Token(token)
                ==> {
                &&& res->Ok_0.source matches PaymentSource::Wallets(source)
                &&& source.source_type is Token
                &&& source.token == token
            }
            &&& item.router_data.payment_method_token->0 matches PaymentMethodToken::ApplePayDecrypt(
                data,
            ) ==> {
                &&& res->Ok_0.source matches PaymentSource::ApplePayPredecrypt(source)
                &&& source.token == data.application_primary_account_number
                &&& source.decrypt_type@ == "network_token"@
                &&& source.token_type@ == "applepay"@
                &&& data.expiry_month is Ok && source.expiry_month == data.expiry_month->Ok_0
                &&& data.four_digit_expiry_year is Ok && source.expiry_year
                    == data.four_digit_expiry_year->Ok_0
                &&& source.eci == data.eci_indicator
                &&& source.cryptogram == data.online_payment_cryptogram
            }
        },
{
}

/// A payment with a source that Checkout takes, and with the merchant's keys, is asked for. Without
/// the keys it is not, and a payment by anything else than a card, Google Pay or Apple Pay is
/// refused as not offered.
pub proof fn law_payable_payment_is_asked_for<'a, 'b>(
    item: &'a CheckoutRouterData<&'b PaymentsAuthorizeRouterData>,
    res: Result<PaymentsRequest, ConnectorError>,
)
    requires
        call_ensures(
            <PaymentsRequest as TryFrom<
                &'a CheckoutRouterData<&'b PaymentsAuthorizeRouterData>,
            >>::try_from,
            (item,),
            res,
        ),
    ensures
        ({
            let by = item.router_data.request.payment_method_data;
            let token = item.router_data.payment_method_token;
            let wallet = by is Wallet && (by->Wallet_0 is GooglePay || by->Wallet_0 is ApplePay);
            let keyed = item.router_data.connector_auth_type is SignatureKey;
            &&& by is Card ==> (res is Ok <==> keyed)
            &&& wallet && token is Some && token->0 is Token ==> (res is Ok <==> keyed)
            &&& by is Wallet && by->Wallet_0 is ApplePay && token is Some && token->0
                is ApplePayDecrypt && token->0->ApplePayDecrypt_0.expiry_month is Ok
                && token->0->ApplePayDecrypt_0.four_digit_expiry_year is Ok ==> (res is Ok
                <==> keyed)
            &&& (by is Card || wallet && token is Some && token->0 is Token) && !keyed
                ==> res->Err_0 is FailedToObtainAuthType
            &&& by !is Card && !wallet ==> res is Err && res->Err_0
                == ConnectorError::NotImplemented(
                Unimplemented::SelectedPaymentMethod { connector: "checkout" },
            )
            &&& wallet && token is None ==> res is Err && res->Err_0 == (
            ConnectorError::MissingRequiredField { field_name: "payment_method_token" })
            &&& wallet && token is Some && token->0 is PazeDecrypt ==> res is Err && res->Err_0
                == ConnectorError::NotImplemented(
                Unimplemented::PaymentMethod {
                    payment_method: "Paze",
                    flow: None,
                    connector: "Checkout",
                },
            )
            &&& wallet && token is Some && token->0 is GooglePayDecrypt ==> res is Err && res->Err_0
                == ConnectorError::NotImplemented(
                Unimplemented::PaymentMethod {
                    payment_method: "Google Pay",
                    flow: None,
                    connector: "Checkout",
                },
            )
            &&& by is Wallet && by->Wallet_0 is GooglePay && token is Some && token->0
                is ApplePayDecrypt ==> res is Err && res->Err_0 == ConnectorError::NotImplemented(
                Unimplemented::PaymentMethod {
                    payment_method: "Apple Pay",
                    flow: Some("Simplified"),
                    connector: "Checkout",
                },
            )
            &&& by is Wallet && by->Wallet_0 is ApplePay && token is Some && token->0
                is ApplePayDecrypt && token->0->ApplePayDecrypt_0.expiry_month is Err ==> res is Err
                && res->Err_0 == token->0->ApplePayDecrypt_0.expiry_month->Err_0
        }),
{
}

/// How a payment's state at Checkout is read: money taken is charged, even where it went back
/// since; a payment that came to nothing has failed; and what is still open is open.
pub open spec fn reads_as(status: CheckoutPaymentStatus, res: AttemptStatus) -> bool {
    &&& status is Captured || status is Refunded || status is PartiallyRefunded <==> res is Charged
    &&& status is PartiallyCaptured <==> res is PartialCharged
    &&& status is Declined || status is Expired || status is Canceled <==> res is Failure
    &&& status is Pending <==> res is AuthenticationPending
    &&& status is CardVerified || status is RetryScheduled <==> res is Pending
    &&& status is Voided <==> res is Voided
}

/// A payment's state is read the same way whatever is known of its capture. Only an authorized
/// payment depends on that: it is pending where its capture follows by itself, charged where
/// nothing is left to capture, and authorized otherwise.
pub proof fn law_states_are_read(
    status: CheckoutPaymentStatus,
    capture_method: Option<CaptureMethod>,
    psync_flow: CheckoutPaymentIntent,
    balances: Option<Balances>,
    by_capture: AttemptStatus,
    by_intent: AttemptStatus,
    by_balance: AttemptStatus,
)
    requires
        call_ensures(get_attempt_status_cap, ((status, capture_method),), by_capture),
        call_ensures(get_attempt_status_intent, ((status, psync_flow),), by_intent),
        call_ensures(get_attempt_status_bal, ((status, balances),), by_balance),
    ensures
        status !is Authorized ==> reads_as(status, by_capture) && by_intent == by_capture
            && by_balance == by_capture,
        status is Authorized ==> {
            &&& by_capture is Pending <==> capture_method is None || capture_method->0 is Automatic
            &&& by_capture is Authorized <==> capture_method is Some && capture_method->0
                !is Automatic
            &&& by_intent is Pending <==> psync_flow is Capture
            &&& by_intent is Authorized <==> psync_flow is Authorize
            &&& by_balance is Charged <==> balances is Some && balances->0.available_to_capture == 0
            &&& by_balance is Authorized <==> !(balances is Some
                && balances->0.available_to_capture == 0)
        },
{
}

/// A payment that is captured by itself is meant to be captured, one that is captured by hand to
/// be authorized, and one for later is not taken.
pub proof fn law_capture_is_remembered(
    capture_method: CaptureMethod,
    res: Result<CheckoutMeta, ConnectorError>,
)
    requires
        call_ensures(get_connector_meta, (capture_method,), res),
    ensures
        res is Err <==> capture_method is Scheduled,
        res is Err ==> res->Err_0 is CaptureMethodNotSupported,
        res is Ok ==> (res->Ok_0.psync_flow is Capture <==> capture_method is Automatic
            || capture_method is SequentialAutomatic),
        res is Ok ==> (res->Ok_0.psync_flow is Authorize <==> capture_method is Manual
            || capture_method is ManualMultiple),
{
}

/// Whether an error tells what Checkout said of a failed payment.
pub open spec fn tells_failure(
    error: ErrorResponse,
    response: PaymentsResponse,
    http_code: u16,
) -> bool {
    &&& error.status_code == http_code
    &&& error.connector_transaction_id is Some
    &&& error.connector_transaction_id->0@ == response.id@
    &&& response.response_code matches Some(code) ==> error.code@ == code@
    &&& response.response_code is None ==> error.code@ == "No error code"@
    &&& response.response_summary matches Some(summary) ==> error.message@ == summary@
        && error.reason is Some && error.reason->0@ == summary@
    &&& response.response_summary is None ==> error.message@ == "No error message"@ && error.reason
        is None
    &&& error.attempt_status is None
    &&& error.network_advice_code is None
    &&& error.network_decline_code is None
    &&& error.network_error_message is None
}

/// Whether an answer tells the transaction that Checkout told.
pub open spec fn tells_transaction(
    answer: PaymentsResponseData,
    response: PaymentsResponse,
    meta: Option<CheckoutMeta>,
) -> bool {
    &&& answer is TransactionResponse
    &&& answer->resource_id == ResponseId::ConnectorTransactionId(response.id)
    &&& answer->TransactionResponse_connector_metadata == meta
    &&& response.reference matches Some(reference)
        ==> answer->TransactionResponse_connector_response_reference_id == Some(reference)
    &&& response.reference is None
        ==> answer->TransactionResponse_connector_response_reference_id == Some(response.id)
    &&& response.links.redirect is None ==> answer->redirection_data is None
    &&& response.links.redirect matches Some(href) ==> answer->redirection_data == Some(
        RedirectionData::Url { url: href.redirection_url, method: Method::Get },
    )
    &&& answer->mandate_reference is None
    &&& answer->network_txn_id is None
    &&& answer->incremental_authorization_allowed is None
}

/// After a payment was authorized it stands where Checkout's answer says, given how it is to be
/// captured; a failed one is told as an error and any other as its transaction. All else of the
/// payment stays.
pub proof fn law_authorized_payment_is_told(
    response: PaymentsResponse,
    data: PaymentsAuthorizeRouterData,
    http_code: u16,
    meta: Result<CheckoutMeta, ConnectorError>,
    status: AttemptStatus,
    res: Result<PaymentsAuthorizeRouterData, ConnectorError>,
)
    requires
        call_ensures(
            <PaymentsAuthorizeRouterData as TryFrom<
                ResponseRouterData<PaymentsResponse, PaymentsAuthorizeData, PaymentsResponseData>,
            >>::try_from,
            (ResponseRouterData { response, data, http_code },),
            res,
        ),
        call_ensures(
            get_connector_meta,
            (
                match data.request.capture_method {
                    Some(method) => method,
                    None => CaptureMethod::Automatic,
                },
            ),
            meta,
        ),
        call_ensures(
            get_attempt_status_cap,
            ((response.status, data.request.capture_method),),
            status,
        ),
    ensures
        res is Ok <==> data.request.capture_method != Some(CaptureMethod::Scheduled),
        res is Err ==> res->Err_0 is CaptureMethodNotSupported,
        res is Ok ==> ({
            let after = res->Ok_0;
            &&& after.status == status
            &&& after == (RouterData { status, response: after.response, ..data })
            &&& after.response is Err <==> status is Failure
            &&& after.response matches Err(error) ==> tells_failure(error, response, http_code)
            &&& after.response matches Ok(answer) ==> tells_transaction(
                answer,
                response,
                Some(meta->Ok_0),
            )
        }),
{
}

/// After the state of a payment was asked for it stands where Checkout's answer says, given what
/// was kept of it. All else of the payment stays.
pub proof fn law_synced_payment_is_told(
    response: PaymentsResponse,
    data: RouterData<PaymentsSyncData, PaymentsResponseData>,
    http_code: u16,
    status: AttemptStatus,
    res: Result<RouterData<PaymentsSyncData, PaymentsResponseData>, ConnectorError>,
)
    requires
        call_ensures(
            <RouterData<PaymentsSyncData, PaymentsResponseData> as TryFrom<
                ResponseRouterData<PaymentsResponse, PaymentsSyncData, PaymentsResponseData>,
            >>::try_from,
            (ResponseRouterData { response, data, http_code },),
            res,
        ),
        data.request.connector_meta matches Ok(meta) ==> call_ensures(
            get_attempt_status_intent,
            ((response.status, meta.psync_flow),),
            status,
        ),
    ensures
        res is Ok <==> data.request.connector_meta is Ok,
        res is Err ==> res->Err_0 == data.request.connector_meta->Err_0,
        res is Ok ==> ({
            let after = res->Ok_0;
            &&& after.status == status
            &&& after == (RouterData { status, response: after.response, ..data })
            &&& after.response is Err <==> status is Failure
            &&& after.response matches Err(error) ==> tells_failure(error, response, http_code)
            &&& after.response matches Ok(answer) ==> tells_transaction(answer, response, None)
        }),
{
}

/// A customer who comes back with success is authenticated, and one who comes back with failure
/// failed. An error's text is its code and its message.
pub proof fn law_returning_customer_is_read(
    status: CheckoutRedirectResponseStatus,
    error: String,
    res: AttemptStatus,
    pair: ErrorCodeAndMessage,
)
    requires
        call_ensures(
            <AttemptStatus as From<CheckoutRedirectResponseStatus>>::from,
            (status,),
            res,
        ),
        call_ensures(<ErrorCodeAndMessage as From<String>>::from, (error,), pair),
    ensures
        res is AuthenticationSuccessful <==> status is Success,
        res is Failure <==> status is Failure,
        pair.error_code == error,
        pair.error_message == error,
{
}

/// A capture is asked for with the amount that is to be captured, as one of several with its own
/// reference or else as the last one.
pub proof fn law_asked_capture_is_the_wanted_one<'a, 'b>(
    item: &'a CheckoutRouterData<&'b PaymentsCaptureRouterData>,
    res: Result<PaymentCaptureRequest, ConnectorError>,
)
    requires
        call_ensures(
            <PaymentCaptureRequest as TryFrom<
                &'a CheckoutRouterData<&'b PaymentsCaptureRouterData>,
            >>::try_from,
            (item,),
            res,
        ),
    ensures
        res is Ok <==> item.router_data.connector_auth_type is SignatureKey,
        res matches Err(error) ==> error is FailedToObtainAuthType,
        res matches Ok(asked) ==> {
            let several = item.router_data.request.multiple_capture_data;
            &&& asked.amount == Some(item.amount)
            &&& asked.processing_channel_id
                == item.router_data.connector_auth_type->SignatureKey_key1
            &&& asked.capture_type == Some(CaptureType::NonFinal) <==> several is Some
            &&& asked.capture_type == Some(CaptureType::Final) <==> several is None
            &&& asked.reference is Some <==> several is Some
            &&& several matches Some(one) ==> asked.reference == Some(one.capture_reference)
        },
{
}

/// A capture that Checkout accepted is charged with the amount that was asked for; any other is
/// pending, and nothing is captured. One of several is known by its own id, and a single one by
/// that of the payment.
pub proof fn law_accepted_capture_is_charged(
    response: PaymentCaptureResponse,
    data: PaymentsCaptureRouterData,
    http_code: u16,
    res: Result<PaymentsCaptureRouterData, ConnectorError>,
)
    requires
        call_ensures(
            <PaymentsCaptureRouterData as TryFrom<
                ResponseRouterData<
                    PaymentCaptureResponse,
                    PaymentsCaptureData,
                    PaymentsResponseData,
                >,
            >>::try_from,
            (ResponseRouterData { response, data, http_code },),
            res,
        ),
    ensures
        res is Ok,
        ({
            let after = res->Ok_0;
            &&& after.status is Charged <==> http_code == 202
            &&& after.status is Pending <==> http_code != 202
            &&& after.amount_captured is Some <==> http_code == 202
            &&& http_code == 202 ==> after.amount_captured == Some(data.request.amount_to_capture)
            &&& after == (RouterData {
                status: after.status,
                amount_captured: after.amount_captured,
                response: after.response,
                ..data
            })
            &&& after.response matches Ok(answer)
            &&& answer is TransactionResponse
            &&& data.request.multiple_capture_data is Some ==> answer->resource_id
                == ResponseId::ConnectorTransactionId(response.action_id)
            &&& data.request.multiple_capture_data is None ==> answer->resource_id
                == ResponseId::ConnectorTransactionId(data.request.connector_transaction_id)
            &&& answer->TransactionResponse_connector_response_reference_id == response.reference
            &&& answer->TransactionResponse_connector_metadata == Some(
                CheckoutMeta { psync_flow: CheckoutPaymentIntent::Capture },
            )
            &&& answer->redirection_data is None
            &&& answer->mandate_reference is None
            &&& answer->network_txn_id is None
            &&& answer->incremental_authorization_allowed is None
        }),
{
}

/// One of several captures is told as Checkout tells it: approved ones are charged, refused ones
/// failed, others pending, each under its own id, reference and amount.
pub proof fn law_each_capture_is_told(action: &ActionResponse, res: CaptureSync)
    requires
        call_ensures(capture_sync::<ActionResponse>, (action,), res),
    ensures
        res.connector_capture_id@ == action.action_id@,
        res.status is Charged <==> action.approved == Some(true),
        res.status is Failure <==> action.approved == Some(false),
        res.status is Pending <==> action.approved is None,
        res.connector_reference_id == action.reference,
        res.is_capture_response <==> action.action_type is Capture,
        res.amount == Some(action.amount),
{
}

/// A payment that is told as its own only capture: under its action's id and its reference, with
/// its amount, where the balance says.
pub proof fn law_single_capture_is_told(
    payment: &PaymentsResponse,
    status: AttemptStatus,
    res: CaptureSync,
)
    requires
        call_ensures(get_attempt_status_bal, ((payment.status, payment.balances),), status),
        call_ensures(capture_sync::<PaymentsResponse>, (payment,), res),
    ensures
        payment.action_id matches Some(id) ==> res.connector_capture_id@ == id@,
        payment.action_id is None ==> res.connector_capture_id@ == ""@,
        res.status == status,
        res.connector_reference_id == payment.reference,
        res.is_capture_response <==> payment.status is Captured,
        res.amount == payment.amount,
{
}

/// All captures of a payment are told, in order, and nothing else of the payment changes.
pub proof fn law_all_captures_are_told(
    actions: Vec<ActionResponse>,
    data: RouterData<PaymentsSyncData, PaymentsResponseData>,
    http_code: u16,
    res: Result<RouterData<PaymentsSyncData, PaymentsResponseData>, ConnectorError>,
    i: int,
)
    requires
        call_ensures(
            <RouterData<PaymentsSyncData, PaymentsResponseData> as TryFrom<
                ResponseRouterData<PaymentsResponseEnum, PaymentsSyncData, PaymentsResponseData>,
            >>::try_from,
            (
                ResponseRouterData {
                    response: PaymentsResponseEnum::ActionResponse(actions),
                    data,
                    http_code,
                },
            ),
            res,
        ),
    ensures
        res is Ok,
        res->Ok_0 == (RouterData { response: res->Ok_0.response, ..data }),
        res->Ok_0.response is Ok,
        res->Ok_0.response->Ok_0 is MultipleCaptureResponse,
        ({
            let told = res->Ok_0.response->Ok_0->captures@;
            &&& told.len() == actions@.len()
            &&& 0 <= i < actions@.len() ==> {
                &&& told[i].connector_capture_id@ == actions@[i].action_id@
                &&& told[i].status is Charged <==> actions@[i].approved == Some(true)
                &&& told[i].status is Failure <==> actions@[i].approved == Some(false)
                &&& told[i].status is Pending <==> actions@[i].approved is None
                &&& told[i].connector_reference_id == actions@[i].reference
                &&& told[i].is_capture_response <==> actions@[i].action_type is Capture
                &&& told[i].amount == Some(actions@[i].amount)
            }
        }),
{
}

/// A payment that is answered as a whole tells of one capture, its own, and nothing else of the
/// payment changes.
pub proof fn law_whole_payment_tells_one_capture(
    payment: Box<PaymentsResponse>,
    status: AttemptStatus,
    data: RouterData<PaymentsSyncData, PaymentsResponseData>,
    http_code: u16,
    res: Result<RouterData<PaymentsSyncData, PaymentsResponseData>, ConnectorError>,
)
    requires
        call_ensures(get_attempt_status_bal, ((payment.status, payment.balances),), status),
        call_ensures(
            <RouterData<PaymentsSyncData, PaymentsResponseData> as TryFrom<
                ResponseRouterData<PaymentsResponseEnum, PaymentsSyncData, PaymentsResponseData>,
            >>::try_from,
            (
                ResponseRouterData {
                    response: PaymentsResponseEnum::PaymentResponse(payment),
                    data,
                    http_code,
                },
            ),
            res,
        ),
    ensures
        res is Ok,
        res->Ok_0 == (RouterData { response: res->Ok_0.response, ..data }),
        res->Ok_0.response is Ok,
        res->Ok_0.response->Ok_0 is MultipleCaptureResponse,
        ({
            let told = res->Ok_0.response->Ok_0->captures@;
            &&& told.len() == 1
            &&& payment.action_id matches Some(id) ==> told[0].connector_capture_id@ == id@
            &&& payment.action_id is None ==> told[0].connector_capture_id@ == ""@
            &&& told[0].status == status
            &&& told[0].connector_reference_id == payment.reference
            &&& told[0].is_capture_response <==> payment.status is Captured
            &&& told[0].amount == payment.amount
        }),
{
}

/// A cancellation names the payment at Checkout. An accepted one voids the payment and any other
/// failed to; all else of the payment stays.
pub proof fn law_accepted_cancellation_voids<'a>(
    item: &'a PaymentsCancelRouterData,
    response: PaymentVoidResponse,
    data: PaymentsCancelRouterData,
    http_code: u16,
    asked: Result<PaymentVoidRequest, ConnectorError>,
    res: Result<PaymentsCancelRouterData, ConnectorError>,
)
    requires
        call_ensures(
            <PaymentVoidRequest as TryFrom<&'a PaymentsCancelRouterData>>::try_from,
            (item,),
            asked,
        ),
        call_ensures(
            <PaymentsCancelRouterData as TryFrom<
                ResponseRouterData<PaymentVoidResponse, PaymentsCancelData, PaymentsResponseData>,
            >>::try_from,
            (ResponseRouterData { response, data, http_code },),
            res,
        ),
    ensures
        asked is Ok,
        asked->Ok_0.reference == item.request.connector_transaction_id,
        res is Ok,
        ({
            let after = res->Ok_0;
            &&& after.status is Voided <==> response.status == 202
            &&& after.status is VoidFailed <==> response.status != 202
            &&& after == (RouterData { status: after.status, response: after.response, ..data })
            &&& after.response matches Ok(answer)
            &&& answer is TransactionResponse
            &&& answer->resource_id == ResponseId::ConnectorTransactionId(response.action_id)
            &&& answer->redirection_data is None
            &&& answer->mandate_reference is None
            &&& answer->TransactionResponse_connector_metadata is None
            &&& answer->network_txn_id is None
            &&& answer->TransactionResponse_connector_response_reference_id is None
            &&& answer->incremental_authorization_allowed is None
        }),
{
}

/// A refund is asked for with its amount and its own id. An accepted one succeeded and any other
/// failed; asked for later, an approved one succeeded, a refused one failed and others are
/// pending. It is known by the id of its action, and all else stays.
pub proof fn law_accepted_refund_succeeds<'a, 'b>(
    item: &'a CheckoutRouterData<&'b RefundsRouterData>,
    response: CheckoutRefundResponse,
    action: &'a ActionResponse,
    data: RefundsRouterData,
    http_code: u16,
    asked: Result<RefundRequest, ConnectorError>,
    made: Result<RefundsRouterData, ConnectorError>,
    synced: Result<RefundsRouterData, ConnectorError>,
)
    requires
        call_ensures(
            <RefundRequest as TryFrom<&'a CheckoutRouterData<&'b RefundsRouterData>>>::try_from,
            (item,),
            asked,
        ),
        call_ensures(
            <RefundsRouterData as TryFrom<
                ResponseRouterData<CheckoutRefundResponse, RefundsData, RefundsResponseData>,
            >>::try_from,
            (ResponseRouterData { response, data, http_code },),
            made,
        ),
        call_ensures(
            <RefundsRouterData as TryFrom<
                ResponseRouterData<&'a ActionResponse, RefundsData, RefundsResponseData>,
            >>::try_from,
            (ResponseRouterData { response: action, data, http_code },),
            synced,
        ),
    ensures
        asked is Ok,
        asked->Ok_0.amount == Some(item.amount),
        asked->Ok_0.reference == item.router_data.request.refund_id,
        made is Ok,
        made->Ok_0 == (RouterData { response: made->Ok_0.response, ..data }),
        made->Ok_0.response is Ok,
        made->Ok_0.response->Ok_0.connector_refund_id == response.response.action_id,
        made->Ok_0.response->Ok_0.refund_status is Success <==> response.status == 202,
        made->Ok_0.response->Ok_0.refund_status is Failure <==> response.status != 202,
        synced is Ok,
        synced->Ok_0 == (RouterData { response: synced->Ok_0.response, ..data }),
        synced->Ok_0.response is Ok,
        synced->Ok_0.response->Ok_0.connector_refund_id == action.action_id,
        synced->Ok_0.response->Ok_0.refund_status is Success <==> action.approved == Some(true),
        synced->Ok_0.response->Ok_0.refund_status is Failure <==> action.approved == Some(false),
        synced->Ok_0.response->Ok_0.refund_status is Pending <==> action.approved is None,
{
}

/// Where a cancellation, or a refund, stands by its answer alone.
pub proof fn law_answers_tell_where_it_stands<'a>(
    void: &'a PaymentVoidResponse,
    refund: &'a CheckoutRefundResponse,
    action: &'a ActionResponse,
    voided: AttemptStatus,
    refunded: RefundStatus,
    acted: RefundStatus,
)
    requires
        call_ensures(<AttemptStatus as From<&'a PaymentVoidResponse>>::from, (void,), voided),
        call_ensures(
            <RefundStatus as From<&'a CheckoutRefundResponse>>::from,
            (refund,),
            refunded,
        ),
        call_ensures(<RefundStatus as From<&'a ActionResponse>>::from, (action,), acted),
    ensures
        voided is Voided <==> void.status == 202,
        voided is VoidFailed <==> void.status != 202,
        refunded is Success <==> refund.status == 202,
        refunded is Failure <==> refund.status != 202,
        acted is Success <==> action.approved == Some(true),
        acted is Failure <==> action.approved == Some(false),
        acted is Pending <==> action.approved is None,
{
}

/// The token of a wallet is decoded as that wallet's, Google Pay's or Apple Pay's, and no other
/// payment method has one.
pub proof fn law_wallet_tokens_are_decoded(
    item: &TokenizationRouterData,
    format: Result<WalletTokenFormat, ConnectorError>,
    google: &str,
    apple: &str,
)
    requires
        call_ensures(TokenRequest::token_format, (item,), format),
        call_ensures(WalletTokenFormat::wallet_name, (&WalletTokenFormat::GooglePay,), google),
        call_ensures(WalletTokenFormat::wallet_name, (&WalletTokenFormat::ApplePay,), apple),
    ensures
        google@ == "Google Pay"@,
        apple@ == "Apple Pay"@,
        ({
            let by = item.request.payment_method_data;
            &&& format is Ok && format->Ok_0 is GooglePay <==> by is Wallet && by->Wallet_0
                is GooglePay
            &&& format is Ok && format->Ok_0 is ApplePay <==> by is Wallet && by->Wallet_0
                is ApplePay
            &&& format is Err ==> format->Err_0 == ConnectorError::NotImplemented(
                Unimplemented::SelectedPaymentMethod { connector: "checkout" },
            )
        }),
{
}

/// A token is asked for with what the wallet's token was decoded to, and what could not be decoded
/// is an error; the token that came is given on as it came.
pub proof fn law_decoded_tokens_are_sent<T>(
    item: &TokenizationRouterData,
    decoded: Result<WalletToken, ConnectorError>,
    format: Result<WalletTokenFormat, ConnectorError>,
    response: CheckoutTokenResponse,
    data: RouterData<T, PaymentsResponseData>,
    http_code: u16,
    asked: Result<TokenRequest, ConnectorError>,
    res: Result<RouterData<T, PaymentsResponseData>, ConnectorError>,
)
    requires
        call_ensures(TokenRequest::token_format, (item,), format),
        call_ensures(TokenRequest::try_from, (item, decoded), asked),
        call_ensures(
            <RouterData<T, PaymentsResponseData> as TryFrom<
                ResponseRouterData<CheckoutTokenResponse, T, PaymentsResponseData>,
            >>::try_from,
            (ResponseRouterData { response, data, http_code },),
            res,
        ),
    ensures
        asked is Ok <==> format is Ok && decoded is Ok,
        format is Err ==> asked->Err_0 == format->Err_0,
        format is Ok && decoded is Err ==> asked->Err_0 == decoded->Err_0,
        asked is Ok ==> (decoded->Ok_0 matches WalletToken::GooglePay(token) ==> asked->Ok_0
            is Googlepay && asked->Ok_0->Googlepay_0 == token),
        asked is Ok ==> (decoded->Ok_0 matches WalletToken::ApplePay(token) ==> asked->Ok_0
            is Applepay && asked->Ok_0->Applepay_0 == token),
        res is Ok,
        res->Ok_0 == (RouterData { response: res->Ok_0.response, ..data }),
        res->Ok_0.response is Ok,
        res->Ok_0.response->Ok_0 is TokenizationResponse,
        res->Ok_0.response->Ok_0->token == response.token.inner_secret,
{
}

} // verus!
